//! The decisions one by one.

use rapidgzip::callbacks::{
    cb_clone, cb_get_size, cb_read, cb_seek, write_cb, SizeCallback,
};
use rapidgzip::error::{default_status_message, get_last_error, last_global_error};
use rapidgzip::open::{cloneable_callbacks, plain_callbacks};
use rapidgzip::protocol::Behavior;
use rapidgzip::sys::{
    CallbackEntry, RGZ_IO_READ_MODE_MASK, RGZ_IO_READ_MODE_PREAD, RGZ_IO_READ_MODE_SEQUENTIAL,
};
use rapidgzip::text::{is_blank, is_white_space};
use rapidgzip::{
    checked_relative_seek, rgz_reader_t, rgz_status_t, Error, ErrorKind, IoReadMode, Operation,
    Reader, ReaderBuilder, Reply, Request, SeekFrom, Step,
};

const STATUSES: [rgz_status_t; 12] = [
    rgz_status_t::RGZ_STATUS_OK,
    rgz_status_t::RGZ_STATUS_EOF,
    rgz_status_t::RGZ_STATUS_INVALID_ARGUMENT,
    rgz_status_t::RGZ_STATUS_IO_ERROR,
    rgz_status_t::RGZ_STATUS_DATA_ERROR,
    rgz_status_t::RGZ_STATUS_UNSUPPORTED,
    rgz_status_t::RGZ_STATUS_OUT_OF_MEMORY,
    rgz_status_t::RGZ_STATUS_INTERNAL_ERROR,
    rgz_status_t::RGZ_STATUS_SEEK_ERROR,
    rgz_status_t::RGZ_STATUS_INDEX_ERROR,
    rgz_status_t::RGZ_STATUS_STATE_ERROR,
    rgz_status_t::RGZ_STATUS_NOT_IMPLEMENTED,
];

/// Runs an operation on a list of replies; returns its result and how many calls
/// it made.
fn feed<S: Operation>(mut step: Step<S, S::Output>, replies: Vec<Reply>) -> (S::Output, usize) {
    let mut made = 0;
    let mut replies = replies.into_iter();
    loop {
        match step {
            Step::Done(output) => {
                assert!(replies.next().is_none());
                return (output, made);
            }
            Step::Call(_, state) => {
                let reply = replies.next().unwrap();
                assert!(state.accepts(&reply));
                made += 1;
                step = state.resume(reply);
            }
        }
    }
}

#[test]
fn checked_relative_seek_allows_valid_positive_offsets() {
    assert_eq!(checked_relative_seek(10, 5, "stream").unwrap(), 15);
}

#[test]
fn checked_relative_seek_rejects_underflow() {
    let error = checked_relative_seek(3, -4, "stream").unwrap_err();
    assert_eq!(error.kind(), ErrorKind::InvalidInput);
}

#[test]
fn checked_relative_seek_rejects_overflow() {
    let error = checked_relative_seek(u64::MAX - 1, 5, "stream").unwrap_err();
    assert_eq!(error.kind(), ErrorKind::InvalidInput);
}

#[test]
fn relative_seek_reaches_both_ends() {
    assert_eq!(checked_relative_seek(u64::MAX - 5, 5, "stream").unwrap(), u64::MAX);
    assert_eq!(checked_relative_seek(4, -4, "stream").unwrap(), 0);
    assert_eq!(checked_relative_seek(1 << 63, i64::MIN, "stream").unwrap(), 0);
    assert_eq!(checked_relative_seek(0, i64::MAX, "stream").unwrap(), i64::MAX as u64);
    assert_eq!(checked_relative_seek(77, 0, "stream").unwrap(), 77);
    let there = checked_relative_seek(1000, -999, "stream").unwrap();
    assert_eq!(checked_relative_seek(there, 999, "stream").unwrap(), 1000);
    let error = checked_relative_seek(0, i64::MIN, "index").unwrap_err();
    assert_eq!(error.to_string(), "Seek before start of index");
    let error = checked_relative_seek(u64::MAX, 1, "index").unwrap_err();
    assert_eq!(error.to_string(), "Seek overflow for index");
}

#[test]
fn builder_encodes_io_read_mode_into_ffi_flags() {
    let config = ReaderBuilder::new()
        .io_read_mode(IoReadMode::Sequential)
        .to_ffi_config();
    assert_eq!(
        config.flags & RGZ_IO_READ_MODE_MASK,
        RGZ_IO_READ_MODE_SEQUENTIAL
    );

    let config = ReaderBuilder::new()
        .io_read_mode(IoReadMode::Pread)
        .to_ffi_config();
    assert_eq!(
        config.flags & RGZ_IO_READ_MODE_MASK,
        RGZ_IO_READ_MODE_PREAD
    );
}

#[test]
fn builder_encodes_every_setting() {
    let config = ReaderBuilder::default()
        .parallelism(9)
        .parallelism(4)
        .chunk_size(64 * 1024)
        .keep_index(true)
        .io_read_mode(IoReadMode::LockedReadAndSeek)
        .to_ffi_config();
    assert_eq!(config.struct_size, 32);
    assert_eq!(config.flags, 3);
    assert_eq!(config.parallelism, 4);
    assert_eq!(config.reserved0, 0);
    assert_eq!(config.chunk_size, 65536);
    assert_eq!(config.reserved1, 0);
    assert_eq!(ReaderBuilder::new().to_ffi_config().flags, 0);
    assert_eq!(IoReadMode::Auto.to_ffi_flags(), 0);
}

#[test]
fn callback_tables() {
    let plain = plain_callbacks();
    assert_eq!(plain.clone, None);
    assert_eq!(plain.read, Some(CallbackEntry::Read));
    let cloneable = cloneable_callbacks();
    assert_eq!(cloneable.clone, Some(CallbackEntry::CloneCloneable));
    assert_eq!(cloneable.free_user_data, Some(CallbackEntry::FreeUserDataCloneable));
}

#[test]
fn white_space_is_unicode_white_space() {
    for c in '\0'..=char::MAX {
        assert_eq!(is_white_space(c), c.is_whitespace());
    }
    for text in ["", " ", "\t\n", "\u{A0}\u{3000}", "x", " x ", "\u{200B}", "  \u{2028}."] {
        assert_eq!(is_blank(text), text.trim().is_empty());
    }
}

#[test]
fn status_codes() {
    let codes: Vec<i32> = STATUSES.iter().map(|status| status.code()).collect();
    assert_eq!(codes, [0, 1, 10, 11, 12, 13, 14, 15, 16, 17, 18, 19]);
}

#[test]
fn statuses_turn_into_errors() {
    let texts: Vec<String> = STATUSES.iter().map(|s| Error::from(*s).to_string()).collect();
    assert_eq!(
        texts,
        [
            "Internal error: Success status inappropriately converted to error",
            "EOF reached",
            "Invalid argument: Invalid argument",
            "IO error: I/O error",
            "Gzip data error: Gzip data error",
            "Operation not supported: Unsupported operation",
            "Internal error: Out of memory",
            "Internal error: Internal error",
            "Seek error: Seek error",
            "Index error: Index error",
            "Internal error: Invalid reader state",
            "Operation not supported: Not implemented",
        ]
    );
    for status in STATUSES {
        let blank = Error::from_status_message(status, Some(" \n\u{2003}".to_string()));
        assert_eq!(blank.to_string(), Error::from(status).to_string());
        assert!(!default_status_message(status).is_empty());
        let unknown = Error::Unknown(status).to_string();
        assert_eq!(unknown, format!("Unknown error with status {:?}", status));
    }
    let error = Error::from_status_message(
        rgz_status_t::RGZ_STATUS_SEEK_ERROR,
        Some(" far away ".to_string()),
    );
    assert_eq!(error.to_string(), "Seek error:  far away ");
    assert!(matches!(error, Error::Seek(_)));
}

#[test]
fn native_texts() {
    assert_eq!(last_global_error(None), None);
    assert_eq!(last_global_error(Some(" ".to_string())), None);
    assert_eq!(last_global_error(Some(" x".to_string())), Some(" x".to_string()));
    assert_eq!(get_last_error(None), "Unknown error");
    assert_eq!(get_last_error(Some("".to_string())), "");
}

#[test]
fn null_address_is_no_handle() {
    assert_eq!(rgz_reader_t::from_address(0), None);
    assert_eq!(rgz_reader_t::from_address(9).unwrap().address(), 9);
}

#[test]
fn read_statuses() {
    let reader = rgz_reader_t::from_address(9).unwrap();
    for status in STATUSES {
        match Reader::map_read_status(reader, status, 5) {
            Step::Done(result) => {
                assert!(status.code() < 10);
                assert_eq!(result.unwrap(), 5);
            }
            Step::Call(request, state) => {
                assert!(status.code() >= 10);
                assert!(matches!(request, Request::LastError { reader: r } if r == reader));
                assert!(!state.accepts(&Reply::Status(status)));
                let (result, _) = feed(
                    Step::Call(request, state),
                    vec![Reply::Message(Some("why".to_string()))],
                );
                assert_eq!(result.unwrap_err().to_string(), "why");
            }
        }
    }
}

#[test]
fn read_callback_answers() {
    assert_eq!(feed(cb_read(true, 0), vec![]), (0, 0));
    assert_eq!(feed(cb_read(false, 0), vec![]), (0, 0));
    assert_eq!(feed(cb_read(true, 8), vec![]), (usize::MAX, 0));
    assert_eq!(feed(cb_read(false, 8), vec![Reply::SourceCount(Some(3))]), (3, 1));
    assert_eq!(feed(cb_read(false, 8), vec![Reply::SourceCount(None)]), (usize::MAX, 1));
    assert_eq!(feed(cb_read(false, 8), vec![Reply::Panicked]), (usize::MAX, 1));
}

#[test]
fn seek_callback_answers() {
    for (offset, origin, expected) in [
        (5, 0, SeekFrom::Start(5)),
        (-5, 1, SeekFrom::Current(-5)),
        (-5, 2, SeekFrom::End(-5)),
    ] {
        let step = cb_seek(offset, origin);
        assert!(matches!(&step, Step::Call(Request::SourceSeek { pos }, _) if *pos == expected));
        assert_eq!(feed(step, vec![Reply::SourceOffset(Some(40))]), (40, 1));
        assert_eq!(feed(cb_seek(offset, origin), vec![Reply::SourceOffset(None)]), (u64::MAX, 1));
        assert_eq!(feed(cb_seek(offset, origin), vec![Reply::Panicked]), (u64::MAX, 1));
    }
    assert_eq!(feed(cb_seek(-1, 0), vec![]), (u64::MAX, 0));
    assert_eq!(feed(cb_seek(0, 3), vec![]), (u64::MAX, 0));
    assert_eq!(feed(cb_seek(0, -1), vec![]), (u64::MAX, 0));
}

#[test]
fn size_callback_answers() {
    let at = |n| Reply::SourceOffset(Some(n));
    let failed = || Reply::SourceOffset(None);
    assert_eq!(feed(cb_get_size(), vec![at(7), at(90), at(7)]), (90, 3));
    assert_eq!(feed(cb_get_size(), vec![failed()]), (u64::MAX, 1));
    assert_eq!(feed(cb_get_size(), vec![at(7), failed(), at(7)]), (u64::MAX, 3));
    assert_eq!(feed(cb_get_size(), vec![at(7), at(90), failed()]), (u64::MAX, 3));
    assert_eq!(feed(cb_get_size(), vec![Reply::Panicked]), (u64::MAX, 1));
    assert_eq!(feed(cb_get_size(), vec![at(7), Reply::Panicked]), (u64::MAX, 2));
    assert_eq!(feed(cb_get_size(), vec![at(7), at(90), Reply::Panicked]), (u64::MAX, 3));

    match (SizeCallback::Measuring { current: 7 }).resume(failed()) {
        Step::Call(Request::SourceSeek { pos }, _) => assert_eq!(pos, SeekFrom::Start(7)),
        _ => panic!("the source has to go back"),
    }
}

#[test]
fn clone_callback_answers() {
    assert_eq!(feed(cb_clone(), vec![Reply::Cloned(64)]), (64, 1));
    assert_eq!(feed(cb_clone(), vec![Reply::Panicked]), (0, 1));
}

#[test]
fn write_callback_answers() {
    assert_eq!(feed(write_cb(false, 0), vec![]), (0, 0));
    assert_eq!(feed(write_cb(true, 6), vec![]), (0, 0));
    assert_eq!(feed(write_cb(false, 6), vec![Reply::Written(true)]), (6, 1));
    assert_eq!(feed(write_cb(false, 6), vec![Reply::Written(false)]), (0, 1));
    assert_eq!(feed(write_cb(false, 6), vec![Reply::Panicked]), (0, 1));
}
