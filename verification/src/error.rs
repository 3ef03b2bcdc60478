//! Errors of the reader API and how native statuses turn into them.

use vstd::prelude::*;
use vstd::std_specs::convert::FromSpecImpl;

use crate::sys::rgz_status_t;
use crate::text::{is_blank, join};

verus! {

/// Error returned by the safe `rapidgzip` API.
#[derive(Debug)]
pub enum Error {
    Io(String),
    Data(String),
    InvalidArgument(String),
    Unsupported(String),
    Seek(String),
    Index(String),
    Internal(String),
    Eof,
    Unknown(rgz_status_t),
}

/// What an [`Error`] says: its variant and the characters of its message.
pub enum ErrorView {
    Io(Seq<char>),
    Data(Seq<char>),
    InvalidArgument(Seq<char>),
    Unsupported(Seq<char>),
    Seek(Seq<char>),
    Index(Seq<char>),
    Internal(Seq<char>),
    Eof,
    Unknown(rgz_status_t),
}

impl View for Error {
    type V = ErrorView;

    open spec fn view(&self) -> ErrorView {
        match *self {
            Error::Io(message) => ErrorView::Io(message@),
            Error::Data(message) => ErrorView::Data(message@),
            Error::InvalidArgument(message) => ErrorView::InvalidArgument(message@),
            Error::Unsupported(message) => ErrorView::Unsupported(message@),
            Error::Seek(message) => ErrorView::Seek(message@),
            Error::Index(message) => ErrorView::Index(message@),
            Error::Internal(message) => ErrorView::Internal(message@),
            Error::Eof => ErrorView::Eof,
            Error::Unknown(status) => ErrorView::Unknown(status),
        }
    }
}

/// The characters of an optional text.
pub open spec fn text_view(text: Option<String>) -> Option<Seq<char>> {
    match text {
        Some(t) => Some(t@),
        None => None,
    }
}

/// The text used for a status that comes without a message of its own.
pub open spec fn default_status_text(status: rgz_status_t) -> Seq<char> {
    match status {
        rgz_status_t::RGZ_STATUS_OK => "Success status inappropriately converted to error"@,
        rgz_status_t::RGZ_STATUS_EOF => "EOF reached"@,
        rgz_status_t::RGZ_STATUS_INVALID_ARGUMENT => "Invalid argument"@,
        rgz_status_t::RGZ_STATUS_IO_ERROR => "I/O error"@,
        rgz_status_t::RGZ_STATUS_DATA_ERROR => "Gzip data error"@,
        rgz_status_t::RGZ_STATUS_UNSUPPORTED => "Unsupported operation"@,
        rgz_status_t::RGZ_STATUS_OUT_OF_MEMORY => "Out of memory"@,
        rgz_status_t::RGZ_STATUS_INTERNAL_ERROR => "Internal error"@,
        rgz_status_t::RGZ_STATUS_SEEK_ERROR => "Seek error"@,
        rgz_status_t::RGZ_STATUS_INDEX_ERROR => "Index error"@,
        rgz_status_t::RGZ_STATUS_STATE_ERROR => "Invalid reader state"@,
        rgz_status_t::RGZ_STATUS_NOT_IMPLEMENTED => "Not implemented"@,
    }
}

/// The message that an error for `status` carries: the given one, unless it is
/// missing or blank.
pub open spec fn status_text(status: rgz_status_t, message: Option<Seq<char>>) -> Seq<char> {
    match message {
        Some(m) => if crate::text::blank(m) {
            default_status_text(status)
        } else {
            m
        },
        None => default_status_text(status),
    }
}

/// The error that reports `status` with `text` as its message.
pub open spec fn status_error(status: rgz_status_t, text: Seq<char>) -> ErrorView {
    match status {
        rgz_status_t::RGZ_STATUS_EOF => ErrorView::Eof,
        rgz_status_t::RGZ_STATUS_INVALID_ARGUMENT => ErrorView::InvalidArgument(text),
        rgz_status_t::RGZ_STATUS_IO_ERROR => ErrorView::Io(text),
        rgz_status_t::RGZ_STATUS_DATA_ERROR => ErrorView::Data(text),
        rgz_status_t::RGZ_STATUS_UNSUPPORTED => ErrorView::Unsupported(text),
        rgz_status_t::RGZ_STATUS_NOT_IMPLEMENTED => ErrorView::Unsupported(text),
        rgz_status_t::RGZ_STATUS_SEEK_ERROR => ErrorView::Seek(text),
        rgz_status_t::RGZ_STATUS_INDEX_ERROR => ErrorView::Index(text),
        rgz_status_t::RGZ_STATUS_OK => ErrorView::Internal(text),
        rgz_status_t::RGZ_STATUS_OUT_OF_MEMORY => ErrorView::Internal(text),
        rgz_status_t::RGZ_STATUS_INTERNAL_ERROR => ErrorView::Internal(text),
        rgz_status_t::RGZ_STATUS_STATE_ERROR => ErrorView::Internal(text),
    }
}

/// The error for a native status and the message that the native layer left, if
/// any.
pub open spec fn error_for(status: rgz_status_t, message: Option<Seq<char>>) -> ErrorView {
    status_error(status, status_text(status, message))
}

/// What the thread-wide native error text is taken to say: a blank text counts
/// as none.
pub open spec fn global_error_text(raw: Option<Seq<char>>) -> Option<Seq<char>> {
    match raw {
        Some(m) => if crate::text::blank(m) {
            None
        } else {
            Some(m)
        },
        None => None,
    }
}

/// What a reader's native error text is taken to say.
pub open spec fn reader_error_text(raw: Option<Seq<char>>) -> Seq<char> {
    match raw {
        Some(m) => m,
        None => "Unknown error"@,
    }
}

/// The name under which a status is printed.
pub open spec fn status_name(status: rgz_status_t) -> Seq<char> {
    match status {
        rgz_status_t::RGZ_STATUS_OK => "RGZ_STATUS_OK"@,
        rgz_status_t::RGZ_STATUS_EOF => "RGZ_STATUS_EOF"@,
        rgz_status_t::RGZ_STATUS_INVALID_ARGUMENT => "RGZ_STATUS_INVALID_ARGUMENT"@,
        rgz_status_t::RGZ_STATUS_IO_ERROR => "RGZ_STATUS_IO_ERROR"@,
        rgz_status_t::RGZ_STATUS_DATA_ERROR => "RGZ_STATUS_DATA_ERROR"@,
        rgz_status_t::RGZ_STATUS_UNSUPPORTED => "RGZ_STATUS_UNSUPPORTED"@,
        rgz_status_t::RGZ_STATUS_OUT_OF_MEMORY => "RGZ_STATUS_OUT_OF_MEMORY"@,
        rgz_status_t::RGZ_STATUS_INTERNAL_ERROR => "RGZ_STATUS_INTERNAL_ERROR"@,
        rgz_status_t::RGZ_STATUS_SEEK_ERROR => "RGZ_STATUS_SEEK_ERROR"@,
        rgz_status_t::RGZ_STATUS_INDEX_ERROR => "RGZ_STATUS_INDEX_ERROR"@,
        rgz_status_t::RGZ_STATUS_STATE_ERROR => "RGZ_STATUS_STATE_ERROR"@,
        rgz_status_t::RGZ_STATUS_NOT_IMPLEMENTED => "RGZ_STATUS_NOT_IMPLEMENTED"@,
    }
}

/// The text that an error is printed as.
pub open spec fn error_text(error: ErrorView) -> Seq<char> {
    match error {
        ErrorView::Io(message) => "IO error: "@ + message,
        ErrorView::Data(message) => "Gzip data error: "@ + message,
        ErrorView::InvalidArgument(message) => "Invalid argument: "@ + message,
        ErrorView::Unsupported(message) => "Operation not supported: "@ + message,
        ErrorView::Seek(message) => "Seek error: "@ + message,
        ErrorView::Index(message) => "Index error: "@ + message,
        ErrorView::Internal(message) => "Internal error: "@ + message,
        ErrorView::Eof => "EOF reached"@,
        ErrorView::Unknown(status) => "Unknown error with status "@ + status_name(status),
    }
}

/// Returns the text used for a status that comes without a message of its own.
pub fn default_status_message(status: rgz_status_t) -> (message: &'static str)
    ensures
        message@ == default_status_text(status),
{
    match status {
        rgz_status_t::RGZ_STATUS_OK => "Success status inappropriately converted to error",
        rgz_status_t::RGZ_STATUS_EOF => "EOF reached",
        rgz_status_t::RGZ_STATUS_INVALID_ARGUMENT => "Invalid argument",
        rgz_status_t::RGZ_STATUS_IO_ERROR => "I/O error",
        rgz_status_t::RGZ_STATUS_DATA_ERROR => "Gzip data error",
        rgz_status_t::RGZ_STATUS_UNSUPPORTED => "Unsupported operation",
        rgz_status_t::RGZ_STATUS_OUT_OF_MEMORY => "Out of memory",
        rgz_status_t::RGZ_STATUS_INTERNAL_ERROR => "Internal error",
        rgz_status_t::RGZ_STATUS_SEEK_ERROR => "Seek error",
        rgz_status_t::RGZ_STATUS_INDEX_ERROR => "Index error",
        rgz_status_t::RGZ_STATUS_STATE_ERROR => "Invalid reader state",
        rgz_status_t::RGZ_STATUS_NOT_IMPLEMENTED => "Not implemented",
    }
}

/// Returns the name under which a status is printed.
fn status_name_text(status: rgz_status_t) -> (name: &'static str)
    ensures
        name@ == status_name(status),
{
    match status {
        rgz_status_t::RGZ_STATUS_OK => "RGZ_STATUS_OK",
        rgz_status_t::RGZ_STATUS_EOF => "RGZ_STATUS_EOF",
        rgz_status_t::RGZ_STATUS_INVALID_ARGUMENT => "RGZ_STATUS_INVALID_ARGUMENT",
        rgz_status_t::RGZ_STATUS_IO_ERROR => "RGZ_STATUS_IO_ERROR",
        rgz_status_t::RGZ_STATUS_DATA_ERROR => "RGZ_STATUS_DATA_ERROR",
        rgz_status_t::RGZ_STATUS_UNSUPPORTED => "RGZ_STATUS_UNSUPPORTED",
        rgz_status_t::RGZ_STATUS_OUT_OF_MEMORY => "RGZ_STATUS_OUT_OF_MEMORY",
        rgz_status_t::RGZ_STATUS_INTERNAL_ERROR => "RGZ_STATUS_INTERNAL_ERROR",
        rgz_status_t::RGZ_STATUS_SEEK_ERROR => "RGZ_STATUS_SEEK_ERROR",
        rgz_status_t::RGZ_STATUS_INDEX_ERROR => "RGZ_STATUS_INDEX_ERROR",
        rgz_status_t::RGZ_STATUS_STATE_ERROR => "RGZ_STATUS_STATE_ERROR",
        rgz_status_t::RGZ_STATUS_NOT_IMPLEMENTED => "RGZ_STATUS_NOT_IMPLEMENTED",
    }
}

impl Error {
    /// Builds the error for a native status. A missing or blank message is
    /// replaced by the default text of the status.
    pub fn from_status_message(status: rgz_status_t, message: Option<String>) -> (error: Error)
        ensures
            error@ == error_for(status, text_view(message)),
    {
        let text: String = match message {
            Some(m) => if is_blank(m.as_str()) {
                default_status_message(status).to_owned()
            } else {
                m
            },
            None => default_status_message(status).to_owned(),
        };
        match status {
            rgz_status_t::RGZ_STATUS_OK => Error::Internal(text),
            rgz_status_t::RGZ_STATUS_EOF => Error::Eof,
            rgz_status_t::RGZ_STATUS_INVALID_ARGUMENT => Error::InvalidArgument(text),
            rgz_status_t::RGZ_STATUS_IO_ERROR => Error::Io(text),
            rgz_status_t::RGZ_STATUS_DATA_ERROR => Error::Data(text),
            rgz_status_t::RGZ_STATUS_UNSUPPORTED => Error::Unsupported(text),
            rgz_status_t::RGZ_STATUS_OUT_OF_MEMORY => Error::Internal(text),
            rgz_status_t::RGZ_STATUS_INTERNAL_ERROR => Error::Internal(text),
            rgz_status_t::RGZ_STATUS_SEEK_ERROR => Error::Seek(text),
            rgz_status_t::RGZ_STATUS_INDEX_ERROR => Error::Index(text),
            rgz_status_t::RGZ_STATUS_STATE_ERROR => Error::Internal(text),
            rgz_status_t::RGZ_STATUS_NOT_IMPLEMENTED => Error::Unsupported(text),
        }
    }

    /// Returns the text that the error is printed as.
    pub fn to_string(&self) -> (text: String)
        ensures
            text@ == error_text(self@),
    {
        match self {
            Error::Io(message) => join("IO error: ", message.as_str()),
            Error::Data(message) => join("Gzip data error: ", message.as_str()),
            Error::InvalidArgument(message) => join("Invalid argument: ", message.as_str()),
            Error::Unsupported(message) => join("Operation not supported: ", message.as_str()),
            Error::Seek(message) => join("Seek error: ", message.as_str()),
            Error::Index(message) => join("Index error: ", message.as_str()),
            Error::Internal(message) => join("Internal error: ", message.as_str()),
            Error::Eof => "EOF reached".to_owned(),
            Error::Unknown(status) => join("Unknown error with status ", status_name_text(*status)),
        }
    }
}

impl From<rgz_status_t> for Error {
    /// The error for a status without a message.
    fn from(status: rgz_status_t) -> (error: Error)
        ensures
            error@ == error_for(status, None),
    {
        Error::from_status_message(status, None)
    }
}

impl FromSpecImpl<rgz_status_t> for Error {
    open spec fn obeys_from_spec() -> bool {
        false
    }

    open spec fn from_spec(status: rgz_status_t) -> Error {
        arbitrary()
    }
}

/// Interprets the thread-wide native error text: a null pointer or a blank text
/// is no message.
pub fn last_global_error(raw: Option<String>) -> (message: Option<String>)
    ensures
        text_view(message) == global_error_text(text_view(raw)),
{
    match raw {
        Some(m) => if is_blank(m.as_str()) {
            None
        } else {
            Some(m)
        },
        None => None,
    }
}

/// Interprets a reader's native error text: a null pointer reads as
/// `Unknown error`.
pub fn get_last_error(raw: Option<String>) -> (message: String)
    ensures
        message@ == reader_error_text(text_view(raw)),
{
    match raw {
        Some(m) => m,
        None => "Unknown error".to_owned(),
    }
}

/// Law: dropping a blank thread-wide text before it is used does not change the
/// error, since an error replaces a blank message anyway.
pub proof fn law_blank_global_text_is_redundant(status: rgz_status_t, raw: Option<Seq<char>>)
    ensures
        error_for(status, global_error_text(raw)) == error_for(status, raw),
{
}

/// Law: whatever the native layer says, an error that carries a message never
/// carries a blank one.
pub proof fn law_error_message_is_never_blank(status: rgz_status_t, message: Option<Seq<char>>)
    ensures
        !crate::text::blank(status_text(status, message)),
{
    reveal_strlit("Success status inappropriately converted to error");
    reveal_strlit("EOF reached");
    reveal_strlit("Invalid argument");
    reveal_strlit("I/O error");
    reveal_strlit("Gzip data error");
    reveal_strlit("Unsupported operation");
    reveal_strlit("Out of memory");
    reveal_strlit("Internal error");
    reveal_strlit("Seek error");
    reveal_strlit("Index error");
    reveal_strlit("Invalid reader state");
    reveal_strlit("Not implemented");
    let text = default_status_text(status);
    assert(!crate::text::white_space(text[0]));
    assert(!crate::text::blank(text));
}

/// Law: a message that says something is carried as it is, whatever it says; one that
/// is missing or blank is replaced by a text that depends on the status alone.
pub proof fn law_message_is_carried(status: rgz_status_t, message: Seq<char>)
    ensures
        !crate::text::blank(message) ==> status_text(status, Some(message)) == message,
        crate::text::blank(message) ==> status_text(status, Some(message)) == status_text(
            status,
            None,
        ),
        status_text(status, None) == match status {
            rgz_status_t::RGZ_STATUS_OK => "Success status inappropriately converted to error"@,
            rgz_status_t::RGZ_STATUS_EOF => "EOF reached"@,
            rgz_status_t::RGZ_STATUS_INVALID_ARGUMENT => "Invalid argument"@,
            rgz_status_t::RGZ_STATUS_IO_ERROR => "I/O error"@,
            rgz_status_t::RGZ_STATUS_DATA_ERROR => "Gzip data error"@,
            rgz_status_t::RGZ_STATUS_UNSUPPORTED => "Unsupported operation"@,
            rgz_status_t::RGZ_STATUS_OUT_OF_MEMORY => "Out of memory"@,
            rgz_status_t::RGZ_STATUS_INTERNAL_ERROR => "Internal error"@,
            rgz_status_t::RGZ_STATUS_SEEK_ERROR => "Seek error"@,
            rgz_status_t::RGZ_STATUS_INDEX_ERROR => "Index error"@,
            rgz_status_t::RGZ_STATUS_STATE_ERROR => "Invalid reader state"@,
            rgz_status_t::RGZ_STATUS_NOT_IMPLEMENTED => "Not implemented"@,
        },
{
}

/// The text that an error carries, if it carries one.
pub open spec fn carried_text(error: ErrorView) -> Option<Seq<char>> {
    match error {
        ErrorView::Io(text) => Some(text),
        ErrorView::Data(text) => Some(text),
        ErrorView::InvalidArgument(text) => Some(text),
        ErrorView::Unsupported(text) => Some(text),
        ErrorView::Seek(text) => Some(text),
        ErrorView::Index(text) => Some(text),
        ErrorView::Internal(text) => Some(text),
        ErrorView::Eof => None,
        ErrorView::Unknown(_) => None,
    }
}

/// Law: the status alone decides what sort of error it is, and a status that has no
/// sort of its own is an internal error; the message decides the text of the error
/// and nothing else.
pub proof fn law_status_decides_the_sort(status: rgz_status_t, message: Option<Seq<char>>)
    ensures
        ({
            let error = error_for(status, message);
            &&& error is Eof <==> status == rgz_status_t::RGZ_STATUS_EOF
            &&& error is Io <==> status == rgz_status_t::RGZ_STATUS_IO_ERROR
            &&& error is Data <==> status == rgz_status_t::RGZ_STATUS_DATA_ERROR
            &&& error is Seek <==> status == rgz_status_t::RGZ_STATUS_SEEK_ERROR
            &&& error is Index <==> status == rgz_status_t::RGZ_STATUS_INDEX_ERROR
            &&& error is InvalidArgument <==> status == rgz_status_t::RGZ_STATUS_INVALID_ARGUMENT
            &&& error is Unsupported <==> status == rgz_status_t::RGZ_STATUS_UNSUPPORTED || status
                == rgz_status_t::RGZ_STATUS_NOT_IMPLEMENTED
            &&& error is Internal <==> status == rgz_status_t::RGZ_STATUS_OK || status
                == rgz_status_t::RGZ_STATUS_OUT_OF_MEMORY || status
                == rgz_status_t::RGZ_STATUS_INTERNAL_ERROR || status
                == rgz_status_t::RGZ_STATUS_STATE_ERROR
            &&& !(error is Unknown)
            &&& !(error is Eof) ==> carried_text(error) == Some(status_text(status, message))
        }),
{
}

/// Law: the texts that the native layer leaves are taken as they are. A reader's text
/// is kept even if it is blank, and a missing one reads as unknown; a thread-wide text
/// is kept unless it is blank.
pub proof fn law_native_texts_are_kept(text: Seq<char>)
    ensures
        reader_error_text(Some(text)) == text,
        reader_error_text(None) == "Unknown error"@,
        crate::text::blank(text) ==> global_error_text(Some(text)) is None,
        !crate::text::blank(text) ==> global_error_text(Some(text)) == Some(text),
        global_error_text(None) is None,
{
}

/// Law: an error is printed as its sort and then the text that it carries, in full.
pub proof fn law_error_is_printed_in_full(text: Seq<char>, status: rgz_status_t)
    ensures
        error_text(ErrorView::Io(text)) == "IO error: "@ + text,
        error_text(ErrorView::Data(text)) == "Gzip data error: "@ + text,
        error_text(ErrorView::InvalidArgument(text)) == "Invalid argument: "@ + text,
        error_text(ErrorView::Unsupported(text)) == "Operation not supported: "@ + text,
        error_text(ErrorView::Seek(text)) == "Seek error: "@ + text,
        error_text(ErrorView::Index(text)) == "Index error: "@ + text,
        error_text(ErrorView::Internal(text)) == "Internal error: "@ + text,
        error_text(ErrorView::Eof) == "EOF reached"@,
        error_text(ErrorView::Unknown(status)) == "Unknown error with status "@ + match status {
            rgz_status_t::RGZ_STATUS_OK => "RGZ_STATUS_OK"@,
            rgz_status_t::RGZ_STATUS_EOF => "RGZ_STATUS_EOF"@,
            rgz_status_t::RGZ_STATUS_INVALID_ARGUMENT => "RGZ_STATUS_INVALID_ARGUMENT"@,
            rgz_status_t::RGZ_STATUS_IO_ERROR => "RGZ_STATUS_IO_ERROR"@,
            rgz_status_t::RGZ_STATUS_DATA_ERROR => "RGZ_STATUS_DATA_ERROR"@,
            rgz_status_t::RGZ_STATUS_UNSUPPORTED => "RGZ_STATUS_UNSUPPORTED"@,
            rgz_status_t::RGZ_STATUS_OUT_OF_MEMORY => "RGZ_STATUS_OUT_OF_MEMORY"@,
            rgz_status_t::RGZ_STATUS_INTERNAL_ERROR => "RGZ_STATUS_INTERNAL_ERROR"@,
            rgz_status_t::RGZ_STATUS_SEEK_ERROR => "RGZ_STATUS_SEEK_ERROR"@,
            rgz_status_t::RGZ_STATUS_INDEX_ERROR => "RGZ_STATUS_INDEX_ERROR"@,
            rgz_status_t::RGZ_STATUS_STATE_ERROR => "RGZ_STATUS_STATE_ERROR"@,
            rgz_status_t::RGZ_STATUS_NOT_IMPLEMENTED => "RGZ_STATUS_NOT_IMPLEMENTED"@,
        },
{
}

/// Law: what is proved of an error is proved of the very error that the caller gets,
/// and an optional text shows its characters.
pub proof fn law_errors_are_shown_as_they_are(error: Error, text: String)
    ensures
        match error {
            Error::Io(message) => error@ == ErrorView::Io(message@),
            Error::Data(message) => error@ == ErrorView::Data(message@),
            Error::InvalidArgument(message) => error@ == ErrorView::InvalidArgument(message@),
            Error::Unsupported(message) => error@ == ErrorView::Unsupported(message@),
            Error::Seek(message) => error@ == ErrorView::Seek(message@),
            Error::Index(message) => error@ == ErrorView::Index(message@),
            Error::Internal(message) => error@ == ErrorView::Internal(message@),
            Error::Eof => error@ == ErrorView::Eof,
            Error::Unknown(status) => error@ == ErrorView::Unknown(status),
        },
        text_view(Some(text)) == Some(text@),
        text_view(None) is None,
{
}

} // verus!
