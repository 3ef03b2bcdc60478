//! What an index export does to the files of a disk.
//!
//! How a file system answers, and when the native layer says that it wrote an index,
//! is not for this library to say. The laws here take it as a premise: [`Disk`] and
//! [`disk_answers`] say what it means that files are there, that nobody else changes
//! them meanwhile, and that calls which succeed do what they are for. The laws say
//! what becomes of the files then.

use vstd::prelude::*;

use crate::callbacks::{write_callback_step, WriteCallback};
use crate::index_export::{
    create_temp, export_call_succeeded, export_step, export_target, found_entry, inspect_calls,
    law_export_call_by_call, law_export_outcome, law_export_succeeds_if_its_calls_do,
    lemma_whole_export, locate_step, place_calls, target_calls, target_mode, temp_dir, Exporting,
};
use crate::protocol::{calls, fitting, run, ModeReportView, ReplyView, RequestView, StepView};
use crate::sys::{rgz_reader_t, rgz_status_t};

verus! {

/// A file: its permission bits and what it holds.
pub struct FileView {
    pub bits: u32,
    pub data: Seq<u8>,
}

/// The files of a disk by their resolved paths, and the temporary file of the
/// export, if there is one.
pub struct Disk {
    pub files: Map<Seq<u8>, FileView>,
    pub temp: Option<FileView>,
}

/// The permission bits among mode bits: those for the owner, the group and others,
/// and the three special ones.
pub open spec fn permission_bits(mode: u32) -> u32 {
    mode & 0o7777
}

/// Whether the temporary file that is as `before` answers a call on behalf of a
/// callback with `reply` and is as `after` then, where the callback was given the
/// bytes `chunk`. All bytes that were written were added at the end; of a write that
/// failed nothing is said.
pub open spec fn write_answers(
    chunk: Seq<u8>,
    before: FileView,
    request: RequestView,
    reply: ReplyView,
    after: FileView,
) -> bool {
    request is WriteTemp && reply == ReplyView::Written(true) ==> after == (FileView {
        data: before.data + chunk,
        ..before
    })
}

/// A callback that takes exported index data: the bytes it was given, whether it was
/// given a null buffer for them, the replies to its calls, and the temporary file
/// before, between and after these.
pub struct WriteRun {
    pub chunk: Seq<u8>,
    pub buffer_is_null: bool,
    pub replies: Seq<ReplyView>,
    pub states: Seq<FileView>,
}

impl WriteRun {
    /// The temporary file before the callback.
    pub open spec fn before(self) -> FileView {
        self.states.first()
    }

    /// The temporary file after the callback.
    pub open spec fn after(self) -> FileView {
        self.states.last()
    }

    /// The first move of the callback.
    pub open spec fn start(self) -> StepView<WriteCallback, usize> {
        write_callback_step(self.buffer_is_null, self.chunk.len() as usize)
    }

    /// Whether the callback is over, and the temporary file answered at every call.
    pub open spec fn over(self) -> bool {
        let made = calls::<WriteCallback>(self.start(), self.replies);
        &&& self.chunk.len() <= usize::MAX
        &&& fitting::<WriteCallback>(self.start(), self.replies)
        &&& run::<WriteCallback>(self.start(), self.replies) is Done
        &&& self.states.len() == made.len() + 1
        &&& forall|i: int|
            0 <= i < made.len() ==> write_answers(
                self.chunk,
                self.states[i],
                #[trigger] made[i],
                self.replies[i],
                self.states[i + 1],
            )
    }

    /// Whether the callback answered that it took all the bytes it was given.
    pub open spec fn took_all(self) -> bool {
        run::<WriteCallback>(self.start(), self.replies)->Done_0 == self.chunk.len()
    }
}

/// Whether the callbacks `writes`, each of which took all its bytes and went on with
/// the file that the one before it left, took the temporary file from `before` to
/// `after`.
pub open spec fn written_by(writes: Seq<WriteRun>, before: FileView, after: FileView) -> bool {
    &&& forall|i: int|
        0 <= i < writes.len() ==> (#[trigger] writes[i]).over() && writes[i].took_all()
    &&& forall|i: int|
        0 < i < writes.len() ==> (#[trigger] writes[i]).before() == writes[i - 1].after()
    &&& if writes.len() == 0 {
        after == before
    } else {
        writes.first().before() == before && writes.last().after() == after
    }
}

/// The bytes that callbacks were given, one after the other.
pub open spec fn all_chunks(writes: Seq<WriteRun>) -> Seq<u8>
    decreases writes.len(),
{
    if writes.len() == 0 {
        Seq::empty()
    } else {
        all_chunks(writes.drop_last()) + writes.last().chunk
    }
}

/// Law: a callback that answers that it took all its bytes has added exactly these
/// to the temporary file, and nothing for no bytes. One that took some was given a
/// buffer, and its write succeeded.
pub proof fn law_taken_data_is_written(write: WriteRun)
    requires
        write.over(),
        write.took_all(),
    ensures
        write.after() == (FileView { data: write.before().data + write.chunk, ..write.before() }),
        write.chunk.len() > 0 ==> !write.buffer_is_null && write.replies[0]
            == ReplyView::Written(true),
{
    reveal_with_fuel(run, 2);
    reveal_with_fuel(calls, 2);
    reveal_with_fuel(fitting, 2);
    let made = calls::<WriteCallback>(write.start(), write.replies);
    if write.chunk.len() > 0 {
        assert(made =~= seq![RequestView::WriteTemp { size: write.chunk.len() as usize }]);
        assert(made[0] is WriteTemp);
    } else {
        assert(write.before().data + write.chunk =~= write.before().data);
    }
}

/// Law: exported data arrives whole and in order. If every callback answered that it
/// took all its bytes, the temporary file holds what it held before and then the
/// bytes of all callbacks in their order, with nothing left out and nothing else.
pub proof fn law_chunks_add_up(writes: Seq<WriteRun>, before: FileView, after: FileView)
    requires
        written_by(writes, before, after),
    ensures
        after == (FileView { data: before.data + all_chunks(writes), ..before }),
    decreases writes.len(),
{
    if writes.len() == 0 {
        assert(before.data + all_chunks(writes) =~= before.data);
    } else {
        let earlier = writes.drop_last();
        let last = writes.last();
        assert(forall|i: int| 0 <= i < earlier.len() ==> earlier[i] == writes[i]);
        assert(writes[writes.len() - 1].over());
        law_taken_data_is_written(last);
        if earlier.len() > 0 {
            assert(writes[writes.len() - 1].before() == writes[writes.len() - 2].after());
        }
        law_chunks_add_up(earlier, before, last.before());
        assert(before.data + all_chunks(earlier) + last.chunk =~= before.data + all_chunks(writes));
    }
}

/// Whether a disk that is as `before` answers a call with `reply` and is as `after`
/// then, where `writes` are the callbacks that the native layer makes to write the
/// index. It says that it wrote the index only if each of these took all its bytes. A
/// temporary file is empty at first. A call that fails leaves the files alone; what
/// it does to the temporary file is left open, as is what the calls that look at
/// paths find.
pub open spec fn disk_answers(
    writes: Seq<WriteRun>,
    before: Disk,
    request: RequestView,
    reply: ReplyView,
    after: Disk,
) -> bool {
    match (request, reply) {
        (RequestView::FileMode { path }, ReplyView::Mode(report)) => {
            &&& after == before
            &&& report matches ModeReportView::Bits(mode) ==> before.files.contains_key(path)
                && permission_bits(mode) == before.files[path].bits
            &&& report is Missing ==> !before.files.contains_key(path)
        },
        (RequestView::CreateTemp { .. }, ReplyView::Outcome(Ok(_))) => {
            &&& after.files == before.files
            &&& after.temp is Some
            &&& after.temp->0.data.len() == 0
        },
        (RequestView::ExportIndex { .. }, ReplyView::Status(status)) => {
            &&& after.files == before.files
            &&& status == rgz_status_t::RGZ_STATUS_OK && before.temp is Some ==> after.temp is Some
                && written_by(writes, before.temp->0, after.temp->0)
        },
        (RequestView::SetTempMode { mode }, ReplyView::Outcome(Ok(_))) => {
            &&& after.files == before.files
            &&& before.temp is Some ==> after.temp == Some(
                FileView { bits: permission_bits(mode), ..before.temp->0 },
            )
        },
        (RequestView::PersistTemp { path }, ReplyView::Outcome(Ok(_))) => {
            before.temp is Some ==> {
                &&& after.files == before.files.insert(path, before.temp->0)
                &&& after.temp is None
            }
        },
        (RequestView::DiscardTemp, _) => after == (Disk { temp: None, ..before }),
        (_, _) => after.files == before.files,
    }
}

/// Whether `disks` are the disk before the first call, between any two, and after
/// the last.
pub open spec fn disk_answered(
    writes: Seq<WriteRun>,
    made: Seq<RequestView>,
    replies: Seq<ReplyView>,
    disks: Seq<Disk>,
) -> bool {
    &&& disks.len() == made.len() + 1
    &&& forall|i: int|
        0 <= i < made.len() ==> disk_answers(
            writes,
            disks[i],
            #[trigger] made[i],
            replies[i],
            disks[i + 1],
        )
}

proof fn lemma_export_to_target(
    reader: rgz_reader_t,
    target: Seq<u8>,
    found: bool,
    writes: Seq<WriteRun>,
    replies: Seq<ReplyView>,
    disks: Seq<Disk>,
)
    requires
        fitting::<Exporting>(locate_step(reader, target, found), replies),
        run::<Exporting>(locate_step(reader, target, found), replies) is Done,
        disk_answered(
            writes,
            calls::<Exporting>(locate_step(reader, target, found), replies),
            replies,
            disks,
        ),
    ensures
        ({
            let before = disks.first();
            let after = disks.last();
            let report = replies[1]->Mode_0;
            match run::<Exporting>(locate_step(reader, target, found), replies)->Done_0 {
                Ok(_) => {
                    &&& after.files.contains_key(target)
                    &&& after.files == before.files.insert(target, after.files[target])
                    &&& after.files[target].data == all_chunks(writes)
                    &&& report is Bits ==> before.files.contains_key(target)
                        && after.files[target].bits == before.files[target].bits
                    &&& found && before.files.contains_key(target) ==> report is Bits
                        || report is Unavailable
                    &&& after.temp is None
                },
                Err(_) => after.files == before.files,
            }
        }),
{
    law_export_outcome(reader, target, found, replies);
    let made = calls::<Exporting>(locate_step(reader, target, found), replies);
    assert(made[0] == (RequestView::Parent { path: target }));
    assert(made[1] == (RequestView::FileMode { path: target }));
    if target_mode(found, replies[1]->Mode_0) is Ok {
        let mode = target_mode(found, replies[1]->Mode_0)->Ok_0;
        let prepare = inspect_calls(target).push(create_temp(temp_dir(replies[0]->Directory_0)));
        let place = place_calls(reader, target, mode);
        assert(made[2] == prepare[2]);
        if replies[2]->Outcome_0 is Ok {
            assert(made[3] == (RequestView::ExportIndex { reader }));
            if replies[3]->Status_0 != rgz_status_t::RGZ_STATUS_OK {
                assert(made[4] == (RequestView::LastError { reader }));
                assert(made[5] == RequestView::DiscardTemp);
            } else if mode is Some && replies[4]->Outcome_0 is Err {
                assert(made[4] == (RequestView::SetTempMode { mode: mode->0 }));
                assert(made[5] == RequestView::DiscardTemp);
            } else {
                let k = 2 + place.len() as int;
                let temp = disks[3].temp->0;
                law_chunks_add_up(writes, temp, disks[4].temp->0);
                assert(temp.data + all_chunks(writes) =~= all_chunks(writes));
                if mode is Some {
                    assert(made[4] == (RequestView::SetTempMode { mode: mode->0 }));
                }
                assert(made[k] == (RequestView::PersistTemp { path: target }));
                if replies[k]->Outcome_0 is Err {
                    assert(made[k + 1] == RequestView::DiscardTemp);
                }
            }
        }
    }
}

/// Law: an export changes one file or none. If it succeeds, the file that the path
/// resolved to, or the path itself where nothing was found, holds exactly what the
/// native layer wrote, no other file has changed, and no temporary file is left. If
/// the file's permission bits were read, it still has these; for a file that was
/// found, that is so on every platform that has such bits. If the export fails, no
/// file has changed.
pub proof fn law_export_on_disk(
    reader: rgz_reader_t,
    path: Seq<u8>,
    writes: Seq<WriteRun>,
    replies: Seq<ReplyView>,
    disks: Seq<Disk>,
)
    requires
        fitting::<Exporting>(export_step(reader, path), replies),
        run::<Exporting>(export_step(reader, path), replies) is Done,
        disk_answered(
            writes,
            calls::<Exporting>(export_step(reader, path), replies),
            replies,
            disks,
        ),
    ensures
        ({
            let target = export_target(path, replies);
            let before = disks.first();
            let after = disks.last();
            let report = replies[target_calls(replies) + 1]->Mode_0;
            match run::<Exporting>(export_step(reader, path), replies)->Done_0 {
                Ok(_) => {
                    &&& after.files.contains_key(target)
                    &&& after.files == before.files.insert(target, after.files[target])
                    &&& after.files[target].data == all_chunks(writes)
                    &&& report is Bits ==> before.files.contains_key(target)
                        && after.files[target].bits == before.files[target].bits
                    &&& found_entry(replies) && before.files.contains_key(target) ==> report is Bits
                        || report is Unavailable
                    &&& after.temp is None
                },
                Err(_) => after.files == before.files,
            }
        }),
{
    let skip = target_calls(replies);
    let target = export_target(path, replies);
    let rest = replies.skip(skip);
    let made = calls::<Exporting>(export_step(reader, path), replies);
    lemma_whole_export(reader, path, replies);
    assert(disk_answers(writes, disks[0], made[0], replies[0], disks[1]));
    if made == seq![RequestView::Probe { path }, RequestView::Canonicalize { path }] {
        assert(disk_answers(writes, disks[1], made[1], replies[1], disks[2]));
    } else {
        let later = calls::<Exporting>(locate_step(reader, target, found_entry(replies)), rest);
        let onward = disks.skip(skip);
        assert(disk_answers(writes, disks[skip - 1], made[skip - 1], replies[skip - 1], disks[skip]));
        assert forall|i: int| 0 <= i < later.len() implies disk_answers(
            writes,
            onward[i],
            #[trigger] later[i],
            rest[i],
            onward[i + 1],
        ) by {
            assert(made[i + skip] == later[i]);
            assert(rest[i] == replies[i + skip]);
        }
        lemma_export_to_target(reader, target, found_entry(replies), writes, rest, onward);
        law_export_outcome(reader, target, found_entry(replies), rest);
        assert(later.len() >= 2);
        assert(rest[1] == replies[skip + 1]);
    }
}

/// Law: an export whose every call succeeds puts the whole index in place: the file
/// that the path resolved to, or the path itself where nothing was found, holds exactly
/// what the native layer wrote, with the permission bits that it had if any were found,
/// whatever they are.
pub proof fn law_export_that_goes_well_replaces_the_file(
    reader: rgz_reader_t,
    path: Seq<u8>,
    writes: Seq<WriteRun>,
    replies: Seq<ReplyView>,
    disks: Seq<Disk>,
)
    requires
        fitting::<Exporting>(export_step(reader, path), replies),
        run::<Exporting>(export_step(reader, path), replies) is Done,
        disk_answered(
            writes,
            calls::<Exporting>(export_step(reader, path), replies),
            replies,
            disks,
        ),
        forall|i: int|
            0 <= i < calls::<Exporting>(export_step(reader, path), replies).len()
                ==> export_call_succeeded(#[trigger] replies[i]),
    ensures
        ({
            let found = replies[0] == ReplyView::Found(true);
            let target = if found {
                replies[1]->Resolved_0->Ok_0
            } else {
                path
            };
            let report = replies[if found {
                3int
            } else {
                2int
            }]->Mode_0;
            let before = disks.first().files;
            let after = disks.last().files;
            &&& run::<Exporting>(export_step(reader, path), replies)->Done_0 is Ok
            &&& after.contains_key(target)
            &&& after[target].data == all_chunks(writes)
            &&& report matches ModeReportView::Bits(mode) ==> after[target].bits
                == permission_bits(mode) && after[target].bits == before[target].bits
            &&& forall|other: Seq<u8>|
                other != target ==> after.contains_key(other) == before.contains_key(other)
                    && after[other] == before[other]
        }),
{
    law_export_succeeds_if_its_calls_do(reader, path, replies);
    law_export_on_disk(reader, path, writes, replies, disks);
    law_export_call_by_call(reader, path, replies);
    let made = calls::<Exporting>(export_step(reader, path), replies);
    let k = target_calls(replies) + 1;
    let target = export_target(path, replies);
    assert(made[k] == (RequestView::FileMode { path: target }));
    assert(disk_answers(writes, disks[k], made[k], replies[k], disks[k + 1]));
    assert(disk_answers(writes, disks[0], made[0], replies[0], disks[1]));
    assert(made[1] is Parent || made[1] is Canonicalize);
    assert(disk_answers(writes, disks[1], made[1], replies[1], disks[2]));
    assert(k == 3 ==> made[2] is Parent);
    assert(disk_answers(writes, disks[2], made[2], replies[2], disks[3]));
}

} // verus!
