//! What readers see of a stream that the native layer decodes without failure.
//!
//! How the native layer answers is not for this library to say. The laws here take
//! it as a premise: [`Stream`] and [`answers`] say what it means that a native
//! reader holds a payload, is at a position in it and answers accordingly, and
//! the laws say what reads, discards and seeks come to then.

use vstd::prelude::*;

use crate::index_export::{coherent, export_step, ExportPhase, ExportStepView, Exporting};
use crate::index_import::{import_file_step, import_step, ImportStepView, Importing};
use crate::io::{IoErrorView, SeekFrom};
use crate::laws::subject;
use crate::open::plain_table;
use crate::protocol::{
    calls, fitting, law_calls_are_answered, run, Behavior, ReplyView, RequestView, StepView,
};
use crate::seek::{seek_step, SeekStepView, Seeking};
use crate::sys::{rgz_reader_t, rgz_status_t, SourceKind};
use crate::transfer::{transfer_step, Transfer, TransferStepView};

verus! {

/// A stream as the caller of a reader sees it: the decompressed bytes, the
/// position in them, the buffer that the caller supplies for a read, and what
/// went to file descriptors so far.
pub struct Stream {
    pub payload: Seq<u8>,
    pub pos: int,
    pub buffer: Seq<u8>,
    pub written: Seq<u8>,
}

impl Stream {
    /// Whether the position lies in the stream, its end included.
    pub open spec fn well_formed(self) -> bool {
        0 <= self.pos <= self.payload.len()
    }

    /// The `count` bytes that follow the position.
    pub open spec fn ahead(self, count: int) -> Seq<u8> {
        self.payload.subrange(self.pos, self.pos + count)
    }

    /// All bytes that follow the position.
    pub open spec fn rest(self) -> Seq<u8> {
        self.payload.skip(self.pos)
    }

    /// Whether two streams hold the same bytes and are at the same position.
    pub open spec fn same_place(self, other: Stream) -> bool {
        self.payload == other.payload && self.pos == other.pos
    }
}

/// Whether a native read of up to `len` bytes may report `status` and `count`: it
/// succeeds or meets the end, gives no more than was asked for or is left, and
/// gives nothing only at the end.
pub open spec fn may_report(
    stream: Stream,
    len: usize,
    status: rgz_status_t,
    count: usize,
) -> bool {
    &&& status == rgz_status_t::RGZ_STATUS_OK || status == rgz_status_t::RGZ_STATUS_EOF
    &&& count <= len
    &&& stream.pos + count <= stream.payload.len()
    &&& count == 0 && len > 0 ==> stream.pos == stream.payload.len()
}

/// Whether the reader that holds the stream `before` answers a call with `reply`
/// and holds `after` then. A call on another reader does not touch it, nor does one
/// on the index that succeeds. Of seeks beyond the end, of calls on the index that
/// fail, and of closing and error texts, nothing is said.
pub open spec fn answers(
    reader: rgz_reader_t,
    before: Stream,
    request: RequestView,
    reply: ReplyView,
    after: Stream,
) -> bool {
    if subject(request) != Some(reader) {
        after == before
    } else {
        match (request, reply) {
            (RequestView::Read { len, .. }, ReplyView::Transferred { status, count }) => {
                &&& may_report(before, len, status, count)
                &&& after.buffer.len() == before.buffer.len()
                &&& after.buffer.take(count as int) == before.ahead(count as int)
                &&& after == (Stream { pos: before.pos + count, buffer: after.buffer, ..before })
            },
            (RequestView::ReadDiscard { len, .. }, ReplyView::Transferred { status, count }) => {
                &&& may_report(before, len, status, count)
                &&& after == (Stream { pos: before.pos + count, ..before })
            },
            (RequestView::ReadToFd { len, .. }, ReplyView::Transferred { status, count }) => {
                &&& may_report(before, len, status, count)
                &&& after == (Stream {
                    pos: before.pos + count,
                    written: before.written + before.ahead(count as int),
                    ..before
                })
            },
            (RequestView::Tell { .. }, ReplyView::Position { status, offset }) => {
                &&& status == rgz_status_t::RGZ_STATUS_OK
                &&& offset == before.pos
                &&& after == before
            },
            (RequestView::SeekTo { offset, .. }, ReplyView::Status(status)) => {
                offset <= before.payload.len() ==> {
                    &&& status == rgz_status_t::RGZ_STATUS_OK
                    &&& after == (Stream { pos: offset as int, ..before })
                }
            },
            (
                RequestView::ImportIndex { .. } | RequestView::ExportIndex { .. }
                | RequestView::SetKeepIndex { .. },
                ReplyView::Status(status),
            ) => status == rgz_status_t::RGZ_STATUS_OK ==> after == before,
            _ => true,
        }
    }
}

/// Whether `states` are the stream before the first call, between any two, and
/// after the last.
pub open spec fn answered(
    reader: rgz_reader_t,
    made: Seq<RequestView>,
    replies: Seq<ReplyView>,
    states: Seq<Stream>,
) -> bool {
    &&& states.len() == made.len() + 1
    &&& forall|i: int|
        0 <= i < made.len() ==> answers(
            reader,
            states[i],
            #[trigger] made[i],
            replies[i],
            states[i + 1],
        )
}

/// A transfer: how many bytes it asked for, the replies it was given, and the
/// stream before, between and after its calls.
pub struct TransferRun {
    pub len: usize,
    pub replies: Seq<ReplyView>,
    pub states: Seq<Stream>,
}

impl TransferRun {
    /// The stream before the transfer.
    pub open spec fn before(self) -> Stream {
        self.states.first()
    }

    /// The stream after the transfer.
    pub open spec fn after(self) -> Stream {
        self.states.last()
    }

    /// Whether the transfer began with `start`, was answered by a stream at every
    /// call and is over.
    pub open spec fn over(self, reader: rgz_reader_t, start: TransferStepView) -> bool {
        &&& fitting::<Transfer>(start, self.replies)
        &&& run::<Transfer>(start, self.replies) is Done
        &&& answered(reader, calls::<Transfer>(start, self.replies), self.replies, self.states)
        &&& self.before().well_formed()
    }

    /// Whether this is a read into a buffer of `len` bytes.
    pub open spec fn is_read(self, reader: rgz_reader_t) -> bool {
        &&& self.over(reader, read_start(reader, self.len))
        &&& self.before().buffer.len() == self.len
    }

    /// Whether this is a discard of up to `len` bytes.
    pub open spec fn is_discard(self, reader: rgz_reader_t) -> bool {
        self.over(reader, discard_start(reader, self.len))
    }

    /// How many bytes the stream moved on.
    pub open spec fn count(self) -> int {
        self.after().pos - self.before().pos
    }

    /// The bytes that a read put at the front of its buffer.
    pub open spec fn got(self) -> Seq<u8> {
        self.after().buffer.take(self.count())
    }
}

/// The first move of a read into a buffer of `len` bytes.
pub open spec fn read_start(reader: rgz_reader_t, len: usize) -> TransferStepView {
    transfer_step(reader, RequestView::Read { reader, len }, len)
}

/// The first move of a discard of up to `len` bytes.
pub open spec fn discard_start(reader: rgz_reader_t, len: usize) -> TransferStepView {
    transfer_step(reader, RequestView::ReadDiscard { reader, len }, len)
}

/// The first move of a transfer of up to `len` bytes into a file descriptor.
pub open spec fn fd_start(reader: rgz_reader_t, output_fd: i32, len: usize) -> TransferStepView {
    transfer_step(reader, RequestView::ReadToFd { reader, output_fd, len }, len)
}

/// What every transfer on a stream has in common: it succeeds with the number of
/// bytes that the stream moved on, which is no more than was asked for or is
/// left, and is zero for a request of some bytes only at the end. A request for no
/// bytes makes no call and changes nothing.
pub open spec fn moves_on(r: TransferRun, start: TransferStepView) -> bool {
    &&& run::<Transfer>(start, r.replies) == TransferStepView::Done(
        Ok::<usize, IoErrorView>(r.count() as usize),
    )
    &&& 0 <= r.count() <= r.len
    &&& r.after().well_formed()
    &&& r.after().payload == r.before().payload
    &&& r.count() == 0 && r.len > 0 ==> r.before().pos == r.before().payload.len()
    &&& r.len == 0 ==> calls::<Transfer>(start, r.replies).len() == 0 && r.after() == r.before()
}

/// Law: a read succeeds with as many bytes as it moves the stream on, at most as
/// many as fit the buffer, and the front of the buffer then holds exactly the
/// bytes that followed the position.
pub proof fn law_read_gives_what_follows(reader: rgz_reader_t, r: TransferRun)
    requires
        r.is_read(reader),
    ensures
        moves_on(r, read_start(reader, r.len)),
        r.got() == r.before().ahead(r.count()),
        r.after().written == r.before().written,
{
    lemma_transfer(reader, RequestView::Read { reader, len: r.len }, r);
    assert(r.got() == r.before().ahead(r.count()));
}

/// Law: a discard succeeds with as many bytes as it moves the stream on, and
/// leaves the caller's buffer and what was written alone.
pub proof fn law_discard_moves_on(reader: rgz_reader_t, r: TransferRun)
    requires
        r.is_discard(reader),
    ensures
        moves_on(r, discard_start(reader, r.len)),
        r.after() == (Stream { pos: r.after().pos, ..r.before() }),
{
    lemma_transfer(reader, RequestView::ReadDiscard { reader, len: r.len }, r);
}

/// Law: a transfer into a file descriptor succeeds with as many bytes as it moves
/// the stream on, and writes exactly the bytes that followed the position.
pub proof fn law_transfer_to_fd_writes_what_follows(
    reader: rgz_reader_t,
    output_fd: i32,
    r: TransferRun,
)
    requires
        r.over(reader, fd_start(reader, output_fd, r.len)),
    ensures
        moves_on(r, fd_start(reader, output_fd, r.len)),
        r.after().written == r.before().written + r.before().ahead(r.count()),
        r.after().buffer == r.before().buffer,
{
    lemma_transfer(reader, RequestView::ReadToFd { reader, output_fd, len: r.len }, r);
    assert(r.after().written == r.before().written + r.before().ahead(r.count()));
}

proof fn lemma_transfer(reader: rgz_reader_t, request: RequestView, r: TransferRun)
    requires
        ({
            ||| request == (RequestView::Read { reader, len: r.len })
            ||| request == (RequestView::ReadDiscard { reader, len: r.len })
            ||| request matches RequestView::ReadToFd { reader: q, len, .. } && q == reader && len
                == r.len
        }),
        r.over(reader, transfer_step(reader, request, r.len)),
    ensures
        moves_on(r, transfer_step(reader, request, r.len)),
        r.len > 0 ==> answers(reader, r.before(), request, r.replies[0], r.after()),
        r.len > 0 ==> r.replies[0] is Transferred && r.replies[0]->Transferred_count == r.count(),
{
    let start = transfer_step(reader, request, r.len);
    reveal_with_fuel(run, 3);
    reveal_with_fuel(calls, 3);
    reveal_with_fuel(fitting, 3);
    let made = calls::<Transfer>(start, r.replies);
    if r.len > 0 {
        assert(made[0] == request);
        assert(answers(reader, r.states[0], made[0], r.replies[0], r.states[1]));
        assert(made =~= seq![request]);
    }
}

/// Law: a discard of `k` bytes leaves the stream where a read of `k` bytes from the
/// same place leaves it.
pub proof fn law_discard_moves_like_read(
    reader: rgz_reader_t,
    discard: TransferRun,
    read: TransferRun,
)
    requires
        discard.is_discard(reader),
        read.is_read(reader),
        discard.before().same_place(read.before()),
        run::<Transfer>(discard_start(reader, discard.len), discard.replies) == run::<Transfer>(
            read_start(reader, read.len),
            read.replies,
        ),
    ensures
        discard.after().same_place(read.after()),
{
    law_discard_moves_on(reader, discard);
    law_read_gives_what_follows(reader, read);
    assert(discard.count() <= usize::MAX && read.count() <= usize::MAX);
}

/// Whether each of these is a read that goes on where the one before it ended.
pub open spec fn successive(reader: rgz_reader_t, reads: Seq<TransferRun>) -> bool {
    &&& forall|i: int| 0 <= i < reads.len() ==> (#[trigger] reads[i]).is_read(reader)
    &&& forall|i: int|
        0 < i < reads.len() ==> (#[trigger] reads[i]).before().same_place(reads[i - 1].after())
}

/// The bytes that reads gave, one after the other.
pub open spec fn all_got(reads: Seq<TransferRun>) -> Seq<u8>
    decreases reads.len(),
{
    if reads.len() == 0 {
        Seq::empty()
    } else {
        all_got(reads.drop_last()) + reads.last().got()
    }
}

/// Whether a read ended with no bytes although it asked for some.
pub open spec fn at_end(read: TransferRun) -> bool {
    read.len > 0 && read.count() == 0
}

/// Law: successive reads give the bytes of the stream in order, without a gap. Up
/// to the first read that gives none, they give exactly what followed the position
/// at which they began.
pub proof fn law_reads_give_the_payload(reader: rgz_reader_t, reads: Seq<TransferRun>)
    requires
        reads.len() > 0,
        successive(reader, reads),
    ensures
        ({
            let first = reads.first().before();
            let last = reads.last().after();
            &&& first.pos <= last.pos <= first.payload.len()
            &&& last.payload == first.payload
            &&& all_got(reads) == first.payload.subrange(first.pos, last.pos)
            &&& at_end(reads.last()) ==> all_got(reads) == first.rest()
        }),
    decreases reads.len(),
{
    let first = reads.first().before();
    let last = reads.last();
    law_read_gives_what_follows(reader, last);
    if reads.len() == 1 {
        assert(all_got(reads.drop_last()) == Seq::<u8>::empty());
        assert(all_got(reads) =~= last.got());
    } else {
        let earlier = reads.drop_last();
        assert(forall|i: int| 0 <= i < earlier.len() ==> earlier[i] == reads[i]);
        law_reads_give_the_payload(reader, earlier);
        assert(reads[reads.len() - 1].before().same_place(reads[reads.len() - 2].after()));
        assert(all_got(reads) =~= first.payload.subrange(first.pos, last.after().pos));
    }
    if at_end(last) {
        assert(all_got(reads) =~= first.rest());
    }
}

/// Law: reading to the end after a discard of `k` bytes gives exactly what
/// followed them.
pub proof fn law_reads_after_discard(
    reader: rgz_reader_t,
    discard: TransferRun,
    reads: Seq<TransferRun>,
)
    requires
        discard.is_discard(reader),
        reads.len() > 0,
        successive(reader, reads),
        reads.first().before().same_place(discard.after()),
        at_end(reads.last()),
    ensures
        all_got(reads) == discard.before().payload.skip(discard.before().pos + discard.count()),
{
    law_discard_moves_on(reader, discard);
    law_reads_give_the_payload(reader, reads);
}

/// The place that a seek asks for.
pub open spec fn seek_goal(stream: Stream, pos: SeekFrom) -> int {
    match pos {
        SeekFrom::Start(offset) => offset as int,
        SeekFrom::Current(offset) => stream.pos + offset,
        SeekFrom::End(offset) => stream.payload.len() + offset,
    }
}

/// Whether a seek was answered by a stream at every call and is over.
pub open spec fn seek_over(
    reader: rgz_reader_t,
    pos: SeekFrom,
    replies: Seq<ReplyView>,
    states: Seq<Stream>,
) -> bool {
    let start = seek_step(reader, pos);
    &&& fitting::<Seeking>(start, replies)
    &&& run::<Seeking>(start, replies) is Done
    &&& answered(reader, calls::<Seeking>(start, replies), replies, states)
    &&& states.first().well_formed()
}

/// Law: a seek from the start or from the current position to a place in the
/// stream succeeds with the offset of that place, and the stream is there then.
/// Nothing else of it changes.
pub proof fn law_seek_goes_there(
    reader: rgz_reader_t,
    pos: SeekFrom,
    replies: Seq<ReplyView>,
    states: Seq<Stream>,
)
    requires
        seek_over(reader, pos, replies, states),
        !(pos is End),
        0 <= seek_goal(states.first(), pos) <= states.first().payload.len(),
        seek_goal(states.first(), pos) <= u64::MAX,
    ensures
        ({
            let goal = seek_goal(states.first(), pos);
            &&& run::<Seeking>(seek_step(reader, pos), replies) == SeekStepView::Done(
                Ok(goal as u64),
            )
            &&& states.last() == (Stream { pos: goal, ..states.first() })
        }),
{
    reveal_with_fuel(run, 4);
    reveal_with_fuel(calls, 4);
    reveal_with_fuel(fitting, 4);
    let made = calls::<Seeking>(seek_step(reader, pos), replies);
    assert(answers(reader, states[0], made[0], replies[0], states[1]));
    if pos is Current {
        assert(made[1] == (RequestView::SeekTo {
            reader,
            offset: seek_goal(states[0], pos) as u64,
        }));
        assert(answers(reader, states[1], made[1], replies[1], states[2]));
    }
}

/// Law: a position query, which is a relative seek of zero, after a read gives the
/// offset at which the read ended (the count, for a read from the start), and does
/// not move the stream: reading on to the end gives exactly what follows.
pub proof fn law_position_after_read(
    reader: rgz_reader_t,
    read: TransferRun,
    replies: Seq<ReplyView>,
    states: Seq<Stream>,
    reads: Seq<TransferRun>,
)
    requires
        read.is_read(reader),
        seek_over(reader, SeekFrom::Current(0), replies, states),
        states.first().same_place(read.after()),
        reads.len() > 0,
        successive(reader, reads),
        reads.first().before().same_place(states.last()),
        at_end(reads.last()),
    ensures
        ({
            let end = read.before().pos + read.count();
            &&& run::<Seeking>(seek_step(reader, SeekFrom::Current(0)), replies)
                == SeekStepView::Done(Ok(end as u64))
            &&& states.last().same_place(read.after())
            &&& all_got(reads) == read.before().payload.skip(end)
            &&& read.len > 0 && read.before().pos < read.before().payload.len() ==> end
                > read.before().pos
        }),
{
    law_read_gives_what_follows(reader, read);
    let made = calls::<Seeking>(seek_step(reader, SeekFrom::Current(0)), replies);
    assert(made[0] == (RequestView::Tell { reader }));
    assert(states[0].pos <= u64::MAX);
    law_seek_goes_there(reader, SeekFrom::Current(0), replies, states);
    law_reads_give_the_payload(reader, reads);
}

/// Law: an import that succeeds, from a source or from a file, leaves the stream as
/// it was.
pub proof fn law_import_keeps_the_stream(
    reader: rgz_reader_t,
    start: ImportStepView,
    path: Seq<u8>,
    replies: Seq<ReplyView>,
    states: Seq<Stream>,
)
    requires
        start == import_step(reader) || start == import_file_step(reader, path),
        fitting::<Importing>(start, replies),
        run::<Importing>(start, replies) == ImportStepView::Done(Ok(())),
        answered(reader, calls::<Importing>(start, replies), replies, states),
    ensures
        states.last() == states.first(),
{
    reveal_with_fuel(run, 4);
    reveal_with_fuel(calls, 4);
    reveal_with_fuel(fitting, 4);
    let made = calls::<Importing>(start, replies);
    let import = RequestView::ImportIndex { reader, callbacks: plain_table() };
    if start == import_step(reader) {
        assert(made =~= seq![import]);
        assert(made[0] == import);
    } else {
        assert(made =~= seq![RequestView::OpenFile { path, kind: SourceKind::Plain }, import]);
        assert(made[0] is OpenFile);
        assert(made[1] == import);
    }
}

/// Law: an export that succeeds leaves the stream as it was.
pub proof fn law_export_keeps_the_stream(
    reader: rgz_reader_t,
    path: Seq<u8>,
    replies: Seq<ReplyView>,
    states: Seq<Stream>,
)
    requires
        fitting::<Exporting>(export_step(reader, path), replies),
        run::<Exporting>(export_step(reader, path), replies) == ExportStepView::Done(Ok(())),
        answered(reader, calls::<Exporting>(export_step(reader, path), replies), replies, states),
    ensures
        states.last() == states.first(),
{
    lemma_export_keeps(reader, export_step(reader, path), replies, states);
}

/// Whether an export on `reader` can still succeed from this step, which asks for the
/// call whose reply it waits for.
spec fn may_succeed(reader: rgz_reader_t, step: ExportStepView) -> bool {
    &&& coherent(step)
    &&& step matches StepView::Call(_, phase) ==> match phase {
        ExportPhase::Probing { reader: r, .. } => r == reader,
        ExportPhase::Resolving { reader: r } => r == reader,
        ExportPhase::Locating { reader: r, .. } => r == reader,
        ExportPhase::Inspecting { reader: r, .. } => r == reader,
        ExportPhase::Creating { reader: r, .. } => r == reader,
        ExportPhase::Writing { reader: r, .. } => r == reader,
        ExportPhase::Unwritten { .. } => false,
        ExportPhase::Restoring { .. } => true,
        ExportPhase::Persisting => true,
        ExportPhase::Abandoning { .. } => false,
    }
}

proof fn lemma_export_keeps(
    reader: rgz_reader_t,
    step: ExportStepView,
    replies: Seq<ReplyView>,
    states: Seq<Stream>,
)
    requires
        may_succeed(reader, step),
        fitting::<Exporting>(step, replies),
        run::<Exporting>(step, replies) == ExportStepView::Done(Ok(())),
        answered(reader, calls::<Exporting>(step, replies), replies, states),
    ensures
        states.last() == states.first(),
    decreases replies.len(),
{
    if let StepView::Call(request, phase) = step {
        reveal_with_fuel(run, 4);
        reveal_with_fuel(fitting, 4);
        let next = Exporting::next(phase, replies[0]);
        let rest = replies.drop_first();
        let made = calls::<Exporting>(step, replies);
        let later = calls::<Exporting>(next, rest);
        let onward = states.drop_first();
        law_calls_are_answered::<Exporting>(next, rest);
        assert(made == seq![request] + later);
        assert(made[0] == request);
        assert(answers(reader, states[0], made[0], replies[0], states[1]));
        assert forall|i: int| 0 <= i < later.len() implies answers(
            reader,
            onward[i],
            #[trigger] later[i],
            rest[i],
            onward[i + 1],
        ) by {
            assert(made[i + 1] == later[i]);
        }
        lemma_export_keeps(reader, next, rest, onward);
    }
}

/// Law: reading to the end after an import and a seek to offset `o` gives exactly the
/// bytes from `o` on.
pub proof fn law_reads_after_import(
    reader: rgz_reader_t,
    start: ImportStepView,
    path: Seq<u8>,
    import_replies: Seq<ReplyView>,
    import_states: Seq<Stream>,
    o: u64,
    seek_replies: Seq<ReplyView>,
    seek_states: Seq<Stream>,
    reads: Seq<TransferRun>,
)
    requires
        start == import_step(reader) || start == import_file_step(reader, path),
        fitting::<Importing>(start, import_replies),
        run::<Importing>(start, import_replies) == ImportStepView::Done(Ok(())),
        answered(
            reader,
            calls::<Importing>(start, import_replies),
            import_replies,
            import_states,
        ),
        seek_over(reader, SeekFrom::Start(o), seek_replies, seek_states),
        seek_states.first().same_place(import_states.last()),
        o <= import_states.first().payload.len(),
        reads.len() > 0,
        successive(reader, reads),
        reads.first().before().same_place(seek_states.last()),
        at_end(reads.last()),
    ensures
        run::<Seeking>(seek_step(reader, SeekFrom::Start(o)), seek_replies) == SeekStepView::Done(
            Ok(o),
        ),
        all_got(reads) == import_states.first().payload.skip(o as int),
{
    law_import_keeps_the_stream(reader, start, path, import_replies, import_states);
    law_seek_goes_there(reader, SeekFrom::Start(o), seek_replies, seek_states);
    law_reads_give_the_payload(reader, reads);
}

} // verus!
