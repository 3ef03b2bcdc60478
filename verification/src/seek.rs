//! Seeking in the decompressed stream.

use vstd::pervasive::unreached;
use vstd::prelude::*;

use crate::error::{get_last_error, reader_error_text};
use crate::io::{
    checked_relative_seek, io_result, relative_seek, ErrorKind, IoError, IoErrorView, SeekFrom,
};
use crate::protocol::{
    all_fit, calls, fitting, lemma_fitting, run, step_view, Behavior, Operation, Reply, ReplyView,
    Request, RequestView, Step, StepView,
};
use crate::reader::Reader;
use crate::sys::{rgz_reader_t, rgz_status_t};

verus! {

/// A seek in progress.
pub enum Seeking {
    /// Waits for the current offset, to move by `offset` from there.
    Locating { reader: rgz_reader_t, offset: i64 },
    /// Waits for the native seek to `target`.
    Moving { reader: rgz_reader_t, target: u64 },
    /// A native call failed; waits for the reader's error text.
    Failed,
}

/// The next move of a seek.
pub type SeekStep = Step<Seeking, Result<u64, IoError>>;

/// What a [`SeekStep`] says.
pub type SeekStepView = StepView<Seeking, Result<u64, IoErrorView>>;

/// The error for a seek from the end.
pub open spec fn seek_from_end_error() -> IoErrorView {
    IoErrorView {
        kind: ErrorKind::Unsupported,
        message: "Seek from end is not yet supported by the rapidgzip native ABI v0"@,
    }
}

/// The move that takes the stream to `target`.
pub open spec fn move_step(reader: rgz_reader_t, target: u64) -> SeekStepView {
    StepView::Call(
        RequestView::SeekTo { reader, offset: target },
        Seeking::Moving { reader, target },
    )
}

/// The first move of a seek to `pos`.
pub open spec fn seek_step(reader: rgz_reader_t, pos: SeekFrom) -> SeekStepView {
    match pos {
        SeekFrom::Start(target) => move_step(reader, target),
        SeekFrom::Current(offset) => StepView::Call(
            RequestView::Tell { reader },
            Seeking::Locating { reader, offset },
        ),
        SeekFrom::End(_) => StepView::Done(Err(seek_from_end_error())),
    }
}

impl Behavior for Seeking {
    type Output = Result<u64, IoError>;

    type Phase = Seeking;

    type Outcome = Result<u64, IoErrorView>;

    open spec fn phase(&self) -> Seeking {
        *self
    }

    open spec fn outcome(output: Result<u64, IoError>) -> Result<u64, IoErrorView> {
        io_result(output)
    }

    open spec fn expects(phase: Seeking, reply: ReplyView) -> bool {
        match phase {
            Seeking::Locating { .. } => reply is Position,
            Seeking::Moving { .. } => reply is Status,
            Seeking::Failed => reply is Message,
        }
    }

    open spec fn next(phase: Seeking, reply: ReplyView) -> SeekStepView {
        match (phase, reply) {
            (
                Seeking::Locating { reader, offset },
                ReplyView::Position { status, offset: current },
            ) => if status == rgz_status_t::RGZ_STATUS_OK {
                match relative_seek(current, offset, "stream"@) {
                    Ok(target) => move_step(reader, target),
                    Err(error) => StepView::Done(Err(error)),
                }
            } else {
                StepView::Call(RequestView::LastError { reader }, Seeking::Failed)
            },
            (Seeking::Moving { reader, target }, ReplyView::Status(status)) => if status
                == rgz_status_t::RGZ_STATUS_OK {
                StepView::Done(Ok(target))
            } else {
                StepView::Call(RequestView::LastError { reader }, Seeking::Failed)
            },
            (Seeking::Failed, ReplyView::Message(text)) => StepView::Done(
                Err(IoErrorView { kind: ErrorKind::Other, message: reader_error_text(text) }),
            ),
            _ => arbitrary(),
        }
    }

    open spec fn calls_left(phase: Seeking) -> nat {
        match phase {
            Seeking::Locating { .. } => 3,
            Seeking::Moving { .. } => 2,
            Seeking::Failed => 1,
        }
    }

    proof fn calls_left_positive(phase: Seeking) {
    }

    proof fn calls_left_decrease(phase: Seeking, reply: ReplyView) {
    }
}

impl Operation for Seeking {
    fn accepts(&self, reply: &Reply) -> (r: bool) {
        match self {
            Seeking::Locating { .. } => matches!(reply, Reply::Position { .. }),
            Seeking::Moving { .. } => matches!(reply, Reply::Status(_)),
            Seeking::Failed => matches!(reply, Reply::Message(_)),
        }
    }

    fn resume(self, reply: Reply) -> (step: SeekStep) {
        match (self, reply) {
            (Seeking::Locating { reader, offset }, Reply::Position { status, offset: current }) => {
                if status == rgz_status_t::RGZ_STATUS_OK {
                    match checked_relative_seek(current, offset, "stream") {
                        Ok(target) => Step::Call(
                            Request::SeekTo { reader, offset: target },
                            Seeking::Moving { reader, target },
                        ),
                        Err(error) => Step::Done(Err(error)),
                    }
                } else {
                    Step::Call(Request::LastError { reader }, Seeking::Failed)
                }
            },
            (Seeking::Moving { reader, target }, Reply::Status(status)) => {
                if status == rgz_status_t::RGZ_STATUS_OK {
                    Step::Done(Ok(target))
                } else {
                    Step::Call(Request::LastError { reader }, Seeking::Failed)
                }
            },
            (Seeking::Failed, Reply::Message(text)) => {
                Step::Done(Err(IoError::other(get_last_error(text))))
            },
            (_, _) => unreached(),
        }
    }
}

impl Reader {
    /// Seeks to a position in the decompressed stream and returns the new offset
    /// from its start. Seeking from the end is not supported.
    pub fn seek(&mut self, pos: SeekFrom) -> (step: SeekStep)
        ensures
            *final(self) == *old(self),
            step_view::<Seeking>(step) == seek_step(old(self)@, pos),
    {
        let reader = self.handle();
        match pos {
            SeekFrom::Start(target) => Step::Call(
                Request::SeekTo { reader, offset: target },
                Seeking::Moving { reader, target },
            ),
            SeekFrom::Current(offset) => Step::Call(
                Request::Tell { reader },
                Seeking::Locating { reader, offset },
            ),
            SeekFrom::End(_) => Step::Done(
                Err(
                    IoError {
                        kind: ErrorKind::Unsupported,
                        message:
                            "Seek from end is not yet supported by the rapidgzip native ABI v0".to_owned(),
                    },
                ),
            ),
        }
    }
}

/// Law: a seek from the end is refused, whatever its offset, without any call.
pub proof fn law_seek_from_end_is_refused(
    reader: rgz_reader_t,
    offset: i64,
    replies: Seq<ReplyView>,
)
    ensures
        run::<Seeking>(seek_step(reader, SeekFrom::End(offset)), replies) == SeekStepView::Done(
            Err(seek_from_end_error()),
        ),
        calls::<Seeking>(seek_step(reader, SeekFrom::End(offset)), replies).len() == 0,
{
}

/// Law: a seek that succeeds returns the offset that the native layer was told to
/// go to, and telling it was the last call made.
pub proof fn law_seek_returns_where_it_went(
    reader: rgz_reader_t,
    pos: SeekFrom,
    replies: Seq<ReplyView>,
)
    requires
        fitting::<Seeking>(seek_step(reader, pos), replies),
        run::<Seeking>(seek_step(reader, pos), replies) matches StepView::Done(Ok(_)),
    ensures
        ({
            let target = run::<Seeking>(seek_step(reader, pos), replies)->Done_0->Ok_0;
            let made = calls::<Seeking>(seek_step(reader, pos), replies);
            &&& made.len() > 0
            &&& made.last() == (RequestView::SeekTo { reader, offset: target })
            &&& replies[made.len() - 1] == ReplyView::Status(rgz_status_t::RGZ_STATUS_OK)
            &&& match pos {
                SeekFrom::Start(start) => target == start,
                SeekFrom::Current(offset) => {
                    &&& replies[0] is Position
                    &&& target == replies[0]->Position_offset + offset
                },
                SeekFrom::End(_) => false,
            }
        }),
{
    reveal_with_fuel(run, 4);
    reveal_with_fuel(calls, 4);
    reveal_with_fuel(fitting, 4);
    let made = calls::<Seeking>(seek_step(reader, pos), replies);
    match pos {
        SeekFrom::Start(target) => {
            assert(made =~= seq![RequestView::SeekTo { reader, offset: target }]);
        },
        SeekFrom::Current(offset) => {
            let target = (replies[0]->Position_offset + offset) as u64;
            assert(made =~= seq![
                RequestView::Tell { reader },
                RequestView::SeekTo { reader, offset: target },
            ]);
        },
        SeekFrom::End(_) => {},
    }
}

/// Law: a relative seek whose target is no offset fails as the offset arithmetic
/// says, and the stream is not moved.
pub proof fn law_bad_relative_seek_does_not_move(
    reader: rgz_reader_t,
    offset: i64,
    current: u64,
    rest: Seq<ReplyView>,
)
    requires
        !(0 <= current + offset <= u64::MAX),
    ensures
        ({
            let start = seek_step(reader, SeekFrom::Current(offset));
            let found = ReplyView::Position {
                status: rgz_status_t::RGZ_STATUS_OK,
                offset: current,
            };
            let replies = seq![found] + rest;
            &&& calls::<Seeking>(start, replies) == seq![RequestView::Tell { reader }]
            &&& run::<Seeking>(start, replies) == SeekStepView::Done(
                Err(relative_seek(current, offset, "stream"@)->Err_0),
            )
        }),
{
    reveal_with_fuel(run, 2);
    reveal_with_fuel(calls, 2);
    let found = ReplyView::Position { status: rgz_status_t::RGZ_STATUS_OK, offset: current };
    let replies = seq![found] + rest;
    assert(replies[0] == found);
    assert(calls::<Seeking>(seek_step(reader, SeekFrom::Current(offset)), replies) =~= seq![
        RequestView::Tell { reader },
    ]);
}

/// Law: asking for the position by a relative seek of zero gives back the offset
/// that the native layer reports, and leaves the stream there.
pub proof fn law_position_query(reader: rgz_reader_t, current: u64)
    ensures
        ({
            let start = seek_step(reader, SeekFrom::Current(0));
            let replies = seq![
                ReplyView::Position { status: rgz_status_t::RGZ_STATUS_OK, offset: current },
                ReplyView::Status(rgz_status_t::RGZ_STATUS_OK),
            ];
            &&& fitting::<Seeking>(start, replies)
            &&& run::<Seeking>(start, replies) == SeekStepView::Done(Ok(current))
            &&& calls::<Seeking>(start, replies) == seq![
                RequestView::Tell { reader },
                RequestView::SeekTo { reader, offset: current },
            ]
        }),
{
    reveal_with_fuel(run, 3);
    reveal_with_fuel(calls, 3);
    reveal_with_fuel(fitting, 3);
    let replies = seq![
        ReplyView::Position { status: rgz_status_t::RGZ_STATUS_OK, offset: current },
        ReplyView::Status(rgz_status_t::RGZ_STATUS_OK),
    ];
    assert(calls::<Seeking>(seek_step(reader, SeekFrom::Current(0)), replies) =~= seq![
        RequestView::Tell { reader },
        RequestView::SeekTo { reader, offset: current },
    ]);
}

/// Law: a seek that fails after it called the native layer says why. Either a
/// native call failed, and the reader's error text, asked for last, is the error;
/// or the position was found and the move from there has no valid end.
pub proof fn law_failed_seek_says_why(
    reader: rgz_reader_t,
    pos: SeekFrom,
    replies: Seq<ReplyView>,
)
    requires
        fitting::<Seeking>(seek_step(reader, pos), replies),
        run::<Seeking>(seek_step(reader, pos), replies) matches StepView::Done(Err(_)),
        !(pos is End),
    ensures
        ({
            let error = run::<Seeking>(seek_step(reader, pos), replies)->Done_0->Err_0;
            let made = calls::<Seeking>(seek_step(reader, pos), replies);
            let last = replies[made.len() - 1];
            &&& made.len() > 0
            &&& match last {
                ReplyView::Message(text) => {
                    &&& made.last() == (RequestView::LastError { reader })
                    &&& error == (IoErrorView {
                        kind: ErrorKind::Other,
                        message: reader_error_text(text),
                    })
                },
                ReplyView::Position { status, offset: current } => {
                    &&& status == rgz_status_t::RGZ_STATUS_OK
                    &&& pos is Current
                    &&& relative_seek(current, pos->Current_0, "stream"@) == Err::<
                        u64,
                        IoErrorView,
                    >(error)
                },
                _ => false,
            }
        }),
{
    reveal_with_fuel(run, 4);
    reveal_with_fuel(calls, 4);
    reveal_with_fuel(fitting, 4);
}

/// Law: what a seek to an offset from the start comes to, and by which calls, for
/// every offset: the native layer is told to go exactly there; if it says that it did,
/// the offset is the result, and its error text is the error otherwise.
pub proof fn law_seek_from_start_outcome(
    reader: rgz_reader_t,
    target: u64,
    replies: Seq<ReplyView>,
)
    requires
        fitting::<Seeking>(seek_step(reader, SeekFrom::Start(target)), replies),
        run::<Seeking>(seek_step(reader, SeekFrom::Start(target)), replies) is Done,
    ensures
        ({
            let start = seek_step(reader, SeekFrom::Start(target));
            let made = calls::<Seeking>(start, replies);
            let result = run::<Seeking>(start, replies)->Done_0;
            let go = RequestView::SeekTo { reader, offset: target };
            &&& replies[0] matches ReplyView::Status(status)
            &&& if status == rgz_status_t::RGZ_STATUS_OK {
                made == seq![go] && result == Ok::<u64, IoErrorView>(target)
            } else {
                &&& made == seq![go, RequestView::LastError { reader }]
                &&& replies[1] matches ReplyView::Message(text)
                &&& result == Err::<u64, IoErrorView>(
                    IoErrorView { kind: ErrorKind::Other, message: reader_error_text(text) },
                )
            }
        }),
{
    reveal_with_fuel(run, 4);
    reveal_with_fuel(calls, 4);
    reveal_with_fuel(fitting, 4);
    let made = calls::<Seeking>(seek_step(reader, SeekFrom::Start(target)), replies);
    let go = RequestView::SeekTo { reader, offset: target };
    if replies[0] == ReplyView::Status(rgz_status_t::RGZ_STATUS_OK) {
        assert(made =~= seq![go]);
    } else {
        assert(made =~= seq![go, RequestView::LastError { reader }]);
    }
}

/// Law: a relative seek is a position query, and after that a seek from the start to
/// the sum of the position and the offset, for every offset. Where the position cannot
/// be had, the reader's error text is the error. Where the sum is no offset, the seek
/// is refused as invalid.
pub proof fn law_relative_seek_outcome(
    reader: rgz_reader_t,
    offset: i64,
    replies: Seq<ReplyView>,
)
    requires
        fitting::<Seeking>(seek_step(reader, SeekFrom::Current(offset)), replies),
        run::<Seeking>(seek_step(reader, SeekFrom::Current(offset)), replies) is Done,
    ensures
        ({
            let start = seek_step(reader, SeekFrom::Current(offset));
            let made = calls::<Seeking>(start, replies);
            let result = run::<Seeking>(start, replies)->Done_0;
            let tell = RequestView::Tell { reader };
            let rest = replies.drop_first();
            &&& replies[0] matches ReplyView::Position { status, offset: current }
            &&& if status != rgz_status_t::RGZ_STATUS_OK {
                &&& made == seq![tell, RequestView::LastError { reader }]
                &&& replies[1] matches ReplyView::Message(text)
                &&& result == Err::<u64, IoErrorView>(
                    IoErrorView { kind: ErrorKind::Other, message: reader_error_text(text) },
                )
            } else if current + offset > u64::MAX {
                &&& made == seq![tell]
                &&& result == Err::<u64, IoErrorView>(
                    IoErrorView {
                        kind: ErrorKind::InvalidInput,
                        message: "Seek overflow for "@ + "stream"@,
                    },
                )
            } else if current + offset < 0 {
                &&& made == seq![tell]
                &&& result == Err::<u64, IoErrorView>(
                    IoErrorView {
                        kind: ErrorKind::InvalidInput,
                        message: "Seek before start of "@ + "stream"@,
                    },
                )
            } else {
                let onward = seek_step(reader, SeekFrom::Start((current + offset) as u64));
                &&& fitting::<Seeking>(onward, rest)
                &&& made == seq![tell] + calls::<Seeking>(onward, rest)
                &&& run::<Seeking>(start, replies) == run::<Seeking>(onward, rest)
            }
        }),
{
    reveal_with_fuel(run, 4);
    reveal_with_fuel(calls, 4);
    reveal_with_fuel(fitting, 4);
    let made = calls::<Seeking>(seek_step(reader, SeekFrom::Current(offset)), replies);
    let tell = RequestView::Tell { reader };
    if replies[0]->Position_status != rgz_status_t::RGZ_STATUS_OK {
        assert(made =~= seq![tell, RequestView::LastError { reader }]);
    } else if !(0 <= replies[0]->Position_offset + offset <= u64::MAX) {
        assert(made =~= seq![tell]);
    }
}

/// Law: a seek from the end is refused as unsupported, whatever its offset.
pub proof fn law_seek_from_end_is_unsupported(reader: rgz_reader_t, offset: i64)
    ensures
        seek_step(reader, SeekFrom::End(offset)) == SeekStepView::Done(
            Err(
                IoErrorView {
                    kind: ErrorKind::Unsupported,
                    message: "Seek from end is not yet supported by the rapidgzip native ABI v0"@,
                },
            ),
        ),
{
}

/// Law: a seek takes whatever the calls it asked for can give, and nothing else.
pub proof fn law_seek_takes_every_reply(
    reader: rgz_reader_t,
    pos: SeekFrom,
    replies: Seq<ReplyView>,
)
    ensures
        fitting::<Seeking>(seek_step(reader, pos), replies) <==> all_fit(
            calls::<Seeking>(seek_step(reader, pos), replies),
            replies,
        ),
{
    let kept = |step: SeekStepView|
        match step {
            StepView::Done(_) => true,
            StepView::Call(q, phase) => match phase {
                Seeking::Locating { .. } => q is Tell,
                Seeking::Moving { .. } => q is SeekTo,
                Seeking::Failed => q is LastError,
            },
        };
    lemma_fitting::<Seeking>(seek_step(reader, pos), replies, kept);
}

/// Law: what is proved of the result of a seek is proved of the very result that the
/// caller gets.
pub proof fn law_seek_result_is_shown_as_it_is(offset: u64, error: IoError)
    ensures
        Seeking::outcome(Ok(offset)) == Ok::<u64, IoErrorView>(offset),
        Seeking::outcome(Err(error)) == Err::<u64, IoErrorView>(error@),
{
}

} // verus!
