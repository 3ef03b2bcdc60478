//! Reading decompressed bytes: into a buffer, into a file descriptor, or away.

use vstd::pervasive::unreached;
use vstd::prelude::*;

use crate::error::{get_last_error, reader_error_text};
use crate::io::{io_result, ErrorKind, IoError, IoErrorView};
use crate::protocol::{
    all_fit, calls, fitting, lemma_fitting, run, step_view, Behavior, Operation, Reply, ReplyView,
    Request, RequestView, Step, StepView,
};
use crate::reader::Reader;
use crate::sys::{rgz_reader_t, rgz_status_t};

verus! {

/// A transfer in progress.
pub enum Transfer {
    /// Waits for the native read call.
    Running { reader: rgz_reader_t },
    /// The native read call failed; waits for the reader's error text.
    Failed,
}

/// The next move of a transfer.
pub type TransferStep = Step<Transfer, Result<usize, IoError>>;

/// What a [`TransferStep`] says.
pub type TransferStepView = StepView<Transfer, Result<usize, IoErrorView>>;

/// What follows a native read call: reaching the end of the stream counts as
/// success, anything else asks for the error text.
pub open spec fn read_status_step(
    reader: rgz_reader_t,
    status: rgz_status_t,
    count: usize,
) -> TransferStepView {
    if status == rgz_status_t::RGZ_STATUS_OK || status == rgz_status_t::RGZ_STATUS_EOF {
        StepView::Done(Ok(count))
    } else {
        StepView::Call(RequestView::LastError { reader }, Transfer::Failed)
    }
}

/// The first move of a transfer of up to `len` bytes by the call `request`:
/// nothing is to be done for no bytes.
pub open spec fn transfer_step(
    reader: rgz_reader_t,
    request: RequestView,
    len: usize,
) -> TransferStepView {
    if len == 0 {
        StepView::Done(Ok(0))
    } else {
        StepView::Call(request, Transfer::Running { reader })
    }
}

impl Behavior for Transfer {
    type Output = Result<usize, IoError>;

    type Phase = Transfer;

    type Outcome = Result<usize, IoErrorView>;

    open spec fn phase(&self) -> Transfer {
        *self
    }

    open spec fn outcome(output: Result<usize, IoError>) -> Result<usize, IoErrorView> {
        io_result(output)
    }

    open spec fn expects(phase: Transfer, reply: ReplyView) -> bool {
        match phase {
            Transfer::Running { .. } => reply is Transferred,
            Transfer::Failed => reply is Message,
        }
    }

    open spec fn next(phase: Transfer, reply: ReplyView) -> TransferStepView {
        match (phase, reply) {
            (
                Transfer::Running { reader },
                ReplyView::Transferred { status, count },
            ) => read_status_step(reader, status, count),
            (Transfer::Failed, ReplyView::Message(text)) => StepView::Done(
                Err(IoErrorView { kind: ErrorKind::Other, message: reader_error_text(text) }),
            ),
            _ => arbitrary(),
        }
    }

    open spec fn calls_left(phase: Transfer) -> nat {
        match phase {
            Transfer::Running { .. } => 2,
            Transfer::Failed => 1,
        }
    }

    proof fn calls_left_positive(phase: Transfer) {
    }

    proof fn calls_left_decrease(phase: Transfer, reply: ReplyView) {
    }
}

impl Operation for Transfer {
    fn accepts(&self, reply: &Reply) -> (r: bool) {
        match self {
            Transfer::Running { .. } => matches!(reply, Reply::Transferred { .. }),
            Transfer::Failed => matches!(reply, Reply::Message(_)),
        }
    }

    fn resume(self, reply: Reply) -> (step: TransferStep) {
        match (self, reply) {
            (Transfer::Running { reader }, Reply::Transferred { status, count }) => {
                Reader::map_read_status(reader, status, count)
            },
            (Transfer::Failed, Reply::Message(text)) => {
                Step::Done(Err(IoError::other(get_last_error(text))))
            },
            (_, _) => unreached(),
        }
    }
}

impl Reader {
    /// Decides what follows a native read call on the reader with this handle.
    pub fn map_read_status(reader: rgz_reader_t, status: rgz_status_t, read_bytes: usize) -> (step:
        TransferStep)
        ensures
            step_view::<Transfer>(step) == read_status_step(reader, status, read_bytes),
    {
        match status {
            rgz_status_t::RGZ_STATUS_OK | rgz_status_t::RGZ_STATUS_EOF => Step::Done(
                Ok(read_bytes),
            ),
            _ => Step::Call(Request::LastError { reader }, Transfer::Failed),
        }
    }

    /// Reads and discards up to `len` decompressed bytes without copying them into Rust memory.
    pub fn read_discard(&mut self, len: usize) -> (step: TransferStep)
        ensures
            *final(self) == *old(self),
            step_view::<Transfer>(step) == transfer_step(
                old(self)@,
                RequestView::ReadDiscard { reader: old(self)@, len },
                len,
            ),
    {
        if len == 0 {
            return Step::Done(Ok(0));
        }
        let reader = self.handle();
        Step::Call(Request::ReadDiscard { reader, len }, Transfer::Running { reader })
    }

    /// Streams decompressed bytes directly into a Unix file descriptor.
    pub fn read_to_fd(&mut self, output_fd: i32, len: usize) -> (step: TransferStep)
        ensures
            *final(self) == *old(self),
            step_view::<Transfer>(step) == transfer_step(
                old(self)@,
                RequestView::ReadToFd { reader: old(self)@, output_fd, len },
                len,
            ),
    {
        if len == 0 {
            return Step::Done(Ok(0));
        }
        let reader = self.handle();
        Step::Call(Request::ReadToFd { reader, output_fd, len }, Transfer::Running { reader })
    }

    /// Reads decompressed bytes into a buffer of `len` bytes that the caller
    /// supplies.
    pub fn read(&mut self, len: usize) -> (step: TransferStep)
        ensures
            *final(self) == *old(self),
            step_view::<Transfer>(step) == transfer_step(
                old(self)@,
                RequestView::Read { reader: old(self)@, len },
                len,
            ),
    {
        if len == 0 {
            return Step::Done(Ok(0));
        }
        let reader = self.handle();
        Step::Call(Request::Read { reader, len }, Transfer::Running { reader })
    }
}

/// Law: what a transfer comes to, and by which calls. No bytes take no call at
/// all. Otherwise the native layer is called once; its count is the result if it
/// succeeded or met the end of the stream, and its error text is the error
/// otherwise.
pub proof fn law_transfer_outcome(
    reader: rgz_reader_t,
    request: RequestView,
    len: usize,
    replies: Seq<ReplyView>,
)
    requires
        fitting::<Transfer>(transfer_step(reader, request, len), replies),
        run::<Transfer>(transfer_step(reader, request, len), replies) is Done,
    ensures
        ({
            let start = transfer_step(reader, request, len);
            let result = run::<Transfer>(start, replies)->Done_0;
            let made = calls::<Transfer>(start, replies);
            if len == 0 {
                made.len() == 0 && result == Ok::<usize, IoErrorView>(0)
            } else {
                &&& replies[0] matches ReplyView::Transferred { status, count }
                &&& if status == rgz_status_t::RGZ_STATUS_OK || status
                    == rgz_status_t::RGZ_STATUS_EOF {
                    made == seq![request] && result == Ok::<usize, IoErrorView>(count)
                } else {
                    &&& made == seq![request, RequestView::LastError { reader }]
                    &&& replies[1] is Message
                    &&& result == Err::<usize, IoErrorView>(
                        IoErrorView {
                            kind: ErrorKind::Other,
                            message: reader_error_text(replies[1]->Message_0),
                        },
                    )
                }
            }
        }),
{
    reveal_with_fuel(run, 3);
    reveal_with_fuel(calls, 3);
    reveal_with_fuel(fitting, 3);
    let made = calls::<Transfer>(transfer_step(reader, request, len), replies);
    if len > 0 {
        if let ReplyView::Transferred { status, .. } = replies[0] {
            if status == rgz_status_t::RGZ_STATUS_OK || status == rgz_status_t::RGZ_STATUS_EOF {
                assert(made =~= seq![request]);
            } else {
                assert(made =~= seq![request, RequestView::LastError { reader }]);
            }
        }
    }
}

/// Whether a call transfers up to `len` bytes from a reader.
pub open spec fn transfers(request: RequestView, reader: rgz_reader_t, len: usize) -> bool {
    ||| request == (RequestView::Read { reader, len })
    ||| request == (RequestView::ReadDiscard { reader, len })
    ||| request matches RequestView::ReadToFd { reader: r, len: l, .. } && r == reader && l == len
}

/// Law: a transfer takes whatever the calls it asked for can give, and nothing else.
pub proof fn law_transfer_takes_every_reply(
    reader: rgz_reader_t,
    request: RequestView,
    len: usize,
    replies: Seq<ReplyView>,
)
    requires
        transfers(request, reader, len),
    ensures
        fitting::<Transfer>(transfer_step(reader, request, len), replies) <==> all_fit(
            calls::<Transfer>(transfer_step(reader, request, len), replies),
            replies,
        ),
{
    let kept = |step: TransferStepView|
        match step {
            StepView::Done(_) => true,
            StepView::Call(q, phase) => match phase {
                Transfer::Running { .. } => q is Read || q is ReadDiscard || q is ReadToFd,
                Transfer::Failed => q is LastError,
            },
        };
    lemma_fitting::<Transfer>(transfer_step(reader, request, len), replies, kept);
}

/// Law: what is proved of the result of a transfer is proved of the very result that
/// the caller gets.
pub proof fn law_transfer_result_is_shown_as_it_is(count: usize, error: IoError)
    ensures
        Transfer::outcome(Ok(count)) == Ok::<usize, IoErrorView>(count),
        Transfer::outcome(Err(error)) == Err::<usize, IoErrorView>(error@),
{
}

} // verus!
