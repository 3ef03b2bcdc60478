//! The conversation between an operation and the world outside the library.
//!
//! An operation never calls native code, the file system or a source of input. It
//! names the call it wants made (a [`Request`]) and waits; the embedding program
//! makes the call and hands back what came of it (a [`Reply`]). Each operation is a
//! small state machine over these two types, and [`Behavior`] and [`Operation`] are
//! what they have in common.

use vstd::prelude::*;

use crate::error::text_view;
use crate::io::SeekFrom;
use crate::sys::{rgz_callbacks_t, rgz_config_t, rgz_reader_t, rgz_status_t, SourceKind};

verus! {

/// A call that an operation wants made. Paths are the bytes of the platform's
/// own path encoding.
pub enum Request {
    /// `rgz_open_path_ex`; the path ends in its NUL terminator.
    OpenPath { path: Vec<u8>, config: rgz_config_t },
    /// `rgz_open_callbacks` on the source that the caller supplied.
    OpenCallbacks { callbacks: rgz_callbacks_t, config: rgz_config_t },
    /// `rgz_close`.
    Close { reader: rgz_reader_t },
    /// `rgz_read` into the caller's buffer of `len` bytes.
    Read { reader: rgz_reader_t, len: usize },
    /// `rgz_read_discard`.
    ReadDiscard { reader: rgz_reader_t, len: usize },
    /// `rgz_read_to_fd`.
    ReadToFd { reader: rgz_reader_t, output_fd: i32, len: usize },
    /// `rgz_set_keep_index`.
    SetKeepIndex { reader: rgz_reader_t, keep_index: bool },
    /// `rgz_seek_to`.
    SeekTo { reader: rgz_reader_t, offset: u64 },
    /// `rgz_tell`.
    Tell { reader: rgz_reader_t },
    /// `rgz_import_index_callbacks` on the source that the caller supplied.
    ImportIndex { reader: rgz_reader_t, callbacks: rgz_callbacks_t },
    /// `rgz_export_index_write` into the temporary file.
    ExportIndex { reader: rgz_reader_t },
    /// `rgz_last_error`.
    LastError { reader: rgz_reader_t },
    /// `rgz_last_global_error`.
    LastGlobalError,
    /// Open a file for reading; it becomes the source of what follows, which is
    /// to be of this kind.
    OpenFile { path: Vec<u8>, kind: SourceKind },
    /// Look whether a directory entry is there, without following links.
    Probe { path: Vec<u8> },
    /// Resolve a path to an absolute one without links.
    Canonicalize { path: Vec<u8> },
    /// Name the directory that a path lies in.
    Parent { path: Vec<u8> },
    /// Look up the permission bits of a file.
    FileMode { path: Vec<u8> },
    /// Create a fresh temporary file in a directory.
    CreateTemp { dir: Vec<u8>, prefix: &'static str, suffix: &'static str },
    /// Give the temporary file these permission bits.
    SetTempMode { mode: u32 },
    /// Rename the temporary file to a path, replacing what is there.
    PersistTemp { path: Vec<u8> },
    /// Delete the temporary file.
    DiscardTemp,
    /// Read from the source into the native buffer of `len` bytes.
    SourceRead { len: usize },
    /// Seek in the source.
    SourceSeek { pos: SeekFrom },
    /// Ask the source for its position.
    SourcePosition,
    /// Clone the source.
    SourceClone,
    /// Write all `size` bytes of the native buffer to the temporary file.
    WriteTemp { size: usize },
}

/// What came of looking up the permission bits of a file.
pub enum ModeReport {
    /// The bits.
    Bits(u32),
    /// The platform's files have no such bits.
    Unavailable,
    /// There is no such file.
    Missing,
    /// The look-up failed otherwise, with this text.
    Failed(String),
}

/// What a [`ModeReport`] says.
pub enum ModeReportView {
    Bits(u32),
    Unavailable,
    Missing,
    Failed(Seq<char>),
}

impl View for ModeReport {
    type V = ModeReportView;

    open spec fn view(&self) -> ModeReportView {
        match *self {
            ModeReport::Bits(bits) => ModeReportView::Bits(bits),
            ModeReport::Unavailable => ModeReportView::Unavailable,
            ModeReport::Missing => ModeReportView::Missing,
            ModeReport::Failed(text) => ModeReportView::Failed(text@),
        }
    }
}

/// What came of a [`Request`].
pub enum Reply {
    /// Of the two native open calls: the address returned, and the status.
    Opened { address: usize, status: rgz_status_t },
    /// Of a native call that returns a status only.
    Status(rgz_status_t),
    /// Of the native read calls.
    Transferred { status: rgz_status_t, count: usize },
    /// Of `rgz_tell`.
    Position { status: rgz_status_t, offset: u64 },
    /// Of the native error queries: the text, or nothing for a null pointer.
    Message(Option<String>),
    /// Of a call that reports nothing.
    Finished,
    /// Of a file system call: success, or the text of the error.
    Outcome(Result<(), String>),
    /// Of `Probe`.
    Found(bool),
    /// Of `Canonicalize`: the path, or the text of the error.
    Resolved(Result<Vec<u8>, String>),
    /// Of `Parent`: the directory, if the path has one.
    Directory(Option<Vec<u8>>),
    /// Of `FileMode`.
    Mode(ModeReport),
    /// Of `SourceRead`: the count, or nothing for an error.
    SourceCount(Option<usize>),
    /// Of `SourceSeek` and `SourcePosition`: the offset, or nothing for an error.
    SourceOffset(Option<u64>),
    /// Of `SourceClone`: the address of the clone.
    Cloned(usize),
    /// Of `WriteTemp`: whether all bytes were written.
    Written(bool),
    /// Of a call made on behalf of a callback: it panicked.
    Panicked,
}

/// What a [`Request`] asks for.
pub enum RequestView {
    OpenPath { path: Seq<u8>, config: rgz_config_t },
    OpenCallbacks { callbacks: rgz_callbacks_t, config: rgz_config_t },
    Close { reader: rgz_reader_t },
    Read { reader: rgz_reader_t, len: usize },
    ReadDiscard { reader: rgz_reader_t, len: usize },
    ReadToFd { reader: rgz_reader_t, output_fd: i32, len: usize },
    SetKeepIndex { reader: rgz_reader_t, keep_index: bool },
    SeekTo { reader: rgz_reader_t, offset: u64 },
    Tell { reader: rgz_reader_t },
    ImportIndex { reader: rgz_reader_t, callbacks: rgz_callbacks_t },
    ExportIndex { reader: rgz_reader_t },
    LastError { reader: rgz_reader_t },
    LastGlobalError,
    OpenFile { path: Seq<u8>, kind: SourceKind },
    Probe { path: Seq<u8> },
    Canonicalize { path: Seq<u8> },
    Parent { path: Seq<u8> },
    FileMode { path: Seq<u8> },
    CreateTemp { dir: Seq<u8>, prefix: Seq<char>, suffix: Seq<char> },
    SetTempMode { mode: u32 },
    PersistTemp { path: Seq<u8> },
    DiscardTemp,
    SourceRead { len: usize },
    SourceSeek { pos: SeekFrom },
    SourcePosition,
    SourceClone,
    WriteTemp { size: usize },
}

/// What a [`Reply`] says.
pub enum ReplyView {
    Opened { address: usize, status: rgz_status_t },
    Status(rgz_status_t),
    Transferred { status: rgz_status_t, count: usize },
    Position { status: rgz_status_t, offset: u64 },
    Message(Option<Seq<char>>),
    Finished,
    Outcome(Result<(), Seq<char>>),
    Found(bool),
    Resolved(Result<Seq<u8>, Seq<char>>),
    Directory(Option<Seq<u8>>),
    Mode(ModeReportView),
    SourceCount(Option<usize>),
    SourceOffset(Option<u64>),
    Cloned(usize),
    Written(bool),
    Panicked,
}

impl View for Request {
    type V = RequestView;

    open spec fn view(&self) -> RequestView {
        match *self {
            Request::OpenPath { path, config } => RequestView::OpenPath { path: path@, config },
            Request::OpenCallbacks { callbacks, config } => RequestView::OpenCallbacks {
                callbacks,
                config,
            },
            Request::Close { reader } => RequestView::Close { reader },
            Request::Read { reader, len } => RequestView::Read { reader, len },
            Request::ReadDiscard { reader, len } => RequestView::ReadDiscard { reader, len },
            Request::ReadToFd { reader, output_fd, len } => RequestView::ReadToFd {
                reader,
                output_fd,
                len,
            },
            Request::SetKeepIndex { reader, keep_index } => RequestView::SetKeepIndex {
                reader,
                keep_index,
            },
            Request::SeekTo { reader, offset } => RequestView::SeekTo { reader, offset },
            Request::Tell { reader } => RequestView::Tell { reader },
            Request::ImportIndex { reader, callbacks } => RequestView::ImportIndex {
                reader,
                callbacks,
            },
            Request::ExportIndex { reader } => RequestView::ExportIndex { reader },
            Request::LastError { reader } => RequestView::LastError { reader },
            Request::LastGlobalError => RequestView::LastGlobalError,
            Request::OpenFile { path, kind } => RequestView::OpenFile { path: path@, kind },
            Request::Probe { path } => RequestView::Probe { path: path@ },
            Request::Canonicalize { path } => RequestView::Canonicalize { path: path@ },
            Request::Parent { path } => RequestView::Parent { path: path@ },
            Request::FileMode { path } => RequestView::FileMode { path: path@ },
            Request::CreateTemp { dir, prefix, suffix } => RequestView::CreateTemp {
                dir: dir@,
                prefix: prefix@,
                suffix: suffix@,
            },
            Request::SetTempMode { mode } => RequestView::SetTempMode { mode },
            Request::PersistTemp { path } => RequestView::PersistTemp { path: path@ },
            Request::DiscardTemp => RequestView::DiscardTemp,
            Request::SourceRead { len } => RequestView::SourceRead { len },
            Request::SourceSeek { pos } => RequestView::SourceSeek { pos },
            Request::SourcePosition => RequestView::SourcePosition,
            Request::SourceClone => RequestView::SourceClone,
            Request::WriteTemp { size } => RequestView::WriteTemp { size },
        }
    }
}

impl View for Reply {
    type V = ReplyView;

    open spec fn view(&self) -> ReplyView {
        match *self {
            Reply::Opened { address, status } => ReplyView::Opened { address, status },
            Reply::Status(status) => ReplyView::Status(status),
            Reply::Transferred { status, count } => ReplyView::Transferred { status, count },
            Reply::Position { status, offset } => ReplyView::Position { status, offset },
            Reply::Message(text) => ReplyView::Message(text_view(text)),
            Reply::Finished => ReplyView::Finished,
            Reply::Outcome(Ok(_)) => ReplyView::Outcome(Ok(())),
            Reply::Outcome(Err(text)) => ReplyView::Outcome(Err(text@)),
            Reply::Found(found) => ReplyView::Found(found),
            Reply::Resolved(Ok(path)) => ReplyView::Resolved(Ok(path@)),
            Reply::Resolved(Err(text)) => ReplyView::Resolved(Err(text@)),
            Reply::Directory(Some(dir)) => ReplyView::Directory(Some(dir@)),
            Reply::Directory(None) => ReplyView::Directory(None),
            Reply::Mode(report) => ReplyView::Mode(report@),
            Reply::SourceCount(count) => ReplyView::SourceCount(count),
            Reply::SourceOffset(offset) => ReplyView::SourceOffset(offset),
            Reply::Cloned(address) => ReplyView::Cloned(address),
            Reply::Written(written) => ReplyView::Written(written),
            Reply::Panicked => ReplyView::Panicked,
        }
    }
}

/// The next move of an operation in state `S`: a call to make and the state that
/// waits for its reply, or the result.
pub enum Step<S, T> {
    Call(Request, S),
    Done(T),
}

/// What a [`Step`] says.
pub enum StepView<P, T> {
    Call(RequestView, P),
    Done(T),
}

/// How an operation behaves, stated over what its states, replies and results
/// say.
pub trait Behavior: Sized {
    /// The result of the operation.
    type Output;

    /// What a state says.
    type Phase;

    /// What a result says.
    type Outcome;

    /// What this state says.
    spec fn phase(&self) -> Self::Phase;

    /// What a result says.
    spec fn outcome(output: Self::Output) -> Self::Outcome;

    /// Whether a reply is of the sort that the state waits for.
    spec fn expects(phase: Self::Phase, reply: ReplyView) -> bool;

    /// The move that follows a reply.
    spec fn next(phase: Self::Phase, reply: ReplyView) -> StepView<Self::Phase, Self::Outcome>;

    /// A bound on the calls that are still to come, the one waited for included.
    spec fn calls_left(phase: Self::Phase) -> nat;

    /// A state that waits for a reply has a call to come.
    proof fn calls_left_positive(phase: Self::Phase)
        ensures
            Self::calls_left(phase) > 0,
    ;

    /// Every reply brings the operation nearer to its end.
    proof fn calls_left_decrease(phase: Self::Phase, reply: ReplyView)
        requires
            Self::expects(phase, reply),
        ensures
            Self::next(phase, reply) matches StepView::Call(_, next) ==> Self::calls_left(next)
                < Self::calls_left(phase),
    ;
}

/// A state of an operation that waits for the reply to the call it asked for.
pub trait Operation: Behavior {
    /// Tells whether a reply is of the sort that this state waits for.
    fn accepts(&self, reply: &Reply) -> (r: bool)
        ensures
            r == Self::expects(self.phase(), reply@),
    ;

    /// Takes the reply and makes the next move.
    fn resume(self, reply: Reply) -> (step: Step<Self, Self::Output>)
        requires
            Self::expects(self.phase(), reply@),
        ensures
            step_view::<Self>(step) == Self::next(self.phase(), reply@),
    ;
}

/// What a step says.
pub open spec fn step_view<O: Behavior>(step: Step<O, O::Output>) -> StepView<
    O::Phase,
    O::Outcome,
> {
    match step {
        Step::Call(request, state) => StepView::Call(request@, state.phase()),
        Step::Done(output) => StepView::Done(O::outcome(output)),
    }
}

/// Where an operation stands once it was given `replies`, one after the other.
/// Replies that come after the result change nothing.
pub open spec fn run<O: Behavior>(
    step: StepView<O::Phase, O::Outcome>,
    replies: Seq<ReplyView>,
) -> StepView<O::Phase, O::Outcome>
    decreases replies.len(),
{
    match step {
        StepView::Done(_) => step,
        StepView::Call(_, phase) => if replies.len() == 0 {
            step
        } else {
            run::<O>(O::next(phase, replies[0]), replies.drop_first())
        },
    }
}

/// The calls that an operation asked for and that `replies` answered.
pub open spec fn calls<O: Behavior>(
    step: StepView<O::Phase, O::Outcome>,
    replies: Seq<ReplyView>,
) -> Seq<RequestView>
    decreases replies.len(),
{
    match step {
        StepView::Done(_) => Seq::empty(),
        StepView::Call(request, phase) => if replies.len() == 0 {
            Seq::empty()
        } else {
            seq![request] + calls::<O>(O::next(phase, replies[0]), replies.drop_first())
        },
    }
}

/// Whether every reply is of the sort that the operation waits for when it comes.
pub open spec fn fitting<O: Behavior>(
    step: StepView<O::Phase, O::Outcome>,
    replies: Seq<ReplyView>,
) -> bool
    decreases replies.len(),
{
    match step {
        StepView::Done(_) => true,
        StepView::Call(_, phase) => replies.len() == 0 || (O::expects(phase, replies[0])
            && fitting::<O>(O::next(phase, replies[0]), replies.drop_first())),
    }
}

/// A bound on the calls that a step leads to.
pub open spec fn calls_ahead<O: Behavior>(step: StepView<O::Phase, O::Outcome>) -> nat {
    match step {
        StepView::Done(_) => 0,
        StepView::Call(_, phase) => O::calls_left(phase),
    }
}

/// Law: there is a reply for every call that was made.
pub proof fn law_calls_are_answered<O: Behavior>(
    step: StepView<O::Phase, O::Outcome>,
    replies: Seq<ReplyView>,
)
    ensures
        calls::<O>(step, replies).len() <= replies.len(),
    decreases replies.len(),
{
    if let StepView::Call(_, phase) = step {
        if replies.len() > 0 {
            law_calls_are_answered::<O>(O::next(phase, replies[0]), replies.drop_first());
        }
    }
}

/// Law: an operation asks for no more calls than its bound says.
pub proof fn law_calls_are_bounded<O: Behavior>(
    step: StepView<O::Phase, O::Outcome>,
    replies: Seq<ReplyView>,
)
    requires
        fitting::<O>(step, replies),
    ensures
        calls::<O>(step, replies).len() <= calls_ahead::<O>(step),
    decreases replies.len(),
{
    if let StepView::Call(_, phase) = step {
        O::calls_left_positive(phase);
        if replies.len() > 0 {
            O::calls_left_decrease(phase, replies[0]);
            law_calls_are_bounded::<O>(O::next(phase, replies[0]), replies.drop_first());
        }
    }
}

/// Law: an operation whose every call is answered comes to a result.
pub proof fn law_answered_operation_ends<O: Behavior>(
    step: StepView<O::Phase, O::Outcome>,
    replies: Seq<ReplyView>,
)
    requires
        fitting::<O>(step, replies),
        replies.len() >= calls_ahead::<O>(step),
    ensures
        run::<O>(step, replies) is Done,
    decreases replies.len(),
{
    if let StepView::Call(_, phase) = step {
        O::calls_left_positive(phase);
        if replies.len() > 0 {
            O::calls_left_decrease(phase, replies[0]);
            law_answered_operation_ends::<O>(O::next(phase, replies[0]), replies.drop_first());
        }
    }
}

/// Whether a reply is of the sort that a call gives. A call on behalf of a callback
/// may also panic.
pub open spec fn fits(request: RequestView, reply: ReplyView) -> bool {
    match request {
        RequestView::OpenPath { .. } => reply is Opened,
        RequestView::OpenCallbacks { .. } => reply is Opened,
        RequestView::Close { .. } => reply is Finished,
        RequestView::Read { .. } => reply is Transferred,
        RequestView::ReadDiscard { .. } => reply is Transferred,
        RequestView::ReadToFd { .. } => reply is Transferred,
        RequestView::SetKeepIndex { .. } => reply is Status,
        RequestView::SeekTo { .. } => reply is Status,
        RequestView::Tell { .. } => reply is Position,
        RequestView::ImportIndex { .. } => reply is Status,
        RequestView::ExportIndex { .. } => reply is Status,
        RequestView::LastError { .. } => reply is Message,
        RequestView::LastGlobalError => reply is Message,
        RequestView::OpenFile { .. } => reply is Outcome,
        RequestView::Probe { .. } => reply is Found,
        RequestView::Canonicalize { .. } => reply is Resolved,
        RequestView::Parent { .. } => reply is Directory,
        RequestView::FileMode { .. } => reply is Mode,
        RequestView::CreateTemp { .. } => reply is Outcome,
        RequestView::SetTempMode { .. } => reply is Outcome,
        RequestView::PersistTemp { .. } => reply is Outcome,
        RequestView::DiscardTemp => reply is Finished,
        RequestView::SourceRead { .. } => reply is SourceCount || reply is Panicked,
        RequestView::SourceSeek { .. } => reply is SourceOffset || reply is Panicked,
        RequestView::SourcePosition => reply is SourceOffset || reply is Panicked,
        RequestView::SourceClone => reply is Cloned || reply is Panicked,
        RequestView::WriteTemp { .. } => reply is Written || reply is Panicked,
    }
}

/// Whether every call got a reply of the sort that it gives.
pub open spec fn all_fit(made: Seq<RequestView>, replies: Seq<ReplyView>) -> bool {
    forall|i: int| 0 <= i < made.len() ==> fits(#[trigger] made[i], replies[i])
}

/// If a property of steps is kept by every expected reply, and a step that has it
/// expects exactly what its call gives, then a run is fitting exactly if every call
/// of it got a reply of the sort that it gives.
pub(crate) proof fn lemma_fitting<O: Behavior>(
    step: StepView<O::Phase, O::Outcome>,
    replies: Seq<ReplyView>,
    kept: spec_fn(StepView<O::Phase, O::Outcome>) -> bool,
)
    requires
        kept(step),
        forall|request: RequestView, phase: O::Phase, reply: ReplyView|
            #![trigger kept(StepView::Call(request, phase)), O::expects(phase, reply)]
            kept(StepView::Call(request, phase)) ==> O::expects(phase, reply) == fits(
                request,
                reply,
            ),
        forall|request: RequestView, phase: O::Phase, reply: ReplyView|
            #![trigger kept(StepView::Call(request, phase)), O::next(phase, reply)]
            kept(StepView::Call(request, phase)) && O::expects(phase, reply) ==> kept(
                O::next(phase, reply),
            ),
    ensures
        fitting::<O>(step, replies) == all_fit(calls::<O>(step, replies), replies),
    decreases replies.len(),
{
    if let StepView::Call(request, phase) = step {
        if replies.len() > 0 {
            let next = O::next(phase, replies[0]);
            let rest = replies.drop_first();
            let made = calls::<O>(step, replies);
            let later = calls::<O>(next, rest);
            assert(kept(StepView::Call(request, phase)));
            assert(O::expects(phase, replies[0]) == fits(request, replies[0]));
            law_calls_are_answered::<O>(next, rest);
            assert(made == seq![request] + later);
            assert(made[0] == request);
            if fits(request, replies[0]) {
                lemma_fitting::<O>(next, rest, kept);
                if all_fit(later, rest) {
                    assert forall|i: int| 0 <= i < made.len() implies fits(
                        #[trigger] made[i],
                        replies[i],
                    ) by {
                        if i > 0 {
                            assert(made[i] == later[i - 1]);
                        }
                    }
                }
                if all_fit(made, replies) {
                    assert forall|i: int| 0 <= i < later.len() implies fits(
                        #[trigger] later[i],
                        rest[i],
                    ) by {
                        assert(made[i + 1] == later[i]);
                    }
                }
            } else {
                assert(!fits(made[0], replies[0]));
            }
        }
    }
}

/// Law: what is proved of a request is proved of the very call that the embedding
/// program gets to make: every number, handle, byte and character in it is shown as
/// it is.
pub proof fn law_requests_are_shown_as_they_are(request: Request)
    ensures
        match request {
            Request::OpenPath { path, config } => request@ == (RequestView::OpenPath {
                path: path@,
                config,
            }),
            Request::OpenCallbacks { callbacks, config } => request@
                == (RequestView::OpenCallbacks { callbacks, config }),
            Request::Close { reader } => request@ == (RequestView::Close { reader }),
            Request::Read { reader, len } => request@ == (RequestView::Read { reader, len }),
            Request::ReadDiscard { reader, len } => request@ == (RequestView::ReadDiscard {
                reader,
                len,
            }),
            Request::ReadToFd { reader, output_fd, len } => request@ == (RequestView::ReadToFd {
                reader,
                output_fd,
                len,
            }),
            Request::SetKeepIndex { reader, keep_index } => request@
                == (RequestView::SetKeepIndex { reader, keep_index }),
            Request::SeekTo { reader, offset } => request@ == (RequestView::SeekTo {
                reader,
                offset,
            }),
            Request::Tell { reader } => request@ == (RequestView::Tell { reader }),
            Request::ImportIndex { reader, callbacks } => request@ == (RequestView::ImportIndex {
                reader,
                callbacks,
            }),
            Request::ExportIndex { reader } => request@ == (RequestView::ExportIndex { reader }),
            Request::LastError { reader } => request@ == (RequestView::LastError { reader }),
            Request::LastGlobalError => request@ == RequestView::LastGlobalError,
            Request::OpenFile { path, kind } => request@ == (RequestView::OpenFile {
                path: path@,
                kind,
            }),
            Request::Probe { path } => request@ == (RequestView::Probe { path: path@ }),
            Request::Canonicalize { path } => request@ == (RequestView::Canonicalize {
                path: path@,
            }),
            Request::Parent { path } => request@ == (RequestView::Parent { path: path@ }),
            Request::FileMode { path } => request@ == (RequestView::FileMode { path: path@ }),
            Request::CreateTemp { dir, prefix, suffix } => request@ == (RequestView::CreateTemp {
                dir: dir@,
                prefix: prefix@,
                suffix: suffix@,
            }),
            Request::SetTempMode { mode } => request@ == (RequestView::SetTempMode { mode }),
            Request::PersistTemp { path } => request@ == (RequestView::PersistTemp {
                path: path@,
            }),
            Request::DiscardTemp => request@ == RequestView::DiscardTemp,
            Request::SourceRead { len } => request@ == (RequestView::SourceRead { len }),
            Request::SourceSeek { pos } => request@ == (RequestView::SourceSeek { pos }),
            Request::SourcePosition => request@ == RequestView::SourcePosition,
            Request::SourceClone => request@ == RequestView::SourceClone,
            Request::WriteTemp { size } => request@ == (RequestView::WriteTemp { size }),
        },
{
}

/// Law: what is proved of a reply is proved of the very reply that the embedding
/// program gave.
pub proof fn law_replies_are_shown_as_they_are(reply: Reply)
    ensures
        match reply {
            Reply::Opened { address, status } => reply@ == (ReplyView::Opened { address, status }),
            Reply::Status(status) => reply@ == ReplyView::Status(status),
            Reply::Transferred { status, count } => reply@ == (ReplyView::Transferred {
                status,
                count,
            }),
            Reply::Position { status, offset } => reply@ == (ReplyView::Position {
                status,
                offset,
            }),
            Reply::Message(Some(text)) => reply@ == ReplyView::Message(Some(text@)),
            Reply::Message(None) => reply@ == ReplyView::Message(None),
            Reply::Finished => reply@ == ReplyView::Finished,
            Reply::Outcome(Ok(_)) => reply@ == ReplyView::Outcome(Ok(())),
            Reply::Outcome(Err(text)) => reply@ == ReplyView::Outcome(Err(text@)),
            Reply::Found(found) => reply@ == ReplyView::Found(found),
            Reply::Resolved(Ok(path)) => reply@ == ReplyView::Resolved(Ok(path@)),
            Reply::Resolved(Err(text)) => reply@ == ReplyView::Resolved(Err(text@)),
            Reply::Directory(Some(dir)) => reply@ == ReplyView::Directory(Some(dir@)),
            Reply::Directory(None) => reply@ == ReplyView::Directory(None),
            Reply::Mode(ModeReport::Bits(bits)) => reply@ == ReplyView::Mode(
                ModeReportView::Bits(bits),
            ),
            Reply::Mode(ModeReport::Unavailable) => reply@ == ReplyView::Mode(
                ModeReportView::Unavailable,
            ),
            Reply::Mode(ModeReport::Missing) => reply@ == ReplyView::Mode(ModeReportView::Missing),
            Reply::Mode(ModeReport::Failed(text)) => reply@ == ReplyView::Mode(
                ModeReportView::Failed(text@),
            ),
            Reply::SourceCount(count) => reply@ == ReplyView::SourceCount(count),
            Reply::SourceOffset(offset) => reply@ == ReplyView::SourceOffset(offset),
            Reply::Cloned(address) => reply@ == ReplyView::Cloned(address),
            Reply::Written(written) => reply@ == ReplyView::Written(written),
            Reply::Panicked => reply@ == ReplyView::Panicked,
        },
{
}

} // verus!
