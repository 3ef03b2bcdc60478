//! Opening a reader: from a path, from a callback-backed source, or from a file
//! that is read through callbacks.

use vstd::pervasive::unreached;
use vstd::prelude::*;

use crate::builder::{
    config_of, default_settings, encodes, law_settings_are_encoded, ReaderBuilder, ReaderSettings,
};
use crate::error::{
    error_for, get_last_error, global_error_text, last_global_error, reader_error_text, Error,
    ErrorView,
};
use crate::protocol::{
    all_fit, calls, fitting, law_calls_are_answered, lemma_fitting, run, step_view, Behavior,
    Operation, Reply, ReplyView, Request, RequestView, Step, StepView,
};
use crate::reader::Reader;
use crate::sys::{rgz_callbacks_t, rgz_config_t, rgz_reader_t, rgz_status_t, CallbackEntry, SourceKind};
use crate::text::join;

verus! {

/// The table for sources that cannot be cloned: everything but `clone`.
pub open spec fn plain_table() -> rgz_callbacks_t {
    rgz_callbacks_t {
        read: Some(CallbackEntry::Read),
        seek: Some(CallbackEntry::Seek),
        get_size: Some(CallbackEntry::GetSize),
        clone: None,
        free_user_data: Some(CallbackEntry::FreeUserData),
    }
}

/// The table for sources that can be cloned.
pub open spec fn cloneable_table() -> rgz_callbacks_t {
    rgz_callbacks_t {
        read: Some(CallbackEntry::ReadCloneable),
        seek: Some(CallbackEntry::SeekCloneable),
        get_size: Some(CallbackEntry::GetSizeCloneable),
        clone: Some(CallbackEntry::CloneCloneable),
        free_user_data: Some(CallbackEntry::FreeUserDataCloneable),
    }
}

/// Returns the table for sources that cannot be cloned.
pub fn plain_callbacks() -> (table: rgz_callbacks_t)
    ensures
        table == plain_table(),
{
    rgz_callbacks_t {
        read: Some(CallbackEntry::Read),
        seek: Some(CallbackEntry::Seek),
        get_size: Some(CallbackEntry::GetSize),
        clone: None,
        free_user_data: Some(CallbackEntry::FreeUserData),
    }
}

/// Returns the table for sources that can be cloned.
pub fn cloneable_callbacks() -> (table: rgz_callbacks_t)
    ensures
        table == cloneable_table(),
{
    rgz_callbacks_t {
        read: Some(CallbackEntry::ReadCloneable),
        seek: Some(CallbackEntry::SeekCloneable),
        get_size: Some(CallbackEntry::GetSizeCloneable),
        clone: Some(CallbackEntry::CloneCloneable),
        free_user_data: Some(CallbackEntry::FreeUserDataCloneable),
    }
}

/// An open in progress.
pub enum Opening {
    /// Waits for the file that the source reads.
    File { config: rgz_config_t, keep_index: Option<bool> },
    /// Waits for the native open call.
    Native { keep_index: Option<bool> },
    /// The native open call failed; waits for the thread-wide error text.
    Failed { status: rgz_status_t },
    /// Waits for the index policy to be set.
    Configuring { reader: rgz_reader_t },
    /// Setting the index policy failed; waits for the reader's error text.
    Unconfigured { reader: rgz_reader_t, status: rgz_status_t },
    /// Waits for the reader that could not be configured to be closed.
    Abandoning { error: Error },
}

/// What an [`Opening`] says.
pub enum OpenPhase {
    File { config: rgz_config_t, keep_index: Option<bool> },
    Native { keep_index: Option<bool> },
    Failed { status: rgz_status_t },
    Configuring { reader: rgz_reader_t },
    Unconfigured { reader: rgz_reader_t, status: rgz_status_t },
    Abandoning { error: ErrorView },
}

/// The next move of an open.
pub type OpenStep = Step<Opening, Result<Reader, Error>>;

/// What an [`OpenStep`] says.
pub type OpenStepView = StepView<OpenPhase, Result<rgz_reader_t, ErrorView>>;

/// What follows once the native layer gave out a handle: set the index policy if
/// one was asked for, else the reader is ready.
pub open spec fn after_handle(reader: rgz_reader_t, keep_index: Option<bool>) -> OpenStepView {
    match keep_index {
        Some(keep) => StepView::Call(
            RequestView::SetKeepIndex { reader, keep_index: keep },
            OpenPhase::Configuring { reader },
        ),
        None => StepView::Done(Ok(reader)),
    }
}

impl Behavior for Opening {
    type Output = Result<Reader, Error>;

    type Phase = OpenPhase;

    type Outcome = Result<rgz_reader_t, ErrorView>;

    open spec fn phase(&self) -> OpenPhase {
        match *self {
            Opening::File { config, keep_index } => OpenPhase::File { config, keep_index },
            Opening::Native { keep_index } => OpenPhase::Native { keep_index },
            Opening::Failed { status } => OpenPhase::Failed { status },
            Opening::Configuring { reader } => OpenPhase::Configuring { reader },
            Opening::Unconfigured { reader, status } => OpenPhase::Unconfigured { reader, status },
            Opening::Abandoning { error } => OpenPhase::Abandoning { error: error@ },
        }
    }

    open spec fn outcome(output: Result<Reader, Error>) -> Result<rgz_reader_t, ErrorView> {
        match output {
            Ok(reader) => Ok(reader@),
            Err(error) => Err(error@),
        }
    }

    open spec fn expects(phase: OpenPhase, reply: ReplyView) -> bool {
        match phase {
            OpenPhase::File { .. } => reply is Outcome,
            OpenPhase::Native { .. } => reply is Opened,
            OpenPhase::Failed { .. } => reply is Message,
            OpenPhase::Configuring { .. } => reply is Status,
            OpenPhase::Unconfigured { .. } => reply is Message,
            OpenPhase::Abandoning { .. } => reply is Finished,
        }
    }

    open spec fn next(phase: OpenPhase, reply: ReplyView) -> OpenStepView {
        match (phase, reply) {
            (OpenPhase::File { .. }, ReplyView::Outcome(Err(text))) => StepView::Done(
                Err(ErrorView::Io(text)),
            ),
            (OpenPhase::File { config, keep_index }, ReplyView::Outcome(Ok(_))) => StepView::Call(
                RequestView::OpenCallbacks { callbacks: cloneable_table(), config },
                OpenPhase::Native { keep_index },
            ),
            (OpenPhase::Native { keep_index }, ReplyView::Opened { address, status }) => if address
                == 0 {
                StepView::Call(RequestView::LastGlobalError, OpenPhase::Failed { status })
            } else {
                after_handle(rgz_reader_t::at(address), keep_index)
            },
            (OpenPhase::Failed { status }, ReplyView::Message(text)) => StepView::Done(
                Err(error_for(status, global_error_text(text))),
            ),
            (OpenPhase::Configuring { reader }, ReplyView::Status(status)) => if status
                == rgz_status_t::RGZ_STATUS_OK {
                StepView::Done(Ok(reader))
            } else {
                StepView::Call(
                    RequestView::LastError { reader },
                    OpenPhase::Unconfigured { reader, status },
                )
            },
            (
                OpenPhase::Unconfigured { reader, status },
                ReplyView::Message(text),
            ) => StepView::Call(
                RequestView::Close { reader },
                OpenPhase::Abandoning {
                    error: error_for(
                        status,
                        Some(reader_error_text(text)),
                    ),
                },
            ),
            (OpenPhase::Abandoning { error }, ReplyView::Finished) => StepView::Done(Err(error)),
            _ => arbitrary(),
        }
    }

    open spec fn calls_left(phase: OpenPhase) -> nat {
        match phase {
            OpenPhase::File { .. } => 5,
            OpenPhase::Native { .. } => 4,
            OpenPhase::Configuring { .. } => 3,
            OpenPhase::Unconfigured { .. } => 2,
            OpenPhase::Failed { .. } => 1,
            OpenPhase::Abandoning { .. } => 1,
        }
    }

    proof fn calls_left_positive(phase: OpenPhase) {
    }

    proof fn calls_left_decrease(phase: OpenPhase, reply: ReplyView) {
    }
}

impl Operation for Opening {
    fn accepts(&self, reply: &Reply) -> (r: bool) {
        match self {
            Opening::File { .. } => matches!(reply, Reply::Outcome(_)),
            Opening::Native { .. } => matches!(reply, Reply::Opened { .. }),
            Opening::Failed { .. } => matches!(reply, Reply::Message(_)),
            Opening::Configuring { .. } => matches!(reply, Reply::Status(_)),
            Opening::Unconfigured { .. } => matches!(reply, Reply::Message(_)),
            Opening::Abandoning { .. } => matches!(reply, Reply::Finished),
        }
    }

    fn resume(self, reply: Reply) -> (step: OpenStep) {
        match (self, reply) {
            (Opening::File { .. }, Reply::Outcome(Err(text))) => Step::Done(Err(Error::Io(text))),
            (Opening::File { config, keep_index }, Reply::Outcome(Ok(_))) => Step::Call(
                Request::OpenCallbacks { callbacks: cloneable_callbacks(), config },
                Opening::Native { keep_index },
            ),
            (
                Opening::Native { keep_index },
                Reply::Opened { address, status },
            ) => match rgz_reader_t::from_address(address) {
                None => Step::Call(Request::LastGlobalError, Opening::Failed { status }),
                Some(reader) => match keep_index {
                    Some(keep) => Step::Call(
                        Request::SetKeepIndex { reader, keep_index: keep },
                        Opening::Configuring { reader },
                    ),
                    None => Step::Done(Ok(Reader::from_handle(reader))),
                },
            },
            (Opening::Failed { status }, Reply::Message(text)) => Step::Done(
                Err(Error::from_status_message(status, last_global_error(text))),
            ),
            (Opening::Configuring { reader }, Reply::Status(status)) => if status
                == rgz_status_t::RGZ_STATUS_OK {
                Step::Done(Ok(Reader::from_handle(reader)))
            } else {
                Step::Call(Request::LastError { reader }, Opening::Unconfigured { reader, status })
            },
            (Opening::Unconfigured { reader, status }, Reply::Message(text)) => {
                let message = get_last_error(text);
                Step::Call(
                    Request::Close { reader },
                    Opening::Abandoning {
                        error: Error::from_status_message(status, Some(message)),
                    },
                )
            },
            (Opening::Abandoning { error }, _) => Step::Done(Err(error)),
            (_, _) => unreached(),
        }
    }
}

/// The move that opens `path` with `settings`: a path with a NUL byte in it is no
/// native path and is refused, any other is handed on with its terminator.
pub open spec fn open_path_step(
    settings: ReaderSettings,
    path: Seq<u8>,
    display: Seq<char>,
) -> OpenStepView {
    if path.contains(0) {
        StepView::Done(
            Err(
                ErrorView::InvalidArgument(
                    "Path contains an interior NUL byte: "@ + display,
                ),
            ),
        )
    } else {
        StepView::Call(
            RequestView::OpenPath { path: path.push(0), config: config_of(settings) },
            OpenPhase::Native { keep_index: settings.keep_index },
        )
    }
}

/// The move that opens a callback-backed source with `settings`.
pub open spec fn open_callbacks_step(
    settings: ReaderSettings,
    callbacks: rgz_callbacks_t,
) -> OpenStepView {
    StepView::Call(
        RequestView::OpenCallbacks { callbacks, config: config_of(settings) },
        OpenPhase::Native { keep_index: settings.keep_index },
    )
}

/// The move that opens the file at `path` and then reads it through callbacks.
pub open spec fn open_file_step(settings: ReaderSettings, path: Seq<u8>) -> OpenStepView {
    StepView::Call(
        RequestView::OpenFile { path, kind: SourceKind::Cloneable },
        OpenPhase::File { config: config_of(settings), keep_index: settings.keep_index },
    )
}

/// Copies a path and appends the NUL terminator, unless there is a NUL byte in it
/// already.
fn nul_terminated(path: &[u8]) -> (r: Option<Vec<u8>>)
    ensures
        r is None <==> path@.contains(0),
        r matches Some(bytes) ==> bytes@ == path@.push(0),
{
    let mut bytes: Vec<u8> = Vec::with_capacity(path.len());
    for i in 0..path.len()
        invariant
            bytes@ == path@.take(i as int),
            forall|j: int| 0 <= j < i ==> path@[j] != 0,
    {
        if path[i] == 0 {
            assert(path@[i as int] == 0);
            return None;
        }
        bytes.push(path[i]);
        assert(path@.take(i + 1) == path@.take(i as int).push(path@[i as int]));
    }
    assert(path@.take(path@.len() as int) == path@);
    bytes.push(0);
    Some(bytes)
}

impl ReaderBuilder {
    /// Opens a gzip or BGZF file from a filesystem path, by the native path call.
    ///
    /// `path` is the path in the platform's own encoding, `display` the path as
    /// it is shown to users.
    pub fn open(&self, path: &[u8], display: &str) -> (step: OpenStep)
        ensures
            step_view::<Opening>(step) == open_path_step(self@, path@, display@),
    {
        match nul_terminated(path) {
            None => Step::Done(
                Err(Error::InvalidArgument(join("Path contains an interior NUL byte: ", display))),
            ),
            Some(bytes) => Step::Call(
                Request::OpenPath { path: bytes, config: self.to_ffi_config() },
                Opening::Native { keep_index: self.index_policy() },
            ),
        }
    }

    /// Opens a gzip or BGZF file as a cloneable source, for platforms without a
    /// byte-based native path call.
    pub fn open_through_file(&self, path: Vec<u8>) -> (step: OpenStep)
        ensures
            step_view::<Opening>(step) == open_file_step(self@, path@),
    {
        Step::Call(
            Request::OpenFile { path, kind: SourceKind::Cloneable },
            Opening::File { config: self.to_ffi_config(), keep_index: self.index_policy() },
        )
    }

    /// Opens a generic source that can be read and sought.
    ///
    /// Because generic readers cannot be cloned into independent handles, the
    /// native backend forces parallelism to `1` for this path.
    pub fn open_reader(&self) -> (step: OpenStep)
        ensures
            step_view::<Opening>(step) == open_callbacks_step(self@, plain_table()),
    {
        self.open_with_callbacks(plain_callbacks())
    }

    /// Opens a cloneable source.
    ///
    /// Use this path when callback-backed readers should support parallel
    /// decompression through independent clones.
    pub fn open_cloneable_reader(&self) -> (step: OpenStep)
        ensures
            step_view::<Opening>(step) == open_callbacks_step(self@, cloneable_table()),
    {
        self.open_with_callbacks(cloneable_callbacks())
    }

    fn open_with_callbacks(&self, callbacks: rgz_callbacks_t) -> (step: OpenStep)
        ensures
            step_view::<Opening>(step) == open_callbacks_step(self@, callbacks),
    {
        Step::Call(
            Request::OpenCallbacks { callbacks, config: self.to_ffi_config() },
            Opening::Native { keep_index: self.index_policy() },
        )
    }
}

impl Reader {
    /// Opens a gzip or BGZF file from a filesystem path using default settings.
    pub fn open(path: &[u8], display: &str) -> (step: OpenStep)
        ensures
            step_view::<Opening>(step) == open_path_step(default_settings(), path@, display@),
    {
        ReaderBuilder::new().open(path, display)
    }

    /// Opens a generic source that can be read and sought, with default settings.
    ///
    /// Because generic readers cannot be cloned into independent handles, the
    /// native backend forces parallelism to `1` for this path.
    pub fn open_reader() -> (step: OpenStep)
        ensures
            step_view::<Opening>(step) == open_callbacks_step(default_settings(), plain_table()),
    {
        ReaderBuilder::new().open_reader()
    }
}

/// Law: a path is handed to the native layer as a C string: one NUL byte, at its
/// end.
pub proof fn law_native_path_is_c_string(
    settings: ReaderSettings,
    path: Seq<u8>,
    display: Seq<char>,
)
    requires
        open_path_step(settings, path, display) is Call,
    ensures
        ({
            &&& open_path_step(settings, path, display)->Call_0 matches RequestView::OpenPath {
                path: native,
                ..
            }
            &&& native.drop_last() == path
            &&& native.last() == 0
            &&& forall|i: int| 0 <= i < native.len() - 1 ==> native[i] != 0
        }),
{
    let native = path.push(0);
    assert(native.drop_last() == path);
    assert forall|i: int| 0 <= i < native.len() - 1 implies native[i] != 0 by {
        assert(path.contains(path[i]));
    }
}

/// Law: only a cloneable source offers a way to clone it, and every source can be
/// read, sought, measured and freed.
pub proof fn law_callback_tables()
    ensures
        plain_table().clone is None,
        cloneable_table().clone is Some,
        forall|table: rgz_callbacks_t|
            #![auto]
            table == plain_table() || table == cloneable_table() ==> table.read is Some
                && table.seek is Some && table.get_size is Some && table.free_user_data is Some,
{
}

/// Whether a request closes a handle.
pub open spec fn closes(request: RequestView, reader: rgz_reader_t) -> bool {
    request == (RequestView::Close { reader })
}

/// Law: what opening comes to, and by which calls. The native layer is asked to
/// open once. A null address is an error with the thread-wide text; a handle is
/// the result, unless an index policy was asked for and refused.
pub proof fn law_open_outcome(request: RequestView, keep_index: Option<bool>, replies: Seq<ReplyView>)
    requires
        fitting::<Opening>(StepView::Call(request, OpenPhase::Native { keep_index }), replies),
        run::<Opening>(StepView::Call(request, OpenPhase::Native { keep_index }), replies) is Done,
    ensures
        ({
            let start: OpenStepView = StepView::Call(request, OpenPhase::Native { keep_index });
            let result = run::<Opening>(start, replies)->Done_0;
            let made = calls::<Opening>(start, replies);
            let reader = rgz_reader_t::at(replies[0]->Opened_address);
            &&& replies[0] is Opened
            &&& replies[0]->Opened_address == 0 ==> {
                &&& made == seq![request, RequestView::LastGlobalError]
                &&& replies[1] is Message
                &&& result == Err::<rgz_reader_t, ErrorView>(
                    error_for(
                        replies[0]->Opened_status,
                        global_error_text(replies[1]->Message_0),
                    ),
                )
            }
            &&& replies[0]->Opened_address != 0 && keep_index is None ==> {
                &&& made == seq![request]
                &&& result == Ok::<rgz_reader_t, ErrorView>(reader)
            }
            &&& replies[0]->Opened_address != 0 && keep_index is Some ==> {
                let configure = RequestView::SetKeepIndex { reader, keep_index: keep_index->0 };
                &&& replies[1] is Status
                &&& replies[1]->Status_0 == rgz_status_t::RGZ_STATUS_OK ==> {
                    &&& made == seq![request, configure]
                    &&& result == Ok::<rgz_reader_t, ErrorView>(reader)
                }
                &&& replies[1]->Status_0 != rgz_status_t::RGZ_STATUS_OK ==> {
                    &&& made == seq![
                        request,
                        configure,
                        RequestView::LastError { reader },
                        RequestView::Close { reader },
                    ]
                    &&& replies[2] is Message
                    &&& result == Err::<rgz_reader_t, ErrorView>(
                        error_for(
                            replies[1]->Status_0,
                            Some(reader_error_text(replies[2]->Message_0)),
                        ),
                    )
                }
            }
        }),
{
    let start: OpenStepView = StepView::Call(request, OpenPhase::Native { keep_index });
    reveal_with_fuel(run, 5);
    reveal_with_fuel(calls, 5);
    reveal_with_fuel(fitting, 5);
    let made = calls::<Opening>(start, replies);
    let reader = rgz_reader_t::at(replies[0]->Opened_address);
    if replies[0]->Opened_address == 0 {
        assert(made =~= seq![request, RequestView::LastGlobalError]);
    } else if let Some(keep) = keep_index {
        let configure = RequestView::SetKeepIndex { reader, keep_index: keep };
        if replies[1]->Status_0 == rgz_status_t::RGZ_STATUS_OK {
            assert(made =~= seq![request, configure]);
        } else {
            assert(made =~= seq![
                request,
                configure,
                RequestView::LastError { reader },
                RequestView::Close { reader },
            ]);
        }
    } else {
        assert(made =~= seq![request]);
    }
}

/// Law: no handle is leaked and none is closed too early. Once opening is over,
/// a handle that the native layer gave out is either the result, and was not
/// closed, or was closed by the very last call, and only then.
pub proof fn law_open_never_leaks_a_handle(
    request: RequestView,
    keep_index: Option<bool>,
    replies: Seq<ReplyView>,
)
    requires
        request is OpenPath || request is OpenCallbacks,
        fitting::<Opening>(StepView::Call(request, OpenPhase::Native { keep_index }), replies),
        run::<Opening>(StepView::Call(request, OpenPhase::Native { keep_index }), replies) is Done,
        replies[0]->Opened_address != 0,
    ensures
        ({
            let start: OpenStepView = StepView::Call(request, OpenPhase::Native { keep_index });
            let made = calls::<Opening>(start, replies);
            let reader = rgz_reader_t::at(replies[0]->Opened_address);
            match run::<Opening>(start, replies)->Done_0 {
                Ok(result) => result == reader && forall|i: int|
                    0 <= i < made.len() ==> !(#[trigger] made[i] is Close),
                Err(_) => closes(made.last(), reader) && forall|i: int|
                    0 <= i < made.len() - 1 ==> !(#[trigger] made[i] is Close),
            }
        }),
{
    law_open_outcome(request, keep_index, replies);
}

/// Law: opening through a file is opening the file as a cloneable source, and
/// after that opening that source. A file that cannot be opened is an I/O error with the
/// system's text, and the native layer is not called.
pub proof fn law_open_through_file(
    settings: ReaderSettings,
    path: Seq<u8>,
    replies: Seq<ReplyView>,
)
    requires
        replies.len() > 0,
        fitting::<Opening>(open_file_step(settings, path), replies),
    ensures
        ({
            let start = open_file_step(settings, path);
            let source = open_callbacks_step(settings, cloneable_table());
            match replies[0] {
                ReplyView::Outcome(Ok(_)) => {
                    &&& run::<Opening>(start, replies) == run::<Opening>(
                        source,
                        replies.drop_first(),
                    )
                    &&& calls::<Opening>(start, replies) == seq![RequestView::OpenFile { path, kind: SourceKind::Cloneable }]
                        + calls::<Opening>(source, replies.drop_first())
                },
                ReplyView::Outcome(Err(text)) => {
                    &&& run::<Opening>(start, replies) == OpenStepView::Done(
                        Err(ErrorView::Io(text)),
                    )
                    &&& calls::<Opening>(start, replies) == seq![RequestView::OpenFile { path, kind: SourceKind::Cloneable }]
                },
                _ => false,
            }
        }),
{
    reveal_with_fuel(run, 2);
    reveal_with_fuel(calls, 2);
    if replies[0]->Outcome_0 is Err {
        assert(calls::<Opening>(open_file_step(settings, path), replies) =~= seq![
            RequestView::OpenFile { path, kind: SourceKind::Cloneable },
        ]);
    }
}

/// Law: only a path with a NUL byte in it is refused, and the refusal shows the path.
/// For every other path, the first move is the native open call on exactly that path,
/// ended by a NUL byte, with every setting as it was set; the index policy is kept for
/// later.
pub proof fn law_open_path_asks_for_that_path(
    settings: ReaderSettings,
    path: Seq<u8>,
    display: Seq<char>,
)
    ensures
        match open_path_step(settings, path, display) {
            StepView::Done(result) => {
                &&& exists|i: int| 0 <= i < path.len() && #[trigger] path[i] == 0
                &&& result == Err::<rgz_reader_t, ErrorView>(
                    ErrorView::InvalidArgument("Path contains an interior NUL byte: "@ + display),
                )
            },
            StepView::Call(request, phase) => {
                &&& forall|i: int| 0 <= i < path.len() ==> #[trigger] path[i] != 0
                &&& request matches RequestView::OpenPath { path: native, config }
                &&& native.len() == path.len() + 1
                &&& forall|i: int| 0 <= i < path.len() ==> #[trigger] native[i] == path[i]
                &&& native[path.len() as int] == 0
                &&& encodes(config, settings)
                &&& phase == (OpenPhase::Native { keep_index: settings.keep_index })
            },
        },
{
    law_settings_are_encoded(settings);
    if !path.contains(0) {
        assert forall|i: int| 0 <= i < path.len() implies #[trigger] path[i] != 0 by {
            assert(path.contains(path[i]));
        }
    }
}

/// Law: a source is opened with the table it is offered with and with every setting as
/// it was set, and a file is opened as a cloneable source first, by exactly the path
/// that was given. Neither is ever refused beforehand.
pub proof fn law_open_source_asks_for_that_source(
    settings: ReaderSettings,
    callbacks: rgz_callbacks_t,
    path: Seq<u8>,
)
    ensures
        ({
            &&& open_callbacks_step(settings, callbacks) matches StepView::Call(request, phase)
            &&& request matches RequestView::OpenCallbacks { callbacks: table, config }
            &&& table == callbacks
            &&& encodes(config, settings)
            &&& phase == (OpenPhase::Native { keep_index: settings.keep_index })
        }),
        ({
            &&& open_file_step(settings, path) matches StepView::Call(request, phase)
            &&& request == (RequestView::OpenFile { path, kind: SourceKind::Cloneable })
            &&& phase matches OpenPhase::File { config, keep_index }
            &&& encodes(config, settings)
            &&& keep_index == settings.keep_index
        }),
{
    law_settings_are_encoded(settings);
}

/// The slots of a callback table.
pub enum CallbackSlot {
    Read,
    Seek,
    GetSize,
    Clone,
    FreeUserData,
}

/// What an entry point is for: the slot that it is made for and the kind of source
/// that it takes.
pub open spec fn entry_purpose(entry: CallbackEntry) -> (CallbackSlot, SourceKind) {
    match entry {
        CallbackEntry::Read => (CallbackSlot::Read, SourceKind::Plain),
        CallbackEntry::Seek => (CallbackSlot::Seek, SourceKind::Plain),
        CallbackEntry::GetSize => (CallbackSlot::GetSize, SourceKind::Plain),
        CallbackEntry::FreeUserData => (CallbackSlot::FreeUserData, SourceKind::Plain),
        CallbackEntry::ReadCloneable => (CallbackSlot::Read, SourceKind::Cloneable),
        CallbackEntry::SeekCloneable => (CallbackSlot::Seek, SourceKind::Cloneable),
        CallbackEntry::GetSizeCloneable => (CallbackSlot::GetSize, SourceKind::Cloneable),
        CallbackEntry::CloneCloneable => (CallbackSlot::Clone, SourceKind::Cloneable),
        CallbackEntry::FreeUserDataCloneable => (CallbackSlot::FreeUserData, SourceKind::Cloneable),
    }
}

/// Whether a slot is filled by the entry point that is made for it and for this kind
/// of source.
pub open spec fn filled_for(
    entry: Option<CallbackEntry>,
    slot: CallbackSlot,
    kind: SourceKind,
) -> bool {
    entry is Some && entry_purpose(entry->0) == (slot, kind)
}

/// Whether a table serves a kind of source: every slot is filled for it, but for the
/// one that clones, which is left empty for sources that cannot be cloned.
pub open spec fn serves(table: rgz_callbacks_t, kind: SourceKind) -> bool {
    &&& filled_for(table.read, CallbackSlot::Read, kind)
    &&& filled_for(table.seek, CallbackSlot::Seek, kind)
    &&& filled_for(table.get_size, CallbackSlot::GetSize, kind)
    &&& filled_for(table.free_user_data, CallbackSlot::FreeUserData, kind)
    &&& kind == SourceKind::Cloneable ==> filled_for(table.clone, CallbackSlot::Clone, kind)
    &&& kind == SourceKind::Plain ==> table.clone is None
}

/// Law: each slot of a table is filled by the entry point for that slot and that kind
/// of source; no entry point gets a source of the other kind.
pub proof fn law_tables_serve_their_sources()
    ensures
        serves(plain_table(), SourceKind::Plain),
        serves(cloneable_table(), SourceKind::Cloneable),
{
}

/// Whether a step is the first move of opening something.
pub open spec fn opens(start: OpenStepView) -> bool {
    ||| exists|settings: ReaderSettings, path: Seq<u8>, display: Seq<char>|
        start == #[trigger] open_path_step(settings, path, display)
    ||| exists|settings: ReaderSettings, callbacks: rgz_callbacks_t|
        start == #[trigger] open_callbacks_step(settings, callbacks)
    ||| exists|settings: ReaderSettings, path: Seq<u8>|
        start == #[trigger] open_file_step(settings, path)
}

/// Law: opening takes whatever the calls it asked for can give, and nothing else.
pub proof fn law_open_takes_every_reply(start: OpenStepView, replies: Seq<ReplyView>)
    requires
        opens(start),
    ensures
        fitting::<Opening>(start, replies) <==> all_fit(
            calls::<Opening>(start, replies),
            replies,
        ),
{
    let kept = |step: OpenStepView|
        match step {
            StepView::Done(_) => true,
            StepView::Call(q, phase) => match phase {
                OpenPhase::File { .. } => q is OpenFile,
                OpenPhase::Native { .. } => q is OpenPath || q is OpenCallbacks,
                OpenPhase::Failed { .. } => q is LastGlobalError,
                OpenPhase::Configuring { .. } => q is SetKeepIndex,
                OpenPhase::Unconfigured { .. } => q is LastError,
                OpenPhase::Abandoning { .. } => q is Close,
            },
        };
    lemma_fitting::<Opening>(start, replies, kept);
}

/// Whether a call that is made to open something did what it is for.
pub open spec fn open_call_succeeded(reply: ReplyView) -> bool {
    match reply {
        ReplyView::Outcome(outcome) => outcome is Ok,
        ReplyView::Opened { address, .. } => address != 0,
        ReplyView::Status(status) => status == rgz_status_t::RGZ_STATUS_OK,
        _ => false,
    }
}

/// Law: opening succeeds exactly if every call that it makes does, and then the reader
/// is the one at the address that the native layer gave out, whatever that is.
pub proof fn law_open_succeeds_if_its_calls_do(start: OpenStepView, replies: Seq<ReplyView>)
    requires
        opens(start),
        start is Call,
        fitting::<Opening>(start, replies),
        run::<Opening>(start, replies) is Done,
    ensures
        ({
            let made = calls::<Opening>(start, replies);
            let result = run::<Opening>(start, replies)->Done_0;
            &&& result is Ok <==> forall|i: int|
                0 <= i < made.len() ==> open_call_succeeded(#[trigger] replies[i])
            &&& result matches Ok(reader) ==> exists|i: int|
                0 <= i < made.len() && #[trigger] replies[i] is Opened && reader.spec_address()
                    == replies[i]->Opened_address
        }),
{
    reveal_with_fuel(run, 6);
    reveal_with_fuel(calls, 6);
    reveal_with_fuel(fitting, 6);
    let made = calls::<Opening>(start, replies);
    let native = if start->Call_1 is File {
        1int
    } else {
        0int
    };
    rgz_reader_t::law_at_address(replies[native]->Opened_address);
    law_calls_are_answered::<Opening>(start, replies);
    assert(replies.drop_first()[0] == replies[1] || replies.len() < 2);
    let result = run::<Opening>(start, replies)->Done_0;
    if result is Ok {
        assert(replies[native] is Opened);
        assert forall|i: int| 0 <= i < made.len() implies open_call_succeeded(
            #[trigger] replies[i],
        ) by {
            assert(made.len() <= 3);
        }
    } else {
        if start->Call_1 is File && replies[0]->Outcome_0 is Err {
            assert(!open_call_succeeded(replies[0]));
        } else if replies[native]->Opened_address == 0 {
            assert(!open_call_succeeded(replies[native]));
        } else {
            assert(!open_call_succeeded(replies[native + 1]));
        }
    }
}

/// Law: what is proved of the result of opening is proved of the very result that the
/// caller gets.
pub proof fn law_open_result_is_shown_as_it_is(reader: Reader, error: Error)
    ensures
        Opening::outcome(Ok(reader)) == Ok::<rgz_reader_t, ErrorView>(reader@),
        Opening::outcome(Err(error)) == Err::<rgz_reader_t, ErrorView>(error@),
{
}

} // verus!
