//! Exporting the random-access index.
//!
//! The index is written to a temporary file beside its destination, which is
//! then renamed into place, so that the destination holds either what it held
//! before or the whole index.

use vstd::pervasive::unreached;
use vstd::prelude::*;

use crate::error::{error_for, get_last_error, reader_error_text, Error, ErrorView};
use crate::protocol::{
    all_fit, calls, fitting, law_calls_are_answered, lemma_fitting, run, step_view, Behavior,
    ModeReport, ModeReportView, Operation, Reply, ReplyView, Request, RequestView, Step, StepView,
};
use crate::reader::Reader;
use crate::sys::{rgz_reader_t, rgz_status_t};

verus! {

/// An index export in progress. `target` is the file that the index goes to,
/// `found` whether something was at the path that was given, and `mode` the
/// permission bits that the target had.
pub enum Exporting {
    /// Waits to learn whether something is at the given path.
    Probing { reader: rgz_reader_t, path: Vec<u8> },
    /// Something is there; waits for the path to be resolved.
    Resolving { reader: rgz_reader_t },
    /// Waits for the directory of the target.
    Locating { reader: rgz_reader_t, target: Vec<u8>, found: bool },
    /// Waits for the permission bits of the target.
    Inspecting { reader: rgz_reader_t, target: Vec<u8>, found: bool, dir: Vec<u8> },
    /// Waits for the temporary file.
    Creating { reader: rgz_reader_t, target: Vec<u8>, mode: Option<u32> },
    /// Waits for the native layer to write the index.
    Writing { reader: rgz_reader_t, target: Vec<u8>, mode: Option<u32> },
    /// Writing failed; waits for the reader's error text.
    Unwritten { status: rgz_status_t },
    /// Waits for the temporary file to get the permission bits of the target.
    Restoring { target: Vec<u8> },
    /// Waits for the temporary file to take the place of the target.
    Persisting,
    /// Waits for the temporary file to be deleted.
    Abandoning { error: Error },
}

/// What an [`Exporting`] says.
pub enum ExportPhase {
    Probing { reader: rgz_reader_t, path: Seq<u8> },
    Resolving { reader: rgz_reader_t },
    Locating { reader: rgz_reader_t, target: Seq<u8>, found: bool },
    Inspecting { reader: rgz_reader_t, target: Seq<u8>, found: bool, dir: Seq<u8> },
    Creating { reader: rgz_reader_t, target: Seq<u8>, mode: Option<u32> },
    Writing { reader: rgz_reader_t, target: Seq<u8>, mode: Option<u32> },
    Unwritten { status: rgz_status_t },
    Restoring { target: Seq<u8> },
    Persisting,
    Abandoning { error: ErrorView },
}

/// The next move of an export.
pub type ExportStep = Step<Exporting, Result<(), Error>>;

/// What an [`ExportStep`] says.
pub type ExportStepView = StepView<ExportPhase, Result<(), ErrorView>>;

/// The first move of an export to `path`.
pub open spec fn export_step(reader: rgz_reader_t, path: Seq<u8>) -> ExportStepView {
    StepView::Call(RequestView::Probe { path }, ExportPhase::Probing { reader, path })
}

/// The move that follows once the file to write is known.
pub open spec fn locate_step(
    reader: rgz_reader_t,
    target: Seq<u8>,
    found: bool,
) -> ExportStepView {
    StepView::Call(
        RequestView::Parent { path: target },
        ExportPhase::Locating { reader, target, found },
    )
}

/// The permission bits that the replacement is to have, if any, or the text of the
/// error that keeps them from being known. A look-up that fails is an error only
/// where something was found that has bits to keep.
pub open spec fn target_mode(found: bool, report: ModeReportView) -> Result<
    Option<u32>,
    Seq<char>,
> {
    match report {
        ModeReportView::Bits(bits) => Ok(Some(bits)),
        ModeReportView::Unavailable => Ok(None),
        ModeReportView::Missing => Ok(None),
        ModeReportView::Failed(text) => if found {
            Err(text)
        } else {
            Ok(None)
        },
    }
}

/// The directory for the temporary file: that of the target, or the current
/// directory for a target that has none.
pub open spec fn temp_dir(parent: Option<Seq<u8>>) -> Seq<u8> {
    match parent {
        Some(dir) => dir,
        None => seq![46u8],
    }
}

/// The call that creates the temporary file in `dir`.
pub open spec fn create_temp(dir: Seq<u8>) -> RequestView {
    RequestView::CreateTemp { dir, prefix: ".rapidgzip-index."@, suffix: ".tmp"@ }
}

/// The move that puts the temporary file in the place of the target.
pub open spec fn persist_step(target: Seq<u8>) -> ExportStepView {
    StepView::Call(RequestView::PersistTemp { path: target }, ExportPhase::Persisting)
}

/// The move that gives up on an export that has a temporary file.
pub open spec fn abandon_step(error: ErrorView) -> ExportStepView {
    StepView::Call(RequestView::DiscardTemp, ExportPhase::Abandoning { error })
}

impl Behavior for Exporting {
    type Output = Result<(), Error>;

    type Phase = ExportPhase;

    type Outcome = Result<(), ErrorView>;

    open spec fn phase(&self) -> ExportPhase {
        match *self {
            Exporting::Probing { reader, path } => ExportPhase::Probing { reader, path: path@ },
            Exporting::Resolving { reader } => ExportPhase::Resolving { reader },
            Exporting::Locating { reader, target, found } => ExportPhase::Locating {
                reader,
                target: target@,
                found,
            },
            Exporting::Inspecting { reader, target, found, dir } => ExportPhase::Inspecting {
                reader,
                target: target@,
                found,
                dir: dir@,
            },
            Exporting::Creating { reader, target, mode } => ExportPhase::Creating {
                reader,
                target: target@,
                mode,
            },
            Exporting::Writing { reader, target, mode } => ExportPhase::Writing {
                reader,
                target: target@,
                mode,
            },
            Exporting::Unwritten { status } => ExportPhase::Unwritten { status },
            Exporting::Restoring { target } => ExportPhase::Restoring { target: target@ },
            Exporting::Persisting => ExportPhase::Persisting,
            Exporting::Abandoning { error } => ExportPhase::Abandoning { error: error@ },
        }
    }

    open spec fn outcome(output: Result<(), Error>) -> Result<(), ErrorView> {
        match output {
            Ok(_) => Ok(()),
            Err(error) => Err(error@),
        }
    }

    open spec fn expects(phase: ExportPhase, reply: ReplyView) -> bool {
        match phase {
            ExportPhase::Probing { .. } => reply is Found,
            ExportPhase::Resolving { .. } => reply is Resolved,
            ExportPhase::Locating { .. } => reply is Directory,
            ExportPhase::Inspecting { .. } => reply is Mode,
            ExportPhase::Creating { .. } => reply is Outcome,
            ExportPhase::Writing { .. } => reply is Status,
            ExportPhase::Unwritten { .. } => reply is Message,
            ExportPhase::Restoring { .. } => reply is Outcome,
            ExportPhase::Persisting => reply is Outcome,
            ExportPhase::Abandoning { .. } => reply is Finished,
        }
    }

    open spec fn next(phase: ExportPhase, reply: ReplyView) -> ExportStepView {
        match (phase, reply) {
            (ExportPhase::Probing { reader, path }, ReplyView::Found(found)) => if found {
                StepView::Call(
                    RequestView::Canonicalize { path },
                    ExportPhase::Resolving { reader },
                )
            } else {
                locate_step(reader, path, false)
            },
            (ExportPhase::Resolving { .. }, ReplyView::Resolved(Err(text))) => StepView::Done(
                Err(ErrorView::Io(text)),
            ),
            (ExportPhase::Resolving { reader }, ReplyView::Resolved(Ok(path))) => locate_step(
                reader,
                path,
                true,
            ),
            (
                ExportPhase::Locating { reader, target, found },
                ReplyView::Directory(parent),
            ) => StepView::Call(
                RequestView::FileMode { path: target },
                ExportPhase::Inspecting { reader, target, found, dir: temp_dir(parent) },
            ),
            (
                ExportPhase::Inspecting { reader, target, found, dir },
                ReplyView::Mode(report),
            ) => match target_mode(found, report) {
                Ok(mode) => StepView::Call(
                    create_temp(dir),
                    ExportPhase::Creating { reader, target, mode },
                ),
                Err(text) => StepView::Done(Err(ErrorView::Io(text))),
            },
            (ExportPhase::Creating { .. }, ReplyView::Outcome(Err(text))) => StepView::Done(
                Err(ErrorView::Io(text)),
            ),
            (
                ExportPhase::Creating { reader, target, mode },
                ReplyView::Outcome(Ok(_)),
            ) => StepView::Call(
                RequestView::ExportIndex { reader },
                ExportPhase::Writing { reader, target, mode },
            ),
            (
                ExportPhase::Writing { reader, target, mode },
                ReplyView::Status(status),
            ) => if status != rgz_status_t::RGZ_STATUS_OK {
                StepView::Call(RequestView::LastError { reader }, ExportPhase::Unwritten { status })
            } else {
                match mode {
                    Some(bits) => StepView::Call(
                        RequestView::SetTempMode { mode: bits },
                        ExportPhase::Restoring { target },
                    ),
                    None => persist_step(target),
                }
            },
            (ExportPhase::Unwritten { status }, ReplyView::Message(text)) => abandon_step(
                error_for(status, Some(reader_error_text(text))),
            ),
            (ExportPhase::Restoring { target }, ReplyView::Outcome(Ok(_))) => persist_step(target),
            (ExportPhase::Restoring { .. }, ReplyView::Outcome(Err(text))) => abandon_step(
                ErrorView::Io(text),
            ),
            (ExportPhase::Persisting, ReplyView::Outcome(Ok(_))) => StepView::Done(Ok(())),
            (ExportPhase::Persisting, ReplyView::Outcome(Err(text))) => abandon_step(
                ErrorView::Io(text),
            ),
            (ExportPhase::Abandoning { error }, ReplyView::Finished) => StepView::Done(Err(error)),
            _ => arbitrary(),
        }
    }

    open spec fn calls_left(phase: ExportPhase) -> nat {
        match phase {
            ExportPhase::Probing { .. } => 9,
            ExportPhase::Resolving { .. } => 8,
            ExportPhase::Locating { .. } => 7,
            ExportPhase::Inspecting { .. } => 6,
            ExportPhase::Creating { .. } => 5,
            ExportPhase::Writing { .. } => 4,
            ExportPhase::Restoring { .. } => 3,
            ExportPhase::Unwritten { .. } => 2,
            ExportPhase::Persisting => 2,
            ExportPhase::Abandoning { .. } => 1,
        }
    }

    proof fn calls_left_positive(phase: ExportPhase) {
    }

    proof fn calls_left_decrease(phase: ExportPhase, reply: ReplyView) {
    }
}

impl Operation for Exporting {
    fn accepts(&self, reply: &Reply) -> (r: bool) {
        match self {
            Exporting::Probing { .. } => matches!(reply, Reply::Found(_)),
            Exporting::Resolving { .. } => matches!(reply, Reply::Resolved(_)),
            Exporting::Locating { .. } => matches!(reply, Reply::Directory(_)),
            Exporting::Inspecting { .. } => matches!(reply, Reply::Mode(_)),
            Exporting::Creating { .. } => matches!(reply, Reply::Outcome(_)),
            Exporting::Writing { .. } => matches!(reply, Reply::Status(_)),
            Exporting::Unwritten { .. } => matches!(reply, Reply::Message(_)),
            Exporting::Restoring { .. } => matches!(reply, Reply::Outcome(_)),
            Exporting::Persisting => matches!(reply, Reply::Outcome(_)),
            Exporting::Abandoning { .. } => matches!(reply, Reply::Finished),
        }
    }

    fn resume(self, reply: Reply) -> (step: ExportStep) {
        match (self, reply) {
            (Exporting::Probing { reader, path }, Reply::Found(found)) => {
                // Whatever is at the path, a link included, has to resolve; a
                // link that does not is never written over.
                if found {
                    Step::Call(Request::Canonicalize { path }, Exporting::Resolving { reader })
                } else {
                    locate(reader, path, false)
                }
            },
            (Exporting::Resolving { .. }, Reply::Resolved(Err(text))) => Step::Done(
                Err(Error::Io(text)),
            ),
            (Exporting::Resolving { reader }, Reply::Resolved(Ok(path))) => locate(
                reader,
                path,
                true,
            ),
            (Exporting::Locating { reader, target, found }, Reply::Directory(parent)) => {
                let dir: Vec<u8> = match parent {
                    Some(dir) => dir,
                    None => {
                        let dot: Vec<u8> = vec![46u8];
                        assert(dot@ == temp_dir(None));
                        dot
                    },
                };
                Step::Call(
                    Request::FileMode { path: target.clone() },
                    Exporting::Inspecting { reader, target, found, dir },
                )
            },
            (Exporting::Inspecting { reader, target, found, dir }, Reply::Mode(report)) => {
                match mode_to_keep(found, report) {
                    Ok(mode) => Step::Call(
                        Request::CreateTemp { dir, prefix: ".rapidgzip-index.", suffix: ".tmp" },
                        Exporting::Creating { reader, target, mode },
                    ),
                    Err(text) => Step::Done(Err(Error::Io(text))),
                }
            },
            (Exporting::Creating { .. }, Reply::Outcome(Err(text))) => Step::Done(
                Err(Error::Io(text)),
            ),
            (Exporting::Creating { reader, target, mode }, Reply::Outcome(Ok(_))) => Step::Call(
                Request::ExportIndex { reader },
                Exporting::Writing { reader, target, mode },
            ),
            (Exporting::Writing { reader, target, mode }, Reply::Status(status)) => {
                if status != rgz_status_t::RGZ_STATUS_OK {
                    Step::Call(Request::LastError { reader }, Exporting::Unwritten { status })
                } else {
                    match mode {
                        Some(bits) => Step::Call(
                            Request::SetTempMode { mode: bits },
                            Exporting::Restoring { target },
                        ),
                        None => Step::Call(
                            Request::PersistTemp { path: target },
                            Exporting::Persisting,
                        ),
                    }
                }
            },
            (Exporting::Unwritten { status }, Reply::Message(text)) => {
                let message = get_last_error(text);
                Step::Call(
                    Request::DiscardTemp,
                    Exporting::Abandoning {
                        error: Error::from_status_message(status, Some(message)),
                    },
                )
            },
            (Exporting::Restoring { target }, Reply::Outcome(Ok(_))) => Step::Call(
                Request::PersistTemp { path: target },
                Exporting::Persisting,
            ),
            // A file is not replaced by one with other permissions.
            (Exporting::Restoring { .. }, Reply::Outcome(Err(text))) => Step::Call(
                Request::DiscardTemp,
                Exporting::Abandoning { error: Error::Io(text) },
            ),
            (Exporting::Persisting, Reply::Outcome(Ok(_))) => Step::Done(Ok(())),
            (Exporting::Persisting, Reply::Outcome(Err(text))) => Step::Call(
                Request::DiscardTemp,
                Exporting::Abandoning { error: Error::Io(text) },
            ),
            (Exporting::Abandoning { error }, _) => Step::Done(Err(error)),
            (_, _) => unreached(),
        }
    }
}

/// Makes the move that follows once the file to write is known.
fn locate(reader: rgz_reader_t, target: Vec<u8>, found: bool) -> (step: ExportStep)
    ensures
        step_view::<Exporting>(step) == locate_step(reader, target@, found),
{
    Step::Call(
        Request::Parent { path: target.clone() },
        Exporting::Locating { reader, target, found },
    )
}

/// Decides which permission bits the replacement is to have.
fn mode_to_keep(found: bool, report: ModeReport) -> (mode: Result<Option<u32>, String>)
    ensures
        match mode {
            Ok(bits) => target_mode(found, report@) == Ok::<Option<u32>, Seq<char>>(bits),
            Err(text) => target_mode(found, report@) == Err::<Option<u32>, Seq<char>>(text@),
        },
{
    match report {
        ModeReport::Bits(bits) => Ok(Some(bits)),
        ModeReport::Unavailable | ModeReport::Missing => Ok(None),
        ModeReport::Failed(text) => if found {
            Err(text)
        } else {
            Ok(None)
        },
    }
}

impl Reader {
    /// Exports the current random-access index to a file.
    ///
    /// The index goes into a temporary file in the same directory first, which is
    /// then renamed into place. This ensures the output file is never left in a
    /// partially written state if an error occurs mid-export.
    ///
    /// If something is at `path` already, the file that it resolves to is
    /// replaced, and the replacement has its permission bits. A link that does
    /// not resolve is an error, and so are permission bits that cannot be read or
    /// cannot be set; the file is then left as it was. Other hard links to the replaced file keep the old index.
    pub fn export_index(&mut self, path: Vec<u8>) -> (step: ExportStep)
        ensures
            *final(self) == *old(self),
            step_view::<Exporting>(step) == export_step(old(self)@, path@),
    {
        let reader = self.handle();
        Step::Call(Request::Probe { path: path.clone() }, Exporting::Probing { reader, path })
    }
}

/// Law: where an export goes. With nothing at the path, the path itself is the
/// target. Whatever is there has to resolve: the target is what it resolves to,
/// and if it does not, the export fails with the system's text before any file
/// is created.
pub proof fn law_export_target(reader: rgz_reader_t, path: Seq<u8>, replies: Seq<ReplyView>)
    requires
        replies.len() >= 2,
        fitting::<Exporting>(export_step(reader, path), replies),
    ensures
        ({
            let start = export_step(reader, path);
            let probe = RequestView::Probe { path };
            let resolve = RequestView::Canonicalize { path };
            let end = run::<Exporting>(start, replies);
            let made = calls::<Exporting>(start, replies);
            match (replies[0], replies[1]) {
                (ReplyView::Found(false), _) => {
                    let rest = replies.drop_first();
                    &&& end == run::<Exporting>(locate_step(reader, path, false), rest)
                    &&& made == seq![probe] + calls::<Exporting>(
                        locate_step(reader, path, false),
                        rest,
                    )
                },
                (ReplyView::Found(true), ReplyView::Resolved(Ok(target))) => {
                    let rest = replies.drop_first().drop_first();
                    &&& end == run::<Exporting>(locate_step(reader, target, true), rest)
                    &&& made == seq![probe, resolve] + calls::<Exporting>(
                        locate_step(reader, target, true),
                        rest,
                    )
                },
                (ReplyView::Found(true), ReplyView::Resolved(Err(text))) => {
                    &&& end == ExportStepView::Done(Err(ErrorView::Io(text)))
                    &&& made == seq![probe, resolve]
                },
                _ => false,
            }
        }),
{
    reveal_with_fuel(run, 3);
    reveal_with_fuel(calls, 3);
    reveal_with_fuel(fitting, 3);
    let probe = RequestView::Probe { path };
    let resolve = RequestView::Canonicalize { path };
    let made = calls::<Exporting>(export_step(reader, path), replies);
    if replies[0] == ReplyView::Found(true) {
        match replies[1] {
            ReplyView::Resolved(Ok(target)) => {
                let rest = replies.drop_first().drop_first();
                assert(made =~= seq![probe, resolve] + calls::<Exporting>(
                    locate_step(reader, target, true),
                    rest,
                ));
            },
            _ => {
                assert(made =~= seq![probe, resolve]);
            },
        }
    }
}

/// The calls that write the index and put it in place: with the permission bits
/// of the target first, if it had any.
pub open spec fn place_calls(
    reader: rgz_reader_t,
    target: Seq<u8>,
    mode: Option<u32>,
) -> Seq<RequestView> {
    match mode {
        Some(bits) => seq![
            RequestView::ExportIndex { reader },
            RequestView::SetTempMode { mode: bits },
            RequestView::PersistTemp { path: target },
        ],
        None => seq![
            RequestView::ExportIndex { reader },
            RequestView::PersistTemp { path: target },
        ],
    }
}

/// The calls that look at the target and at where it lies.
pub open spec fn inspect_calls(target: Seq<u8>) -> Seq<RequestView> {
    seq![RequestView::Parent { path: target }, RequestView::FileMode { path: target }]
}

/// Law: what an export to `target` comes to, and by which calls. Where something was
/// found, permission bits that cannot be read are an error before any file is
/// created; where nothing was, they do not matter. The temporary
/// file is created beside the target. If the native layer cannot write the
/// index, its text is the error and the temporary file is deleted. If it can, the
/// temporary file gets the permission bits that the target had and takes its
/// place; where one or the other fails, the system's text is the error and the
/// temporary file is deleted too.
pub proof fn law_export_outcome(
    reader: rgz_reader_t,
    target: Seq<u8>,
    found: bool,
    replies: Seq<ReplyView>,
)
    requires
        fitting::<Exporting>(locate_step(reader, target, found), replies),
        run::<Exporting>(locate_step(reader, target, found), replies) is Done,
    ensures
        ({
            let start = locate_step(reader, target, found);
            let made = calls::<Exporting>(start, replies);
            let result = run::<Exporting>(start, replies)->Done_0;
            &&& replies[0] is Directory
            &&& replies[1] is Mode
            &&& match target_mode(found, replies[1]->Mode_0) {
                Err(text) => made == inspect_calls(target) && result == Err::<(), ErrorView>(
                    ErrorView::Io(text),
                ),
                Ok(mode) => {
                    let prepare = inspect_calls(target).push(
                        create_temp(temp_dir(replies[0]->Directory_0)),
                    );
                    let place = place_calls(reader, target, mode);
                    &&& replies[2] is Outcome
                    &&& match replies[2]->Outcome_0 {
                        Err(text) => made == prepare && result == Err::<(), ErrorView>(
                            ErrorView::Io(text),
                        ),
                        Ok(_) => {
                            &&& replies[3] is Status
                            &&& if replies[3]->Status_0 != rgz_status_t::RGZ_STATUS_OK {
                                &&& replies[4] is Message
                                &&& made == prepare + seq![
                                    RequestView::ExportIndex { reader },
                                    RequestView::LastError { reader },
                                    RequestView::DiscardTemp,
                                ]
                                &&& result == Err::<(), ErrorView>(
                                    error_for(
                                        replies[3]->Status_0,
                                        Some(reader_error_text(replies[4]->Message_0)),
                                    ),
                                )
                            } else if mode is Some && replies[4]->Outcome_0 is Err {
                                &&& replies[4] is Outcome
                                &&& made == prepare + seq![
                                    RequestView::ExportIndex { reader },
                                    RequestView::SetTempMode { mode: mode->0 },
                                    RequestView::DiscardTemp,
                                ]
                                &&& result == Err::<(), ErrorView>(
                                    ErrorView::Io(replies[4]->Outcome_0->Err_0),
                                )
                            } else {
                                let placed = replies[2 + place.len() as int];
                                &&& mode is Some ==> replies[4] is Outcome
                                &&& placed is Outcome
                                &&& match placed->Outcome_0 {
                                    Ok(_) => made == prepare + place && result == Ok::<
                                        (),
                                        ErrorView,
                                    >(()),
                                    Err(text) => made == prepare + place + seq![
                                        RequestView::DiscardTemp,
                                    ] && result == Err::<(), ErrorView>(ErrorView::Io(text)),
                                }
                            }
                        },
                    }
                },
            }
        }),
{
    reveal_with_fuel(run, 9);
    reveal_with_fuel(calls, 9);
    reveal_with_fuel(fitting, 9);
    let made = calls::<Exporting>(locate_step(reader, target, found), replies);
    if target_mode(found, replies[1]->Mode_0) is Err {
        assert(made =~= inspect_calls(target));
    } else {
        let mode = target_mode(found, replies[1]->Mode_0)->Ok_0;
        let prepare = inspect_calls(target).push(create_temp(temp_dir(replies[0]->Directory_0)));
        let place = place_calls(reader, target, mode);
        if replies[2]->Outcome_0 is Err {
            assert(made =~= prepare);
        } else if replies[3]->Status_0 != rgz_status_t::RGZ_STATUS_OK {
            assert(made =~= prepare + seq![
                RequestView::ExportIndex { reader },
                RequestView::LastError { reader },
                RequestView::DiscardTemp,
            ]);
        } else if mode is Some && replies[4]->Outcome_0 is Err {
            assert(made =~= prepare + seq![
                RequestView::ExportIndex { reader },
                RequestView::SetTempMode { mode: mode->0 },
                RequestView::DiscardTemp,
            ]);
        } else if replies[2 + place.len() as int]->Outcome_0 is Ok {
            assert(made =~= prepare + place);
        } else {
            assert(made =~= prepare + place + seq![RequestView::DiscardTemp]);
        }
    }
}

/// Whether a step asks for the call whose reply its state waits for. Every export
/// starts so and stays so.
pub open spec fn coherent(step: ExportStepView) -> bool {
    match step {
        StepView::Done(_) => true,
        StepView::Call(request, phase) => match phase {
            ExportPhase::Probing { path, .. } => request == (RequestView::Probe { path }),
            ExportPhase::Resolving { .. } => request is Canonicalize,
            ExportPhase::Locating { target, .. } => request == (RequestView::Parent {
                path: target,
            }),
            ExportPhase::Inspecting { target, .. } => request == (RequestView::FileMode {
                path: target,
            }),
            ExportPhase::Creating { .. } => request is CreateTemp,
            ExportPhase::Writing { reader, .. } => request == (RequestView::ExportIndex { reader }),
            ExportPhase::Unwritten { .. } => request is LastError,
            ExportPhase::Restoring { .. } => request is SetTempMode,
            ExportPhase::Persisting => request is PersistTemp,
            ExportPhase::Abandoning { .. } => request == RequestView::DiscardTemp,
        },
    }
}

/// Whether the index is written once this step is reached.
pub open spec fn index_written(step: ExportStepView) -> bool {
    step matches StepView::Call(_, phase) && (phase is Restoring || phase is Persisting)
}

/// Whether the `i`th call put the temporary file in the place of the target.
pub open spec fn replaced_target(made: Seq<RequestView>, replies: Seq<ReplyView>, i: int) -> bool {
    made[i] is PersistTemp && replies[i] matches ReplyView::Outcome(Ok(_))
}

/// Whether the `j`th call wrote the whole index into the temporary file.
pub open spec fn wrote_index(made: Seq<RequestView>, replies: Seq<ReplyView>, j: int) -> bool {
    made[j] is ExportIndex && replies[j] == ReplyView::Status(rgz_status_t::RGZ_STATUS_OK)
}

proof fn lemma_replacement(step: ExportStepView, replies: Seq<ReplyView>)
    requires
        coherent(step),
        fitting::<Exporting>(step, replies),
        !(step matches StepView::Done(Ok(_))),
    ensures
        run::<Exporting>(step, replies) matches StepView::Done(Ok(_)) ==> {
            let made = calls::<Exporting>(step, replies);
            made.len() > 0 && replaced_target(made, replies, made.len() - 1)
        },
        forall|i: int|
            0 <= i < calls::<Exporting>(step, replies).len() && #[trigger] replaced_target(
                calls::<Exporting>(step, replies),
                replies,
                i,
            ) ==> i == calls::<Exporting>(step, replies).len() - 1 && run::<Exporting>(
                step,
                replies,
            ) == ExportStepView::Done(Ok(())),
        !index_written(step) ==> forall|i: int|
            0 <= i < calls::<Exporting>(step, replies).len() && (#[trigger] calls::<Exporting>(
                step,
                replies,
            )[i]) is PersistTemp ==> exists|j: int|
                0 <= j < i && #[trigger] wrote_index(
                    calls::<Exporting>(step, replies),
                    replies,
                    j,
                ),
    decreases replies.len(),
{
    if let StepView::Call(request, phase) = step {
        if replies.len() > 0 {
            let next = Exporting::next(phase, replies[0]);
            let rest = replies.drop_first();
            let made = calls::<Exporting>(step, replies);
            let later = calls::<Exporting>(next, rest);
            law_calls_are_answered::<Exporting>(next, rest);
            assert(made == seq![request] + later);
            assert(forall|i: int| 1 <= i < made.len() ==> made[i] == later[i - 1]);
            assert(forall|i: int| 1 <= i < replies.len() ==> replies[i] == rest[i - 1]);
            if next matches StepView::Done(Ok(_)) {
                assert(later.len() == 0);
                assert(replaced_target(made, replies, 0));
            } else {
                lemma_replacement(next, rest);
                assert forall|i: int|
                    0 <= i < made.len() && #[trigger] replaced_target(made, replies, i) implies i
                    == made.len() - 1 && run::<Exporting>(step, replies) == ExportStepView::Done(
                    Ok(()),
                ) by {
                    if i > 0 {
                        assert(replaced_target(later, rest, i - 1));
                    }
                }
                if run::<Exporting>(step, replies) matches StepView::Done(Ok(_)) {
                    assert(replaced_target(later, rest, later.len() - 1));
                    assert(replaced_target(made, replies, made.len() - 1));
                }
                if !index_written(step) {
                    assert forall|i: int|
                        0 <= i < made.len() && (#[trigger] made[i]) is PersistTemp implies exists|
                        j: int,
                    |
                        0 <= j < i && #[trigger] wrote_index(made, replies, j) by {
                        if index_written(next) {
                            assert(wrote_index(made, replies, 0));
                        } else {
                            assert(later[i - 1] is PersistTemp);
                            let j = choose|j: int|
                                0 <= j < i - 1 && #[trigger] wrote_index(later, rest, j);
                            assert(wrote_index(made, replies, j + 1));
                        }
                    }
                }
            }
        }
    }
}

/// Law: the destination is replaced at once or not at all. At whatever point an
/// export stops, the target was replaced only if the export succeeded, by its
/// last call, and was not to be replaced before the whole index was written. An
/// export that fails leaves the target as it was.
pub proof fn law_export_is_atomic(reader: rgz_reader_t, path: Seq<u8>, replies: Seq<ReplyView>)
    requires
        fitting::<Exporting>(export_step(reader, path), replies),
    ensures
        ({
            let start = export_step(reader, path);
            let made = calls::<Exporting>(start, replies);
            let end = run::<Exporting>(start, replies);
            &&& end == ExportStepView::Done(Ok(())) <==> exists|i: int|
                0 <= i < made.len() && #[trigger] replaced_target(made, replies, i)
            &&& forall|i: int|
                0 <= i < made.len() && #[trigger] replaced_target(made, replies, i) ==> i
                    == made.len() - 1
            &&& forall|i: int|
                0 <= i < made.len() && (#[trigger] made[i]) is PersistTemp ==> exists|j: int|
                    0 <= j < i && #[trigger] wrote_index(made, replies, j)
        }),
{
    lemma_replacement(export_step(reader, path), replies);
}

/// Whether an export found something at the path it was given.
pub open spec fn found_entry(replies: Seq<ReplyView>) -> bool {
    replies[0] == ReplyView::Found(true)
}

/// The file that an export to `path` goes to: what the path resolved to if
/// something was there, else the path itself.
pub open spec fn export_target(path: Seq<u8>, replies: Seq<ReplyView>) -> Seq<u8> {
    if found_entry(replies) {
        replies[1]->Resolved_0->Ok_0
    } else {
        path
    }
}

/// The number of calls that find out where an export goes.
pub open spec fn target_calls(replies: Seq<ReplyView>) -> int {
    if found_entry(replies) {
        2
    } else {
        1
    }
}

/// An export that is over either failed to find its target, without a change to
/// any file, or is the export to that target after the calls that found it.
pub(crate) proof fn lemma_whole_export(reader: rgz_reader_t, path: Seq<u8>, replies: Seq<ReplyView>)
    requires
        fitting::<Exporting>(export_step(reader, path), replies),
        run::<Exporting>(export_step(reader, path), replies) is Done,
    ensures
        ({
            let made = calls::<Exporting>(export_step(reader, path), replies);
            let skip = target_calls(replies);
            let start = locate_step(reader, export_target(path, replies), found_entry(replies));
            let rest = replies.skip(skip);
            let later = calls::<Exporting>(start, rest);
            ||| {
                &&& made == seq![RequestView::Probe { path }, RequestView::Canonicalize { path }]
                &&& run::<Exporting>(export_step(reader, path), replies) matches StepView::Done(
                    Err(_),
                )
            }
            ||| {
                &&& made.len() <= replies.len()
                &&& fitting::<Exporting>(start, rest)
                &&& run::<Exporting>(start, rest) == run::<Exporting>(
                    export_step(reader, path),
                    replies,
                )
                &&& made.len() == skip + later.len()
                &&& forall|i: int| skip <= i < made.len() ==> made[i] == later[i - skip]
                &&& forall|i: int|
                    0 <= i < skip ==> made[i] is Probe || (#[trigger] made[i]) is Canonicalize
            }
        }),
{
    reveal_with_fuel(run, 3);
    reveal_with_fuel(fitting, 3);
    law_export_target(reader, path, replies);
    law_calls_are_answered::<Exporting>(export_step(reader, path), replies);
    assert(replies.skip(1) == replies.drop_first());
    assert(replies.skip(2) == replies.drop_first().drop_first());
}

/// Law: permissions are kept, and a link is followed. What an export replaces is
/// the file that the path resolved to. If that file had permission bits, then
/// setting exactly these on the temporary file is the call right before the one
/// that puts it in the file's place, and it succeeded. Otherwise no bits are set.
/// Where something was found and its bits could not be read, nothing is replaced.
pub proof fn law_export_keeps_permissions(
    reader: rgz_reader_t,
    path: Seq<u8>,
    replies: Seq<ReplyView>,
    i: int,
)
    requires
        fitting::<Exporting>(export_step(reader, path), replies),
        run::<Exporting>(export_step(reader, path), replies) is Done,
        0 <= i < calls::<Exporting>(export_step(reader, path), replies).len(),
        calls::<Exporting>(export_step(reader, path), replies)[i] is PersistTemp,
    ensures
        ({
            let made = calls::<Exporting>(export_step(reader, path), replies);
            let target = export_target(path, replies);
            let inspected = target_calls(replies) + 1;
            &&& made[i] == (RequestView::PersistTemp { path: target })
            &&& made[inspected] == (RequestView::FileMode { path: target })
            &&& replies[inspected] is Mode
            &&& found_entry(replies) ==> !(replies[inspected]->Mode_0 is Failed)
            &&& match replies[inspected]->Mode_0 {
                ModeReportView::Bits(bits) => {
                    &&& made[i - 1] == (RequestView::SetTempMode { mode: bits })
                    &&& replies[i - 1] matches ReplyView::Outcome(Ok(_))
                },
                _ => forall|j: int|
                    0 <= j < made.len() ==> !((#[trigger] made[j]) is SetTempMode),
            }
        }),
{
    let skip = target_calls(replies);
    let target = export_target(path, replies);
    let rest = replies.skip(skip);
    lemma_whole_export(reader, path, replies);
    law_export_outcome(reader, target, found_entry(replies), rest);
    let made = calls::<Exporting>(export_step(reader, path), replies);
    let later = calls::<Exporting>(locate_step(reader, target, found_entry(replies)), rest);
    assert(made[i] == later[i - skip]);
    assert(made[i - 1] == later[i - 1 - skip]);
    assert(replies[i - 1] == rest[i - 1 - skip]);
    assert(made[skip + 1] == later[1]);
    assert(replies[skip + 1] == rest[1]);
    assert forall|j: int| 0 <= j < made.len() && !(rest[1]->Mode_0 is Bits) implies !((
    #[trigger] made[j]) is SetTempMode) by {
        if j >= skip {
            assert(made[j] == later[j - skip]);
        }
    }
}

/// Law: no temporary file is left behind. Once an export is over, a temporary
/// file that was created has either taken the target's place or been deleted, by
/// the last call.
pub proof fn law_export_leaves_no_temp_file(
    reader: rgz_reader_t,
    path: Seq<u8>,
    replies: Seq<ReplyView>,
    i: int,
)
    requires
        fitting::<Exporting>(export_step(reader, path), replies),
        run::<Exporting>(export_step(reader, path), replies) is Done,
        0 <= i < calls::<Exporting>(export_step(reader, path), replies).len(),
        calls::<Exporting>(export_step(reader, path), replies)[i] is CreateTemp,
        replies[i] matches ReplyView::Outcome(Ok(_)),
    ensures
        ({
            let made = calls::<Exporting>(export_step(reader, path), replies);
            ||| replaced_target(made, replies, made.len() - 1)
            ||| made.last() == RequestView::DiscardTemp
        }),
{
    let skip = target_calls(replies);
    let target = export_target(path, replies);
    let rest = replies.skip(skip);
    lemma_whole_export(reader, path, replies);
    law_export_outcome(reader, target, found_entry(replies), rest);
    let made = calls::<Exporting>(export_step(reader, path), replies);
    let later = calls::<Exporting>(locate_step(reader, target, found_entry(replies)), rest);
    assert(made[i] == later[i - skip]);
    assert(replies[i] == rest[i - skip]);
    assert(made[made.len() - 1] == later[later.len() - 1]);
    assert(replies[made.len() - 1] == rest[later.len() - 1]);
}

/// Law: an export looks at exactly the path that was given before anything else, and
/// is never refused beforehand.
pub proof fn law_export_starts_with_a_look(reader: rgz_reader_t, path: Seq<u8>)
    ensures
        ({
            &&& export_step(reader, path) matches StepView::Call(request, phase)
            &&& request == (RequestView::Probe { path })
        }),
{
}

/// Law: what an export comes to, and by which calls, for every path, every directory
/// and every mode. It looks whether something is at the path and resolves what is; it
/// names the directory of the target, the current one for want of another, and looks
/// up the permission bits; it has a temporary file made in that directory, the index
/// written into it, the bits set on it if there were any, and the temporary file put
/// in the place of the target. The first of these calls that fails gives the error, and
/// a temporary file that is there is deleted then. Only the look-up of bits may fail
/// without harm, where nothing was found at the path.
pub proof fn law_export_call_by_call(reader: rgz_reader_t, path: Seq<u8>, replies: Seq<ReplyView>)
    requires
        fitting::<Exporting>(export_step(reader, path), replies),
        run::<Exporting>(export_step(reader, path), replies) is Done,
    ensures
        ({
            let made = calls::<Exporting>(export_step(reader, path), replies);
            let result = run::<Exporting>(export_step(reader, path), replies)->Done_0;
            let write = RequestView::ExportIndex { reader };
            let discard = RequestView::DiscardTemp;
            &&& replies[0] matches ReplyView::Found(found)
            &&& found ==> replies[1] is Resolved
            &&& if found && replies[1]->Resolved_0 is Err {
                &&& made == seq![RequestView::Probe { path }, RequestView::Canonicalize { path }]
                &&& result == Err::<(), ErrorView>(ErrorView::Io(replies[1]->Resolved_0->Err_0))
            } else {
                let k = if found {
                    2int
                } else {
                    1int
                };
                let target = if found {
                    replies[1]->Resolved_0->Ok_0
                } else {
                    path
                };
                let looked = (if found {
                    seq![RequestView::Probe { path }, RequestView::Canonicalize { path }]
                } else {
                    seq![RequestView::Probe { path }]
                }) + seq![
                    RequestView::Parent { path: target },
                    RequestView::FileMode { path: target },
                ];
                let persist = RequestView::PersistTemp { path: target };
                &&& replies[k] matches ReplyView::Directory(parent)
                &&& replies[k + 1] matches ReplyView::Mode(report)
                &&& if found && report is Failed {
                    &&& made == looked
                    &&& result == Err::<(), ErrorView>(ErrorView::Io(report->Failed_0))
                } else {
                    let created = looked + seq![
                        RequestView::CreateTemp {
                            dir: if parent is Some {
                                parent->0
                            } else {
                                seq![46u8]
                            },
                            prefix: ".rapidgzip-index."@,
                            suffix: ".tmp"@,
                        },
                    ];
                    &&& replies[k + 2] matches ReplyView::Outcome(creation)
                    &&& if creation is Err {
                        &&& made == created
                        &&& result == Err::<(), ErrorView>(ErrorView::Io(creation->Err_0))
                    } else {
                        &&& replies[k + 3] matches ReplyView::Status(status)
                        &&& if status != rgz_status_t::RGZ_STATUS_OK {
                            &&& made == created + seq![
                                write,
                                RequestView::LastError { reader },
                                discard,
                            ]
                            &&& replies[k + 4] matches ReplyView::Message(text)
                            &&& result == Err::<(), ErrorView>(
                                error_for(status, Some(reader_error_text(text))),
                            )
                        } else if report is Bits {
                            let set = RequestView::SetTempMode { mode: report->Bits_0 };
                            &&& replies[k + 4] matches ReplyView::Outcome(setting)
                            &&& if setting is Err {
                                &&& made == created + seq![write, set, discard]
                                &&& result == Err::<(), ErrorView>(ErrorView::Io(setting->Err_0))
                            } else {
                                &&& replies[k + 5] matches ReplyView::Outcome(placing)
                                &&& if placing is Err {
                                    &&& made == created + seq![write, set, persist, discard]
                                    &&& result == Err::<(), ErrorView>(
                                        ErrorView::Io(placing->Err_0),
                                    )
                                } else {
                                    &&& made == created + seq![write, set, persist]
                                    &&& result == Ok::<(), ErrorView>(())
                                }
                            }
                        } else {
                            &&& replies[k + 4] matches ReplyView::Outcome(placing)
                            &&& if placing is Err {
                                &&& made == created + seq![write, persist, discard]
                                &&& result == Err::<(), ErrorView>(ErrorView::Io(placing->Err_0))
                            } else {
                                &&& made == created + seq![write, persist]
                                &&& result == Ok::<(), ErrorView>(())
                            }
                        }
                    }
                }
            }
        }),
{
    reveal_with_fuel(run, 3);
    reveal_with_fuel(fitting, 3);
    law_export_target(reader, path, replies);
    let start = export_step(reader, path);
    let made = calls::<Exporting>(start, replies);
    law_calls_are_answered::<Exporting>(start, replies);
    let found = replies[0] == ReplyView::Found(true);
    if !(found && replies[1]->Resolved_0 is Err) {
        let k = target_calls(replies);
        let target = export_target(path, replies);
        let rest = replies.skip(k);
        assert(replies.skip(1) == replies.drop_first());
        assert(replies.skip(2) == replies.drop_first().drop_first());
        law_export_outcome(reader, target, found, rest);
        let later = calls::<Exporting>(locate_step(reader, target, found), rest);
        let head = if found {
            seq![RequestView::Probe { path }, RequestView::Canonicalize { path }]
        } else {
            seq![RequestView::Probe { path }]
        };
        assert(made == head + later);
        let looked = head + inspect_calls(target);
        assert(forall|i: int| 0 <= i < rest.len() ==> rest[i] == replies[k + i]);
        assert(later.len() >= 2);
        if later.len() == 2 {
            assert(made =~= looked);
        } else {
            let created = looked + seq![create_temp(temp_dir(replies[k]->Directory_0))];
            let tail = later.skip(3);
            assert(made =~= created + tail);
            if rest[2]->Outcome_0 is Err {
                assert(made =~= created);
            } else if rest[3]->Status_0 != rgz_status_t::RGZ_STATUS_OK {
                assert(tail =~= seq![
                    RequestView::ExportIndex { reader },
                    RequestView::LastError { reader },
                    RequestView::DiscardTemp,
                ]);
            } else {
                let mode = target_mode(found, rest[1]->Mode_0)->Ok_0;
                let place = place_calls(reader, target, mode);
                if mode is Some && rest[4]->Outcome_0 is Err {
                    assert(tail =~= seq![
                        RequestView::ExportIndex { reader },
                        RequestView::SetTempMode { mode: mode->0 },
                        RequestView::DiscardTemp,
                    ]);
                } else if rest[2 + place.len() as int]->Outcome_0 is Ok {
                    assert(tail =~= place);
                } else {
                    assert(tail =~= place + seq![RequestView::DiscardTemp]);
                    if mode is Some {
                        assert(tail =~= seq![
                            RequestView::ExportIndex { reader },
                            RequestView::SetTempMode { mode: mode->0 },
                            RequestView::PersistTemp { path: target },
                            RequestView::DiscardTemp,
                        ]);
                    } else {
                        assert(tail =~= seq![
                            RequestView::ExportIndex { reader },
                            RequestView::PersistTemp { path: target },
                            RequestView::DiscardTemp,
                        ]);
                    }
                }
            }
        }
    }
}

/// Whether a call that an export makes did what it is for. A look-up of permission
/// bits did if it did not fail, whatever the bits are and whether or not there are any.
pub open spec fn export_call_succeeded(reply: ReplyView) -> bool {
    match reply {
        ReplyView::Found(_) => true,
        ReplyView::Resolved(resolved) => resolved is Ok,
        ReplyView::Directory(_) => true,
        ReplyView::Mode(report) => !(report is Failed),
        ReplyView::Outcome(outcome) => outcome is Ok,
        ReplyView::Status(status) => status == rgz_status_t::RGZ_STATUS_OK,
        _ => false,
    }
}

/// Law: an export whose every call succeeds succeeds. In particular, no path, no
/// directory and no permission bits ever end one.
pub proof fn law_export_succeeds_if_its_calls_do(
    reader: rgz_reader_t,
    path: Seq<u8>,
    replies: Seq<ReplyView>,
)
    requires
        fitting::<Exporting>(export_step(reader, path), replies),
        run::<Exporting>(export_step(reader, path), replies) is Done,
        forall|i: int|
            0 <= i < calls::<Exporting>(export_step(reader, path), replies).len()
                ==> export_call_succeeded(#[trigger] replies[i]),
    ensures
        run::<Exporting>(export_step(reader, path), replies) == ExportStepView::Done(Ok(())),
        calls::<Exporting>(export_step(reader, path), replies).last() == (
        RequestView::PersistTemp {
            path: if replies[0] == ReplyView::Found(true) {
                replies[1]->Resolved_0->Ok_0
            } else {
                path
            },
        }),
{
    law_export_call_by_call(reader, path, replies);
    let made = calls::<Exporting>(export_step(reader, path), replies);
    assert(forall|i: int| 0 <= i < made.len() ==> export_call_succeeded(replies[i]));
    assert(made.len() > 0);
    assert(made.len() > 1 ==> export_call_succeeded(replies[1]));
    assert(made.len() > 2 ==> export_call_succeeded(replies[2]));
    assert(made.len() > 3 ==> export_call_succeeded(replies[3]));
    assert(made.len() > 4 ==> export_call_succeeded(replies[4]));
    assert(made.len() > 5 ==> export_call_succeeded(replies[5]));
    assert(made.len() > 6 ==> export_call_succeeded(replies[6]));
    assert(made.len() > 7 ==> export_call_succeeded(replies[7]));
}

/// Law: an export takes whatever the calls it asked for can give, and nothing else.
pub proof fn law_export_takes_every_reply(
    reader: rgz_reader_t,
    path: Seq<u8>,
    replies: Seq<ReplyView>,
)
    ensures
        fitting::<Exporting>(export_step(reader, path), replies) <==> all_fit(
            calls::<Exporting>(export_step(reader, path), replies),
            replies,
        ),
{
    lemma_fitting::<Exporting>(
        export_step(reader, path),
        replies,
        |step: ExportStepView| coherent(step),
    );
}

/// Law: what is proved of the result of an export is proved of the very result that
/// the caller gets.
pub proof fn law_export_result_is_shown_as_it_is(error: Error)
    ensures
        Exporting::outcome(Ok(())) == Ok::<(), ErrorView>(()),
        Exporting::outcome(Err(error)) == Err::<(), ErrorView>(error@),
{
}

} // verus!
