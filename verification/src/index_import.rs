//! Importing a random-access index.

use vstd::pervasive::unreached;
use vstd::prelude::*;

use crate::error::{error_for, get_last_error, reader_error_text, Error, ErrorView};
use crate::open::{law_tables_serve_their_sources, plain_callbacks, plain_table, serves};
use crate::protocol::{
    all_fit, calls, fitting, lemma_fitting, run, step_view, Behavior, Operation, Reply, ReplyView,
    Request, RequestView, Step, StepView,
};
use crate::reader::Reader;
use crate::sys::{rgz_reader_t, rgz_status_t, SourceKind};

verus! {

/// An index import in progress.
pub enum Importing {
    /// Waits for the file that holds the index.
    File { reader: rgz_reader_t },
    /// Waits for the native import.
    Native { reader: rgz_reader_t },
    /// The native import failed; waits for the reader's error text.
    Failed { status: rgz_status_t },
}

/// The next move of an import.
pub type ImportStep = Step<Importing, Result<(), Error>>;

/// What an [`ImportStep`] says.
pub type ImportStepView = StepView<Importing, Result<(), ErrorView>>;

/// The move that imports an index from a source.
pub open spec fn import_step(reader: rgz_reader_t) -> ImportStepView {
    StepView::Call(
        RequestView::ImportIndex { reader, callbacks: plain_table() },
        Importing::Native { reader },
    )
}

/// The move that imports an index from the file at `path`.
pub open spec fn import_file_step(reader: rgz_reader_t, path: Seq<u8>) -> ImportStepView {
    StepView::Call(RequestView::OpenFile { path, kind: SourceKind::Plain }, Importing::File { reader })
}

impl Behavior for Importing {
    type Output = Result<(), Error>;

    type Phase = Importing;

    type Outcome = Result<(), ErrorView>;

    open spec fn phase(&self) -> Importing {
        *self
    }

    open spec fn outcome(output: Result<(), Error>) -> Result<(), ErrorView> {
        match output {
            Ok(_) => Ok(()),
            Err(error) => Err(error@),
        }
    }

    open spec fn expects(phase: Importing, reply: ReplyView) -> bool {
        match phase {
            Importing::File { .. } => reply is Outcome,
            Importing::Native { .. } => reply is Status,
            Importing::Failed { .. } => reply is Message,
        }
    }

    open spec fn next(phase: Importing, reply: ReplyView) -> ImportStepView {
        match (phase, reply) {
            (Importing::File { .. }, ReplyView::Outcome(Err(text))) => StepView::Done(
                Err(ErrorView::Io(text)),
            ),
            (Importing::File { reader }, ReplyView::Outcome(Ok(_))) => import_step(reader),
            (Importing::Native { reader }, ReplyView::Status(status)) => if status
                == rgz_status_t::RGZ_STATUS_OK {
                StepView::Done(Ok(()))
            } else {
                StepView::Call(RequestView::LastError { reader }, Importing::Failed { status })
            },
            (Importing::Failed { status }, ReplyView::Message(text)) => StepView::Done(
                Err(error_for(status, Some(reader_error_text(text)))),
            ),
            _ => arbitrary(),
        }
    }

    open spec fn calls_left(phase: Importing) -> nat {
        match phase {
            Importing::File { .. } => 3,
            Importing::Native { .. } => 2,
            Importing::Failed { .. } => 1,
        }
    }

    proof fn calls_left_positive(phase: Importing) {
    }

    proof fn calls_left_decrease(phase: Importing, reply: ReplyView) {
    }
}

impl Operation for Importing {
    fn accepts(&self, reply: &Reply) -> (r: bool) {
        match self {
            Importing::File { .. } => matches!(reply, Reply::Outcome(_)),
            Importing::Native { .. } => matches!(reply, Reply::Status(_)),
            Importing::Failed { .. } => matches!(reply, Reply::Message(_)),
        }
    }

    fn resume(self, reply: Reply) -> (step: ImportStep) {
        match (self, reply) {
            (Importing::File { .. }, Reply::Outcome(Err(text))) => Step::Done(Err(Error::Io(text))),
            (Importing::File { reader }, Reply::Outcome(Ok(_))) => Step::Call(
                Request::ImportIndex { reader, callbacks: plain_callbacks() },
                Importing::Native { reader },
            ),
            (Importing::Native { reader }, Reply::Status(status)) => {
                if status == rgz_status_t::RGZ_STATUS_OK {
                    Step::Done(Ok(()))
                } else {
                    Step::Call(Request::LastError { reader }, Importing::Failed { status })
                }
            },
            (Importing::Failed { status }, Reply::Message(text)) => {
                let message = get_last_error(text);
                Step::Done(Err(Error::from_status_message(status, Some(message))))
            },
            (_, _) => unreached(),
        }
    }
}

impl Reader {
    /// Imports a previously exported random-access index from an arbitrary source.
    ///
    /// The source must be seekable so the native library can seek within the
    /// index during import. Use this when the index comes from a non-file source
    /// (e.g. an HTTP range reader).
    pub fn import_index_reader(&mut self) -> (step: ImportStep)
        ensures
            *final(self) == *old(self),
            step_view::<Importing>(step) == import_step(old(self)@),
    {
        let reader = self.handle();
        Step::Call(
            Request::ImportIndex { reader, callbacks: plain_callbacks() },
            Importing::Native { reader },
        )
    }

    /// Imports a previously exported random-access index from a file.
    pub fn import_index(&mut self, path: Vec<u8>) -> (step: ImportStep)
        ensures
            *final(self) == *old(self),
            step_view::<Importing>(step) == import_file_step(old(self)@, path@),
    {
        let reader = self.handle();
        Step::Call(Request::OpenFile { path, kind: SourceKind::Plain }, Importing::File { reader })
    }
}

/// Law: what an import from a source comes to, and by which calls.
pub proof fn law_import_outcome(reader: rgz_reader_t, replies: Seq<ReplyView>)
    requires
        fitting::<Importing>(import_step(reader), replies),
        run::<Importing>(import_step(reader), replies) is Done,
    ensures
        ({
            let start = import_step(reader);
            let import = RequestView::ImportIndex { reader, callbacks: plain_table() };
            let made = calls::<Importing>(start, replies);
            let result = run::<Importing>(start, replies)->Done_0;
            &&& replies[0] matches ReplyView::Status(status)
            &&& if status == rgz_status_t::RGZ_STATUS_OK {
                made == seq![import] && result == Ok::<(), ErrorView>(())
            } else {
                &&& made == seq![import, RequestView::LastError { reader }]
                &&& replies[1] is Message
                &&& result == Err::<(), ErrorView>(
                    error_for(status, Some(reader_error_text(replies[1]->Message_0))),
                )
            }
        }),
{
    reveal_with_fuel(run, 3);
    reveal_with_fuel(calls, 3);
    reveal_with_fuel(fitting, 3);
    let import = RequestView::ImportIndex { reader, callbacks: plain_table() };
    let made = calls::<Importing>(import_step(reader), replies);
    if replies[0] == ReplyView::Status(rgz_status_t::RGZ_STATUS_OK) {
        assert(made =~= seq![import]);
    } else {
        assert(made =~= seq![import, RequestView::LastError { reader }]);
    }
}

/// Law: importing from a file is opening the file as a plain source, and after
/// that importing from it. A file that cannot be opened is an I/O error with the system's text, and
/// the native layer is not called.
pub proof fn law_import_from_file(reader: rgz_reader_t, path: Seq<u8>, replies: Seq<ReplyView>)
    requires
        replies.len() > 0,
        fitting::<Importing>(import_file_step(reader, path), replies),
    ensures
        ({
            let start = import_file_step(reader, path);
            match replies[0] {
                ReplyView::Outcome(Ok(_)) => {
                    &&& run::<Importing>(start, replies) == run::<Importing>(
                        import_step(reader),
                        replies.drop_first(),
                    )
                    &&& calls::<Importing>(start, replies) == seq![RequestView::OpenFile { path, kind: SourceKind::Plain }]
                        + calls::<Importing>(import_step(reader), replies.drop_first())
                },
                ReplyView::Outcome(Err(text)) => {
                    &&& run::<Importing>(start, replies) == ImportStepView::Done(
                        Err(ErrorView::Io(text)),
                    )
                    &&& calls::<Importing>(start, replies) == seq![RequestView::OpenFile { path, kind: SourceKind::Plain }]
                },
                _ => false,
            }
        }),
{
    reveal_with_fuel(run, 2);
    reveal_with_fuel(calls, 2);
    if replies[0]->Outcome_0 is Err {
        assert(calls::<Importing>(import_file_step(reader, path), replies) =~= seq![
            RequestView::OpenFile { path, kind: SourceKind::Plain },
        ]);
    }
}

/// Law: an import hands the native layer a table that serves a source that cannot be
/// cloned, and from a file it opens exactly the file at the path that was given, as
/// such a source. Neither is ever refused beforehand.
pub proof fn law_import_asks_for_that_source(reader: rgz_reader_t, path: Seq<u8>)
    ensures
        ({
            &&& import_step(reader) matches StepView::Call(request, phase)
            &&& request matches RequestView::ImportIndex { reader: r, callbacks }
            &&& r == reader
            &&& serves(callbacks, SourceKind::Plain)
        }),
        ({
            &&& import_file_step(reader, path) matches StepView::Call(request, phase)
            &&& request == (RequestView::OpenFile { path, kind: SourceKind::Plain })
        }),
{
    law_tables_serve_their_sources();
}

/// Law: an import takes whatever the calls it asked for can give, and nothing else.
pub proof fn law_import_takes_every_reply(
    reader: rgz_reader_t,
    path: Seq<u8>,
    start: ImportStepView,
    replies: Seq<ReplyView>,
)
    requires
        start == import_step(reader) || start == import_file_step(reader, path),
    ensures
        fitting::<Importing>(start, replies) <==> all_fit(
            calls::<Importing>(start, replies),
            replies,
        ),
{
    let kept = |step: ImportStepView|
        match step {
            StepView::Done(_) => true,
            StepView::Call(q, phase) => match phase {
                Importing::File { .. } => q is OpenFile,
                Importing::Native { .. } => q is ImportIndex,
                Importing::Failed { .. } => q is LastError,
            },
        };
    lemma_fitting::<Importing>(start, replies, kept);
}

/// Law: what is proved of the result of an import is proved of the very result that
/// the caller gets.
pub proof fn law_import_result_is_shown_as_it_is(error: Error)
    ensures
        Importing::outcome(Ok(())) == Ok::<(), ErrorView>(()),
        Importing::outcome(Err(error)) == Err::<(), ErrorView>(error@),
{
}

} // verus!
