//! Laws that span operations.

use vstd::prelude::*;

use crate::index_export::{export_step, ExportPhase, Exporting};
use crate::index_import::{import_file_step, import_step, Importing};
use crate::io::SeekFrom;
use crate::protocol::{calls, fitting, Behavior, ReplyView, RequestView, StepView};
use crate::seek::{seek_step, Seeking};
use crate::sys::rgz_reader_t;
use crate::transfer::{transfer_step, Transfer};

verus! {

/// The reader that a request is about, if it is about one.
pub open spec fn subject(request: RequestView) -> Option<rgz_reader_t> {
    match request {
        RequestView::Close { reader } => Some(reader),
        RequestView::Read { reader, .. } => Some(reader),
        RequestView::ReadDiscard { reader, .. } => Some(reader),
        RequestView::ReadToFd { reader, .. } => Some(reader),
        RequestView::SetKeepIndex { reader, .. } => Some(reader),
        RequestView::SeekTo { reader, .. } => Some(reader),
        RequestView::Tell { reader } => Some(reader),
        RequestView::ImportIndex { reader, .. } => Some(reader),
        RequestView::ExportIndex { reader } => Some(reader),
        RequestView::LastError { reader } => Some(reader),
        _ => None,
    }
}

/// Whether a request leaves `reader` open and all other readers alone.
pub open spec fn stays_on(request: RequestView, reader: rgz_reader_t) -> bool {
    &&& !(request is Close)
    &&& subject(request) is None || subject(request) == Some(reader)
}

/// Whether all requests leave `reader` open and all other readers alone.
pub open spec fn all_stay_on(made: Seq<RequestView>, reader: rgz_reader_t) -> bool {
    forall|i: int| 0 <= i < made.len() ==> stays_on(#[trigger] made[i], reader)
}

/// If a property of steps is kept by every reply, then every call of a run comes
/// from a step that has it.
proof fn lemma_every_call<O: Behavior>(
    step: StepView<O::Phase, O::Outcome>,
    replies: Seq<ReplyView>,
    kept: spec_fn(StepView<O::Phase, O::Outcome>) -> bool,
    good: spec_fn(RequestView) -> bool,
)
    requires
        fitting::<O>(step, replies),
        kept(step),
        forall|request: RequestView, phase: O::Phase, reply: ReplyView|
            #![trigger kept(StepView::Call(request, phase)), O::expects(phase, reply)]
            kept(StepView::Call(request, phase)) && O::expects(phase, reply) ==> kept(
                O::next(phase, reply),
            ),
        forall|request: RequestView, phase: O::Phase|
            #[trigger] kept(StepView::Call(request, phase)) ==> good(request),
    ensures
        forall|i: int|
            0 <= i < calls::<O>(step, replies).len() ==> good(
                #[trigger] calls::<O>(step, replies)[i],
            ),
    decreases replies.len(),
{
    if let StepView::Call(request, phase) = step {
        if replies.len() > 0 {
            assert(kept(StepView::Call(request, phase)) && O::expects(phase, replies[0]));
            let next = O::next(phase, replies[0]);
            let later = calls::<O>(next, replies.drop_first());
            lemma_every_call::<O>(next, replies.drop_first(), kept, good);
            let made = calls::<O>(step, replies);
            assert(made == seq![request] + later);
            assert forall|i: int| 0 <= i < made.len() implies good(#[trigger] made[i]) by {
                if i > 0 {
                    assert(made[i] == later[i - 1]);
                }
            }
        }
    }
}

/// Law: a transfer on a reader, wherever it stops, is about that reader only and
/// does not close it.
pub proof fn law_transfer_stays_on_its_reader(
    reader: rgz_reader_t,
    request: RequestView,
    len: usize,
    replies: Seq<ReplyView>,
)
    requires
        ({
            ||| request == (RequestView::Read { reader, len })
            ||| request == (RequestView::ReadDiscard { reader, len })
            ||| request matches RequestView::ReadToFd { reader: r, len: l, .. } && r == reader && l
                == len
        }),
        fitting::<Transfer>(transfer_step(reader, request, len), replies),
    ensures
        all_stay_on(calls::<Transfer>(transfer_step(reader, request, len), replies), reader),
{
    let kept = |step: StepView<Transfer, Result<usize, crate::io::IoErrorView>>|
        match step {
            StepView::Done(_) => true,
            StepView::Call(q, phase) => stays_on(q, reader) && (phase matches Transfer::Running {
                reader: r,
            } ==> r == reader),
        };
    lemma_every_call::<Transfer>(
        transfer_step(reader, request, len),
        replies,
        kept,
        |q: RequestView| stays_on(q, reader),
    );
}

/// Law: a seek on a reader, wherever it stops, is about that reader only and does
/// not close it.
pub proof fn law_seek_stays_on_its_reader(
    reader: rgz_reader_t,
    pos: SeekFrom,
    replies: Seq<ReplyView>,
)
    requires
        fitting::<Seeking>(seek_step(reader, pos), replies),
    ensures
        all_stay_on(calls::<Seeking>(seek_step(reader, pos), replies), reader),
{
    let kept = |step: StepView<Seeking, Result<u64, crate::io::IoErrorView>>|
        match step {
            StepView::Done(_) => true,
            StepView::Call(q, phase) => stays_on(q, reader) && match phase {
                Seeking::Locating { reader: r, .. } => r == reader,
                Seeking::Moving { reader: r, .. } => r == reader,
                Seeking::Failed => true,
            },
        };
    lemma_every_call::<Seeking>(
        seek_step(reader, pos),
        replies,
        kept,
        |q: RequestView| stays_on(q, reader),
    );
}

/// Law: an import on a reader, from a source or from a file, wherever it stops,
/// is about that reader only and does not close it.
pub proof fn law_import_stays_on_its_reader(
    reader: rgz_reader_t,
    path: Seq<u8>,
    replies: Seq<ReplyView>,
)
    ensures
        fitting::<Importing>(import_step(reader), replies) ==> all_stay_on(
            calls::<Importing>(import_step(reader), replies),
            reader,
        ),
        fitting::<Importing>(import_file_step(reader, path), replies) ==> all_stay_on(
            calls::<Importing>(import_file_step(reader, path), replies),
            reader,
        ),
{
    let kept = |step: StepView<Importing, Result<(), crate::error::ErrorView>>|
        match step {
            StepView::Done(_) => true,
            StepView::Call(q, phase) => stays_on(q, reader) && match phase {
                Importing::File { reader: r } => r == reader,
                Importing::Native { reader: r } => r == reader,
                Importing::Failed { .. } => true,
            },
        };
    let good = |q: RequestView| stays_on(q, reader);
    if fitting::<Importing>(import_step(reader), replies) {
        lemma_every_call::<Importing>(import_step(reader), replies, kept, good);
    }
    if fitting::<Importing>(import_file_step(reader, path), replies) {
        lemma_every_call::<Importing>(import_file_step(reader, path), replies, kept, good);
    }
}

/// Law: an export on a reader, wherever it stops, is about that reader only and
/// does not close it.
pub proof fn law_export_stays_on_its_reader(
    reader: rgz_reader_t,
    path: Seq<u8>,
    replies: Seq<ReplyView>,
)
    requires
        fitting::<Exporting>(export_step(reader, path), replies),
    ensures
        all_stay_on(calls::<Exporting>(export_step(reader, path), replies), reader),
{
    let kept = |step: StepView<ExportPhase, Result<(), crate::error::ErrorView>>|
        match step {
            StepView::Done(_) => true,
            StepView::Call(q, phase) => stays_on(q, reader) && match phase {
                ExportPhase::Probing { reader: r, .. } => r == reader,
                ExportPhase::Resolving { reader: r } => r == reader,
                ExportPhase::Locating { reader: r, .. } => r == reader,
                ExportPhase::Inspecting { reader: r, .. } => r == reader,
                ExportPhase::Creating { reader: r, .. } => r == reader,
                ExportPhase::Writing { reader: r, .. } => r == reader,
                _ => true,
            },
        };
    lemma_every_call::<Exporting>(
        export_step(reader, path),
        replies,
        kept,
        |q: RequestView| stays_on(q, reader),
    );
}

} // verus!
