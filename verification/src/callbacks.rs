//! What the callbacks do that the native layer calls.
//!
//! A callback answers with a plain number. Where it cannot give one, or panics on
//! the way, a callback on a source answers with the largest value of its type,
//! which the native layer takes as an error. The callback that clones a source
//! answers with the null address then, and the one that takes exported index data
//! with no bytes.

use vstd::prelude::*;

use crate::io::SeekFrom;
use crate::protocol::{
    all_fit, calls, fitting, lemma_fitting, run, step_view, Behavior, Operation, Reply, ReplyView,
    Request, RequestView, Step, StepView,
};

verus! {

/// The answer for a byte count, if there is one.
pub open spec fn count_answer(count: Option<usize>) -> usize {
    match count {
        Some(n) => n,
        None => usize::MAX,
    }
}

/// The answer for an offset, if there is one.
pub open spec fn offset_answer(offset: Option<u64>) -> u64 {
    match offset {
        Some(n) => n,
        None => u64::MAX,
    }
}

/// A read callback that waits for the source.
pub struct ReadCallback;

/// A seek callback that waits for the source.
pub struct SeekCallback;

/// A size callback that waits for the source.
pub enum SizeCallback {
    /// Waits for the current position.
    Locating,
    /// Waits for the offset of the end.
    Measuring { current: u64 },
    /// Waits for the source to be back where it was; the end is at `size`, if it
    /// was reached.
    Returning { size: Option<u64> },
}

/// A clone callback that waits for the clone.
pub struct CloneCallback;

/// A callback that takes `size` bytes of exported index data and waits for them
/// to be written.
pub struct WriteCallback {
    pub size: usize,
}

/// The position that a native seek means: `origin` is 0 for the start, 1 for the
/// current position and 2 for the end.
pub open spec fn seek_target(offset: i64, origin: i32) -> Option<SeekFrom> {
    if origin == 0 {
        if offset < 0 {
            None
        } else {
            Some(SeekFrom::Start(offset as u64))
        }
    } else if origin == 1 {
        Some(SeekFrom::Current(offset))
    } else if origin == 2 {
        Some(SeekFrom::End(offset))
    } else {
        None
    }
}

/// The first move of a read callback: no bytes need no buffer, and for any others
/// a null buffer is an error.
pub open spec fn read_callback_step(dst_is_null: bool, len: usize) -> StepView<
    ReadCallback,
    usize,
> {
    if len == 0 {
        StepView::Done(0)
    } else if dst_is_null {
        StepView::Done(usize::MAX)
    } else {
        StepView::Call(RequestView::SourceRead { len }, ReadCallback)
    }
}

/// The first move of a seek callback.
pub open spec fn seek_callback_step(offset: i64, origin: i32) -> StepView<SeekCallback, u64> {
    match seek_target(offset, origin) {
        Some(pos) => StepView::Call(RequestView::SourceSeek { pos }, SeekCallback),
        None => StepView::Done(u64::MAX),
    }
}

/// The first move of a size callback.
pub open spec fn size_callback_step() -> StepView<SizeCallback, u64> {
    StepView::Call(RequestView::SourcePosition, SizeCallback::Locating)
}

/// The first move of a clone callback.
pub open spec fn clone_callback_step() -> StepView<CloneCallback, usize> {
    StepView::Call(RequestView::SourceClone, CloneCallback)
}

/// The first move of a callback that takes exported index data: nothing is
/// written for no bytes, nor from a null buffer.
pub open spec fn write_callback_step(buffer_is_null: bool, size: usize) -> StepView<
    WriteCallback,
    usize,
> {
    if size == 0 || buffer_is_null {
        StepView::Done(0)
    } else {
        StepView::Call(RequestView::WriteTemp { size }, WriteCallback { size })
    }
}

impl Behavior for ReadCallback {
    type Output = usize;

    type Phase = ReadCallback;

    type Outcome = usize;

    open spec fn phase(&self) -> ReadCallback {
        *self
    }

    open spec fn outcome(output: usize) -> usize {
        output
    }

    open spec fn expects(phase: ReadCallback, reply: ReplyView) -> bool {
        reply is SourceCount || reply is Panicked
    }

    open spec fn next(phase: ReadCallback, reply: ReplyView) -> StepView<ReadCallback, usize> {
        match reply {
            ReplyView::SourceCount(count) => StepView::Done(count_answer(count)),
            _ => StepView::Done(usize::MAX),
        }
    }

    open spec fn calls_left(phase: ReadCallback) -> nat {
        1
    }

    proof fn calls_left_positive(phase: ReadCallback) {
    }

    proof fn calls_left_decrease(phase: ReadCallback, reply: ReplyView) {
    }
}

impl Operation for ReadCallback {
    fn accepts(&self, reply: &Reply) -> (r: bool) {
        matches!(reply, Reply::SourceCount(_) | Reply::Panicked)
    }

    fn resume(self, reply: Reply) -> (step: Step<ReadCallback, usize>) {
        match reply {
            Reply::SourceCount(Some(count)) => Step::Done(count),
            _ => Step::Done(usize::MAX),
        }
    }
}

impl Behavior for SeekCallback {
    type Output = u64;

    type Phase = SeekCallback;

    type Outcome = u64;

    open spec fn phase(&self) -> SeekCallback {
        *self
    }

    open spec fn outcome(output: u64) -> u64 {
        output
    }

    open spec fn expects(phase: SeekCallback, reply: ReplyView) -> bool {
        reply is SourceOffset || reply is Panicked
    }

    open spec fn next(phase: SeekCallback, reply: ReplyView) -> StepView<SeekCallback, u64> {
        match reply {
            ReplyView::SourceOffset(offset) => StepView::Done(offset_answer(offset)),
            _ => StepView::Done(u64::MAX),
        }
    }

    open spec fn calls_left(phase: SeekCallback) -> nat {
        1
    }

    proof fn calls_left_positive(phase: SeekCallback) {
    }

    proof fn calls_left_decrease(phase: SeekCallback, reply: ReplyView) {
    }
}

impl Operation for SeekCallback {
    fn accepts(&self, reply: &Reply) -> (r: bool) {
        matches!(reply, Reply::SourceOffset(_) | Reply::Panicked)
    }

    fn resume(self, reply: Reply) -> (step: Step<SeekCallback, u64>) {
        match reply {
            Reply::SourceOffset(Some(offset)) => Step::Done(offset),
            _ => Step::Done(u64::MAX),
        }
    }
}

impl Behavior for SizeCallback {
    type Output = u64;

    type Phase = SizeCallback;

    type Outcome = u64;

    open spec fn phase(&self) -> SizeCallback {
        *self
    }

    open spec fn outcome(output: u64) -> u64 {
        output
    }

    open spec fn expects(phase: SizeCallback, reply: ReplyView) -> bool {
        reply is SourceOffset || reply is Panicked
    }

    open spec fn next(phase: SizeCallback, reply: ReplyView) -> StepView<SizeCallback, u64> {
        match (phase, reply) {
            (
                SizeCallback::Locating,
                ReplyView::SourceOffset(Some(current)),
            ) => StepView::Call(
                RequestView::SourceSeek { pos: SeekFrom::End(0) },
                SizeCallback::Measuring { current },
            ),
            (SizeCallback::Measuring { current }, ReplyView::SourceOffset(size)) => StepView::Call(
                RequestView::SourceSeek { pos: SeekFrom::Start(current) },
                SizeCallback::Returning { size },
            ),
            (SizeCallback::Returning { size }, ReplyView::SourceOffset(Some(_))) => StepView::Done(
                offset_answer(size),
            ),
            _ => StepView::Done(u64::MAX),
        }
    }

    open spec fn calls_left(phase: SizeCallback) -> nat {
        match phase {
            SizeCallback::Locating => 3,
            SizeCallback::Measuring { .. } => 2,
            SizeCallback::Returning { .. } => 1,
        }
    }

    proof fn calls_left_positive(phase: SizeCallback) {
    }

    proof fn calls_left_decrease(phase: SizeCallback, reply: ReplyView) {
    }
}

impl Operation for SizeCallback {
    fn accepts(&self, reply: &Reply) -> (r: bool) {
        matches!(reply, Reply::SourceOffset(_) | Reply::Panicked)
    }

    fn resume(self, reply: Reply) -> (step: Step<SizeCallback, u64>) {
        match (self, reply) {
            (SizeCallback::Locating, Reply::SourceOffset(Some(current))) => Step::Call(
                Request::SourceSeek { pos: SeekFrom::End(0) },
                SizeCallback::Measuring { current },
            ),
            // Whether or not the end was reached, go back.
            (SizeCallback::Measuring { current }, Reply::SourceOffset(size)) => Step::Call(
                Request::SourceSeek { pos: SeekFrom::Start(current) },
                SizeCallback::Returning { size },
            ),
            (SizeCallback::Returning { size: Some(size) }, Reply::SourceOffset(Some(_))) => {
                Step::Done(size)
            },
            (_, _) => Step::Done(u64::MAX),
        }
    }
}

impl Behavior for CloneCallback {
    type Output = usize;

    type Phase = CloneCallback;

    type Outcome = usize;

    open spec fn phase(&self) -> CloneCallback {
        *self
    }

    open spec fn outcome(output: usize) -> usize {
        output
    }

    open spec fn expects(phase: CloneCallback, reply: ReplyView) -> bool {
        reply is Cloned || reply is Panicked
    }

    open spec fn next(phase: CloneCallback, reply: ReplyView) -> StepView<CloneCallback, usize> {
        match reply {
            ReplyView::Cloned(address) => StepView::Done(address),
            _ => StepView::Done(0),
        }
    }

    open spec fn calls_left(phase: CloneCallback) -> nat {
        1
    }

    proof fn calls_left_positive(phase: CloneCallback) {
    }

    proof fn calls_left_decrease(phase: CloneCallback, reply: ReplyView) {
    }
}

impl Operation for CloneCallback {
    fn accepts(&self, reply: &Reply) -> (r: bool) {
        matches!(reply, Reply::Cloned(_) | Reply::Panicked)
    }

    fn resume(self, reply: Reply) -> (step: Step<CloneCallback, usize>) {
        match reply {
            Reply::Cloned(address) => Step::Done(address),
            _ => Step::Done(0),
        }
    }
}

impl Behavior for WriteCallback {
    type Output = usize;

    type Phase = WriteCallback;

    type Outcome = usize;

    open spec fn phase(&self) -> WriteCallback {
        *self
    }

    open spec fn outcome(output: usize) -> usize {
        output
    }

    open spec fn expects(phase: WriteCallback, reply: ReplyView) -> bool {
        reply is Written || reply is Panicked
    }

    open spec fn next(phase: WriteCallback, reply: ReplyView) -> StepView<WriteCallback, usize> {
        match reply {
            ReplyView::Written(true) => StepView::Done(phase.size),
            _ => StepView::Done(0),
        }
    }

    open spec fn calls_left(phase: WriteCallback) -> nat {
        1
    }

    proof fn calls_left_positive(phase: WriteCallback) {
    }

    proof fn calls_left_decrease(phase: WriteCallback, reply: ReplyView) {
    }
}

impl Operation for WriteCallback {
    fn accepts(&self, reply: &Reply) -> (r: bool) {
        matches!(reply, Reply::Written(_) | Reply::Panicked)
    }

    fn resume(self, reply: Reply) -> (step: Step<WriteCallback, usize>) {
        match reply {
            Reply::Written(true) => Step::Done(self.size),
            _ => Step::Done(0),
        }
    }
}

/// Reads from a source into the native buffer of `len` bytes.
pub fn cb_read(dst_is_null: bool, len: usize) -> (step: Step<ReadCallback, usize>)
    ensures
        step_view::<ReadCallback>(step) == read_callback_step(dst_is_null, len),
{
    if len == 0 {
        return Step::Done(0);
    }
    if dst_is_null {
        return Step::Done(usize::MAX);
    }
    Step::Call(Request::SourceRead { len }, ReadCallback)
}

/// Seeks in a source. A negative offset from the start, or an unknown origin, is
/// an error.
pub fn cb_seek(offset: i64, origin: i32) -> (step: Step<SeekCallback, u64>)
    ensures
        step_view::<SeekCallback>(step) == seek_callback_step(offset, origin),
{
    let pos: SeekFrom = match origin {
        0 => {
            if offset < 0 {
                return Step::Done(u64::MAX);
            }
            SeekFrom::Start(offset as u64)
        },
        1 => SeekFrom::Current(offset),
        2 => SeekFrom::End(offset),
        _ => {
            return Step::Done(u64::MAX);
        },
    };
    Step::Call(Request::SourceSeek { pos }, SeekCallback)
}

/// Measures a source: the offset of its end. The source is then taken back to
/// where it was.
pub fn cb_get_size() -> (step: Step<SizeCallback, u64>)
    ensures
        step_view::<SizeCallback>(step) == size_callback_step(),
{
    Step::Call(Request::SourcePosition, SizeCallback::Locating)
}

/// Clones a source, for a worker of its own, and answers with its address.
pub fn cb_clone() -> (step: Step<CloneCallback, usize>)
    ensures
        step_view::<CloneCallback>(step) == clone_callback_step(),
{
    Step::Call(Request::SourceClone, CloneCallback)
}

/// Takes `size` bytes of exported index data: answers with all of them, once
/// they are written, or none.
pub fn write_cb(buffer_is_null: bool, size: usize) -> (step: Step<WriteCallback, usize>)
    ensures
        step_view::<WriteCallback>(step) == write_callback_step(buffer_is_null, size),
{
    if size == 0 {
        return Step::Done(0);
    }
    if buffer_is_null {
        return Step::Done(0);
    }
    Step::Call(Request::WriteTemp { size }, WriteCallback { size })
}

/// Law: what a size query comes to, and by which calls. It asks for the position,
/// goes to the end and goes back; the offset of the end is the answer if all
/// three succeeded.
pub proof fn law_size_query_outcome(replies: Seq<ReplyView>)
    requires
        fitting::<SizeCallback>(size_callback_step(), replies),
        run::<SizeCallback>(size_callback_step(), replies) is Done,
    ensures
        ({
            let made = calls::<SizeCallback>(size_callback_step(), replies);
            let answer = run::<SizeCallback>(size_callback_step(), replies)->Done_0;
            match replies[0] {
                ReplyView::SourceOffset(Some(current)) => {
                    let end = RequestView::SourceSeek { pos: SeekFrom::End(0) };
                    let back = RequestView::SourceSeek { pos: SeekFrom::Start(current) };
                    match replies[1] {
                        ReplyView::SourceOffset(size) => {
                            &&& made == seq![RequestView::SourcePosition, end, back]
                            &&& answer == (if replies[2] matches ReplyView::SourceOffset(Some(_)) {
                                offset_answer(size)
                            } else {
                                u64::MAX
                            })
                        },
                        _ => made == seq![RequestView::SourcePosition, end] && answer == u64::MAX,
                    }
                },
                _ => made == seq![RequestView::SourcePosition] && answer == u64::MAX,
            }
        }),
{
    reveal_with_fuel(run, 4);
    reveal_with_fuel(calls, 4);
    reveal_with_fuel(fitting, 4);
    let made = calls::<SizeCallback>(size_callback_step(), replies);
    match replies[0] {
        ReplyView::SourceOffset(Some(current)) => {
            let end = RequestView::SourceSeek { pos: SeekFrom::End(0) };
            let back = RequestView::SourceSeek { pos: SeekFrom::Start(current) };
            if replies[1] is SourceOffset {
                assert(made =~= seq![RequestView::SourcePosition, end, back]);
            } else {
                assert(made =~= seq![RequestView::SourcePosition, end]);
            }
        },
        _ => {
            assert(made =~= seq![RequestView::SourcePosition]);
        },
    }
}

/// Law: measuring a source leaves it where it was. An answer that is no error
/// value means that the last call took the source back to the position that the
/// first call found, and succeeded.
pub proof fn law_size_query_restores_position(replies: Seq<ReplyView>)
    requires
        fitting::<SizeCallback>(size_callback_step(), replies),
        run::<SizeCallback>(size_callback_step(), replies) is Done,
        run::<SizeCallback>(size_callback_step(), replies)->Done_0 != u64::MAX,
    ensures
        ({
            let made = calls::<SizeCallback>(size_callback_step(), replies);
            &&& made.len() == 3
            &&& replies[0] matches ReplyView::SourceOffset(Some(current))
            &&& made[2] == (RequestView::SourceSeek { pos: SeekFrom::Start(current) })
            &&& replies[2] matches ReplyView::SourceOffset(Some(_))
        }),
{
    law_size_query_outcome(replies);
}

/// Law: a panic is an error. A callback whose call on a source or on the
/// temporary file panicked, whichever call it was, makes no further call and
/// answers with its error value.
pub proof fn law_panic_is_an_error(size_phase: SizeCallback, write: WriteCallback)
    ensures
        ReadCallback::next(ReadCallback, ReplyView::Panicked) == StepView::<
            ReadCallback,
            usize,
        >::Done(usize::MAX),
        SeekCallback::next(SeekCallback, ReplyView::Panicked) == StepView::<
            SeekCallback,
            u64,
        >::Done(u64::MAX),
        SizeCallback::next(size_phase, ReplyView::Panicked) == StepView::<SizeCallback, u64>::Done(
            u64::MAX,
        ),
        CloneCallback::next(CloneCallback, ReplyView::Panicked) == StepView::<
            CloneCallback,
            usize,
        >::Done(0),
        WriteCallback::next(write, ReplyView::Panicked) == StepView::<WriteCallback, usize>::Done(
            0,
        ),
{
}

/// Law: which native seeks are refused without asking the source: those with an
/// origin that is not one of the three known ones, and those to a place before
/// the start.
pub proof fn law_refused_native_seeks(offset: i64, origin: i32)
    ensures
        seek_callback_step(offset, origin) is Done <==> origin < 0 || origin > 2 || (origin == 0
            && offset < 0),
{
}

/// Law: exported index data is taken whole or not at all.
pub proof fn law_export_data_is_whole(
    buffer_is_null: bool,
    size: usize,
    replies: Seq<ReplyView>,
)
    requires
        fitting::<WriteCallback>(write_callback_step(buffer_is_null, size), replies),
        run::<WriteCallback>(write_callback_step(buffer_is_null, size), replies) is Done,
    ensures
        ({
            let answer = run::<WriteCallback>(
                write_callback_step(buffer_is_null, size),
                replies,
            )->Done_0;
            &&& answer == 0 || answer == size
            &&& answer == size && size > 0 <==> size > 0 && !buffer_is_null && replies[0]
                == ReplyView::Written(true)
        }),
{
    reveal_with_fuel(run, 2);
    reveal_with_fuel(fitting, 2);
}

/// Law: what a read callback comes to, and by which calls, for every length. No bytes
/// need no buffer and no call; for some bytes a null buffer is an error. Otherwise the
/// source is asked once, for exactly that many bytes, and the answer is the count that
/// it gives, whatever that is.
pub proof fn law_read_callback_outcome(dst_is_null: bool, len: usize, replies: Seq<ReplyView>)
    requires
        fitting::<ReadCallback>(read_callback_step(dst_is_null, len), replies),
        run::<ReadCallback>(read_callback_step(dst_is_null, len), replies) is Done,
    ensures
        ({
            let made = calls::<ReadCallback>(read_callback_step(dst_is_null, len), replies);
            let answer = run::<ReadCallback>(
                read_callback_step(dst_is_null, len),
                replies,
            )->Done_0;
            if len == 0 {
                made.len() == 0 && answer == 0
            } else if dst_is_null {
                made.len() == 0 && answer == usize::MAX
            } else {
                &&& made == seq![RequestView::SourceRead { len }]
                &&& match replies[0] {
                    ReplyView::SourceCount(Some(count)) => answer == count,
                    ReplyView::SourceCount(None) => answer == usize::MAX,
                    ReplyView::Panicked => answer == usize::MAX,
                    _ => false,
                }
            }
        }),
{
    reveal_with_fuel(run, 2);
    reveal_with_fuel(calls, 2);
    reveal_with_fuel(fitting, 2);
    let made = calls::<ReadCallback>(read_callback_step(dst_is_null, len), replies);
    if len > 0 && !dst_is_null {
        assert(made =~= seq![RequestView::SourceRead { len }]);
    }
}

/// Law: what a seek callback comes to, and by which calls, for every offset. A seek
/// from the start, from the current position or from the end asks the source for a
/// seek by the same offset from the same origin, and the answer is the offset that the
/// source gives, whatever that is.
pub proof fn law_seek_callback_outcome(offset: i64, origin: i32, replies: Seq<ReplyView>)
    requires
        fitting::<SeekCallback>(seek_callback_step(offset, origin), replies),
        run::<SeekCallback>(seek_callback_step(offset, origin), replies) is Done,
    ensures
        ({
            let made = calls::<SeekCallback>(seek_callback_step(offset, origin), replies);
            let answer = run::<SeekCallback>(seek_callback_step(offset, origin), replies)->Done_0;
            if origin < 0 || origin > 2 || (origin == 0 && offset < 0) {
                made.len() == 0 && answer == u64::MAX
            } else {
                &&& made.len() == 1
                &&& made[0] matches RequestView::SourceSeek { pos }
                &&& origin == 0 ==> pos is Start && pos->Start_0 == offset
                &&& origin == 1 ==> pos == SeekFrom::Current(offset)
                &&& origin == 2 ==> pos == SeekFrom::End(offset)
                &&& match replies[0] {
                    ReplyView::SourceOffset(Some(found)) => answer == found,
                    ReplyView::SourceOffset(None) => answer == u64::MAX,
                    ReplyView::Panicked => answer == u64::MAX,
                    _ => false,
                }
            }
        }),
{
    reveal_with_fuel(run, 2);
    reveal_with_fuel(calls, 2);
    reveal_with_fuel(fitting, 2);
}

/// Law: a size query answers with the offset of the end that the source gives, whatever
/// that is, if the source could also be taken back, and with the error value otherwise.
pub proof fn law_size_callback_answers_the_end(replies: Seq<ReplyView>)
    requires
        fitting::<SizeCallback>(size_callback_step(), replies),
        run::<SizeCallback>(size_callback_step(), replies) is Done,
    ensures
        ({
            let made = calls::<SizeCallback>(size_callback_step(), replies);
            let answer = run::<SizeCallback>(size_callback_step(), replies)->Done_0;
            match (replies[0], replies[1], replies[2]) {
                (
                    ReplyView::SourceOffset(Some(current)),
                    ReplyView::SourceOffset(Some(end)),
                    ReplyView::SourceOffset(Some(_)),
                ) => {
                    &&& answer == end
                    &&& made == seq![
                        RequestView::SourcePosition,
                        RequestView::SourceSeek { pos: SeekFrom::End(0) },
                        RequestView::SourceSeek { pos: SeekFrom::Start(current) },
                    ]
                },
                _ => answer == u64::MAX,
            }
        }),
{
    law_size_query_outcome(replies);
    reveal_with_fuel(run, 4);
    reveal_with_fuel(fitting, 4);
}

/// Law: a clone callback asks for one clone and answers with exactly the address of
/// the clone that was made, whatever it is. It answers null after a panic.
pub proof fn law_clone_callback_answers_the_clone(replies: Seq<ReplyView>)
    requires
        fitting::<CloneCallback>(clone_callback_step(), replies),
        run::<CloneCallback>(clone_callback_step(), replies) is Done,
    ensures
        ({
            let answer = run::<CloneCallback>(clone_callback_step(), replies)->Done_0;
            &&& calls::<CloneCallback>(clone_callback_step(), replies) == seq![
                RequestView::SourceClone,
            ]
            &&& match replies[0] {
                ReplyView::Cloned(address) => answer == address,
                ReplyView::Panicked => answer == 0,
                _ => false,
            }
        }),
{
    reveal_with_fuel(run, 2);
    reveal_with_fuel(calls, 2);
    reveal_with_fuel(fitting, 2);
    assert(calls::<CloneCallback>(clone_callback_step(), replies) =~= seq![
        RequestView::SourceClone,
    ]);
}

/// Law: what a callback that takes exported index data comes to, and by which calls,
/// for every size. Some bytes in a buffer are to be written all at once, and the answer
/// is all of them exactly if they were.
pub proof fn law_write_callback_outcome(
    buffer_is_null: bool,
    size: usize,
    replies: Seq<ReplyView>,
)
    requires
        fitting::<WriteCallback>(write_callback_step(buffer_is_null, size), replies),
        run::<WriteCallback>(write_callback_step(buffer_is_null, size), replies) is Done,
    ensures
        ({
            let made = calls::<WriteCallback>(write_callback_step(buffer_is_null, size), replies);
            let answer = run::<WriteCallback>(
                write_callback_step(buffer_is_null, size),
                replies,
            )->Done_0;
            if size == 0 || buffer_is_null {
                made.len() == 0 && answer == 0
            } else {
                &&& made == seq![RequestView::WriteTemp { size }]
                &&& match replies[0] {
                    ReplyView::Written(true) => answer == size,
                    ReplyView::Written(false) => answer == 0,
                    ReplyView::Panicked => answer == 0,
                    _ => false,
                }
            }
        }),
{
    reveal_with_fuel(run, 2);
    reveal_with_fuel(calls, 2);
    reveal_with_fuel(fitting, 2);
    let made = calls::<WriteCallback>(write_callback_step(buffer_is_null, size), replies);
    if size > 0 && !buffer_is_null {
        assert(made =~= seq![RequestView::WriteTemp { size }]);
    }
}

/// Law: a callback takes whatever the calls it asked for can give, a panic included,
/// and nothing else.
pub proof fn law_callbacks_take_every_reply(
    is_null: bool,
    len: usize,
    offset: i64,
    origin: i32,
    replies: Seq<ReplyView>,
)
    ensures
        fitting::<ReadCallback>(read_callback_step(is_null, len), replies) <==> all_fit(
            calls::<ReadCallback>(read_callback_step(is_null, len), replies),
            replies,
        ),
        fitting::<SeekCallback>(seek_callback_step(offset, origin), replies) <==> all_fit(
            calls::<SeekCallback>(seek_callback_step(offset, origin), replies),
            replies,
        ),
        fitting::<SizeCallback>(size_callback_step(), replies) <==> all_fit(
            calls::<SizeCallback>(size_callback_step(), replies),
            replies,
        ),
        fitting::<CloneCallback>(clone_callback_step(), replies) <==> all_fit(
            calls::<CloneCallback>(clone_callback_step(), replies),
            replies,
        ),
        fitting::<WriteCallback>(write_callback_step(is_null, len), replies) <==> all_fit(
            calls::<WriteCallback>(write_callback_step(is_null, len), replies),
            replies,
        ),
{
    lemma_fitting::<ReadCallback>(
        read_callback_step(is_null, len),
        replies,
        |step: StepView<ReadCallback, usize>|
            step matches StepView::Call(q, _) ==> q is SourceRead,
    );
    lemma_fitting::<SeekCallback>(
        seek_callback_step(offset, origin),
        replies,
        |step: StepView<SeekCallback, u64>| step matches StepView::Call(q, _) ==> q is SourceSeek,
    );
    lemma_fitting::<SizeCallback>(
        size_callback_step(),
        replies,
        |step: StepView<SizeCallback, u64>|
            step matches StepView::Call(q, _) ==> q is SourceSeek || q is SourcePosition,
    );
    lemma_fitting::<CloneCallback>(
        clone_callback_step(),
        replies,
        |step: StepView<CloneCallback, usize>|
            step matches StepView::Call(q, _) ==> q is SourceClone,
    );
    lemma_fitting::<WriteCallback>(
        write_callback_step(is_null, len),
        replies,
        |step: StepView<WriteCallback, usize>| step matches StepView::Call(q, _) ==> q is WriteTemp,
    );
}

/// Law: what is proved of the answer of a callback is proved of the very number that
/// the native layer gets.
pub proof fn law_answers_are_shown_as_they_are(count: usize, offset: u64)
    ensures
        ReadCallback::outcome(count) == count,
        SeekCallback::outcome(offset) == offset,
        SizeCallback::outcome(offset) == offset,
        CloneCallback::outcome(count) == count,
        WriteCallback::outcome(count) == count,
{
}

} // verus!
