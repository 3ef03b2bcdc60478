//! What the native layer sees of a source that works.
//!
//! How a source answers is not for this library to say. The laws here take it as a
//! premise: [`Input`] and [`input_answers`] say what it means that a source holds some
//! bytes, is at a position in them and answers accordingly, and the laws say what the
//! callbacks of the native layer come to on it.

use vstd::prelude::*;

use crate::callbacks::{
    law_read_callback_outcome, law_seek_callback_outcome, law_size_query_outcome,
    read_callback_step, seek_callback_step, size_callback_step, ReadCallback, SeekCallback,
    SizeCallback,
};
use crate::io::SeekFrom;
use crate::protocol::{calls, fitting, run, ReplyView, RequestView};

verus! {

/// A source as the native layer sees it: the bytes that it holds, the position in
/// them, which may lie beyond their end, and the native buffer of a read.
pub struct Input {
    pub data: Seq<u8>,
    pub pos: int,
    pub buffer: Seq<u8>,
}

/// Where a seek in a source is to end.
pub open spec fn input_goal(input: Input, pos: SeekFrom) -> int {
    match pos {
        SeekFrom::Start(offset) => offset as int,
        SeekFrom::Current(offset) => input.pos + offset,
        SeekFrom::End(offset) => input.data.len() + offset,
    }
}

/// Whether a source that is as `before` answers a call with `reply` and is as `after`
/// then. It reads what follows its position and gives nothing only where nothing
/// follows; it goes wherever an offset can say, and refuses to go elsewhere.
pub open spec fn input_answers(
    before: Input,
    request: RequestView,
    reply: ReplyView,
    after: Input,
) -> bool {
    match (request, reply) {
        (RequestView::SourceRead { len }, ReplyView::SourceCount(Some(count))) => {
            &&& count <= len
            &&& count > 0 ==> before.pos + count <= before.data.len()
            &&& count == 0 && len > 0 ==> before.pos >= before.data.len()
            &&& after.buffer.len() == before.buffer.len()
            &&& forall|i: int|
                0 <= i < count ==> #[trigger] after.buffer[i] == before.data[before.pos + i]
            &&& after == (Input { pos: before.pos + count, buffer: after.buffer, ..before })
        },
        (RequestView::SourceSeek { pos }, ReplyView::SourceOffset(found)) => {
            let goal = input_goal(before, pos);
            if 0 <= goal <= u64::MAX {
                found == Some(goal as u64) && after == (Input { pos: goal, ..before })
            } else {
                found is None && after == before
            }
        },
        (RequestView::SourcePosition, ReplyView::SourceOffset(found)) => {
            &&& found matches Some(offset) && offset == before.pos
            &&& after == before
        },
        _ => false,
    }
}

/// Whether `states` are the source before the first call, between any two, and after
/// the last.
pub open spec fn input_answered(
    made: Seq<RequestView>,
    replies: Seq<ReplyView>,
    states: Seq<Input>,
) -> bool {
    &&& states.len() == made.len() + 1
    &&& forall|i: int|
        0 <= i < made.len() ==> input_answers(
            states[i],
            #[trigger] made[i],
            replies[i],
            states[i + 1],
        )
}

/// Law: a native seek moves the source by the offset from the start, from where it is
/// or from its end, as the origin says, and answers where it is then. A seek from an
/// unknown origin, or to a place that no offset can say, is answered with the error
/// value and does not move the source.
pub proof fn law_native_seek_moves_the_source(
    offset: i64,
    origin: i32,
    replies: Seq<ReplyView>,
    states: Seq<Input>,
)
    requires
        fitting::<SeekCallback>(seek_callback_step(offset, origin), replies),
        run::<SeekCallback>(seek_callback_step(offset, origin), replies) is Done,
        input_answered(
            calls::<SeekCallback>(seek_callback_step(offset, origin), replies),
            replies,
            states,
        ),
    ensures
        ({
            let answer = run::<SeekCallback>(seek_callback_step(offset, origin), replies)->Done_0;
            let before = states.first();
            let after = states.last();
            let goal = if origin == 0 {
                offset as int
            } else if origin == 1 {
                before.pos + offset
            } else {
                before.data.len() + offset
            };
            if 0 <= origin <= 2 && 0 <= goal <= u64::MAX {
                answer == goal && after == (Input { pos: goal, ..before })
            } else {
                answer == u64::MAX && after == before
            }
        }),
{
    law_seek_callback_outcome(offset, origin, replies);
    let made = calls::<SeekCallback>(seek_callback_step(offset, origin), replies);
    if made.len() == 1 {
        assert(input_answers(states[0], made[0], replies[0], states[1]));
    }
}

/// Law: a native read gives the bytes that follow the position of the source, at most
/// as many as were asked for, moves the source on by as many, and answers how many. A
/// read of no bytes, or into a null buffer, does not touch the source.
pub proof fn law_native_read_gives_what_follows(
    dst_is_null: bool,
    len: usize,
    replies: Seq<ReplyView>,
    states: Seq<Input>,
)
    requires
        fitting::<ReadCallback>(read_callback_step(dst_is_null, len), replies),
        run::<ReadCallback>(read_callback_step(dst_is_null, len), replies) is Done,
        input_answered(
            calls::<ReadCallback>(read_callback_step(dst_is_null, len), replies),
            replies,
            states,
        ),
    ensures
        ({
            let answer = run::<ReadCallback>(
                read_callback_step(dst_is_null, len),
                replies,
            )->Done_0;
            let before = states.first();
            let after = states.last();
            if len == 0 {
                answer == 0 && after == before
            } else if dst_is_null {
                answer == usize::MAX && after == before
            } else {
                &&& answer <= len
                &&& after.data == before.data
                &&& after.pos == before.pos + answer
                &&& answer > 0 ==> after.pos <= before.data.len()
                &&& answer == 0 ==> before.pos >= before.data.len()
                &&& forall|i: int|
                    0 <= i < answer ==> #[trigger] after.buffer[i] == before.data[before.pos + i]
            }
        }),
{
    law_read_callback_outcome(dst_is_null, len, replies);
    let made = calls::<ReadCallback>(read_callback_step(dst_is_null, len), replies);
    if made.len() == 1 {
        assert(made[0] == (RequestView::SourceRead { len }));
        assert(input_answers(states[0], made[0], replies[0], states[1]));
    }
}

/// Law: a size query answers how many bytes the source holds, and leaves the source as
/// it was.
pub proof fn law_size_query_measures_the_source(replies: Seq<ReplyView>, states: Seq<Input>)
    requires
        fitting::<SizeCallback>(size_callback_step(), replies),
        run::<SizeCallback>(size_callback_step(), replies) is Done,
        input_answered(
            calls::<SizeCallback>(size_callback_step(), replies),
            replies,
            states,
        ),
        states.first().data.len() <= u64::MAX,
    ensures
        run::<SizeCallback>(size_callback_step(), replies)->Done_0 == states.first().data.len(),
        states.last() == states.first(),
{
    law_size_query_outcome(replies);
    reveal_with_fuel(run, 4);
    reveal_with_fuel(calls, 4);
    let made = calls::<SizeCallback>(size_callback_step(), replies);
    assert(made[0] == RequestView::SourcePosition);
    assert(input_answers(states[0], made[0], replies[0], states[1]));
    assert(made[1] == (RequestView::SourceSeek { pos: SeekFrom::End(0) }));
    assert(input_answers(states[1], made[1], replies[1], states[2]));
    assert(made[2] is SourceSeek);
    assert(input_answers(states[2], made[2], replies[2], states[3]));
}

} // verus!
