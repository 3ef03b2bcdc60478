//! Text helpers: white space and concatenation.

use vstd::prelude::*;

verus! {

/// Whether a character has the Unicode `White_Space` property.
pub open spec fn white_space(c: char) -> bool {
    let n = c as u32;
    ||| 0x09 <= n <= 0x0D
    ||| n == 0x20
    ||| n == 0x85
    ||| n == 0xA0
    ||| n == 0x1680
    ||| 0x2000 <= n <= 0x200A
    ||| n == 0x2028
    ||| n == 0x2029
    ||| n == 0x202F
    ||| n == 0x205F
    ||| n == 0x3000
}

/// Whether nothing is left of a text once white space is trimmed off its ends:
/// every character of it is white space.
pub open spec fn blank(text: Seq<char>) -> bool {
    forall|i: int| 0 <= i < text.len() ==> white_space(#[trigger] text[i])
}

/// Tells whether a character has the Unicode `White_Space` property.
pub fn is_white_space(c: char) -> (r: bool)
    ensures
        r == white_space(c),
{
    let n: u32 = c as u32;
    (0x09 <= n && n <= 0x0D) || n == 0x20 || n == 0x85 || n == 0xA0 || n == 0x1680 || (0x2000 <= n
        && n <= 0x200A) || n == 0x2028 || n == 0x2029 || n == 0x202F || n == 0x205F || n == 0x3000
}

/// Tells whether a text is empty or white space only.
pub fn is_blank(text: &str) -> (r: bool)
    ensures
        r == blank(text@),
{
    for c in iter: text.chars()
        invariant
            iter.seq() == text@,
            forall|i: int| 0 <= i < iter.index() ==> white_space(#[trigger] text@[i]),
    {
        if !is_white_space(c) {
            assert(!white_space(text@[iter.index()]));
            return false;
        }
    }
    true
}

/// Writes two texts one after the other.
pub(crate) fn join(first: &str, second: &str) -> (r: String)
    ensures
        r@ == first@ + second@,
{
    let mut r = first.to_owned();
    r.append(second);
    r
}

/// Law: a text is blank exactly if it has no character that is not white space,
/// however long it is: the empty text is, and one more character keeps it so exactly
/// if that is white space.
pub proof fn law_blank_by_characters(text: Seq<char>, c: char)
    ensures
        blank(Seq::<char>::empty()),
        blank(text.push(c)) <==> blank(text) && white_space(c),
{
    if blank(text.push(c)) {
        assert(text.push(c)[text.len() as int] == c);
        assert forall|i: int| 0 <= i < text.len() implies white_space(#[trigger] text[i]) by {
            assert(text.push(c)[i] == text[i]);
        }
    }
}

} // verus!
