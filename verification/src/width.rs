//! Display width of characters and character sequences.
//!
//! The engine measures text in on-screen columns: every character
//! contributes its own display width (East Asian wide glyphs count as 2,
//! combining marks as 0), and the width of a sequence is the sum of the
//! widths of its characters.

use vstd::prelude::*;

verus! {

/// The display width, in columns, of a single character.
pub uninterp spec fn char_width_of(c: char) -> nat;

/// Relies on unicode_width's `UnicodeWidthChar::width`: the width of a
/// character is a function of that character alone; printable ASCII is one
/// column wide; a control character has no width (`None`, taken as 0).
#[verifier::external_body]
pub fn char_display_width(c: char) -> (w: usize)
    ensures
        w == char_width_of(c),
        0x20 <= c as u32 && c as u32 <= 0x7e ==> w == 1,
        (c as u32) < 0x20 ==> w == 0,
{
    unicode_width::UnicodeWidthChar::width(c).unwrap_or(0)
}

/// The display width of a character sequence: the sum of the widths of its
/// characters.
pub open spec fn seq_width(s: Seq<char>) -> nat
    decreases s.len(),
{
    if s.len() == 0 {
        0
    } else {
        char_width_of(s[0]) + seq_width(s.drop_first())
    }
}

/// Width distributes over concatenation.
pub proof fn lemma_seq_width_concat(a: Seq<char>, b: Seq<char>)
    ensures
        seq_width(a + b) == seq_width(a) + seq_width(b),
    decreases a.len(),
{
    if a.len() == 0 {
        assert(a + b =~= b);
    } else {
        assert((a + b).drop_first() =~= a.drop_first() + b);
        lemma_seq_width_concat(a.drop_first(), b);
    }
}

/// A one-character sequence is as wide as its character.
pub proof fn lemma_seq_width_singleton(c: char)
    ensures
        seq_width(seq![c]) == char_width_of(c),
{
    assert(seq_width(Seq::<char>::empty()) == 0);
    assert(seq![c].drop_first() =~= Seq::<char>::empty());
    assert(seq![c][0] == c);
}

/// The width of `s[a..c)` splits at any interior point `b`.
pub proof fn lemma_seq_width_split(s: Seq<char>, a: int, b: int, c: int)
    requires
        0 <= a <= b <= c <= s.len(),
    ensures
        seq_width(s.subrange(a, c)) == seq_width(s.subrange(a, b)) + seq_width(s.subrange(b, c)),
{
    assert(s.subrange(a, c) =~= s.subrange(a, b) + s.subrange(b, c));
    lemma_seq_width_concat(s.subrange(a, b), s.subrange(b, c));
}

} // verus!
