//! Conversions between `String` and its sequence of characters.
//!
//! The editing engine works on a buffer of Unicode scalar values, one `char`
//! per coordinate unit; these helpers cross between that representation and
//! `String` at the library boundary.

use vstd::prelude::*;

verus! {

/// Relies on `str::chars`: the iterator yields exactly the characters of the
/// string, in order.
#[verifier::external_body]
pub fn string_to_chars(s: &str) -> (v: Vec<char>)
    ensures
        v@ == s@,
{
    s.chars().collect()
}

/// Relies on `String`'s `FromIterator` impl: collecting characters builds the
/// string with exactly those characters, in order.
#[verifier::external_body]
pub fn chars_to_string(v: &Vec<char>) -> (s: String)
    ensures
        s@ == v@,
{
    v.iter().collect()
}

/// Copies the characters `text[start..stop)` into a fresh buffer.
pub fn subvec(text: &Vec<char>, start: usize, stop: usize) -> (v: Vec<char>)
    requires
        start <= stop <= text@.len(),
    ensures
        v@ == text@.subrange(start as int, stop as int),
{
    let mut v: Vec<char> = Vec::new();
    let mut i = start;
    while i < stop
        invariant
            start <= i <= stop <= text@.len(),
            v@ == text@.subrange(start as int, i as int),
        decreases stop - i,
    {
        v.push(text[i]);
        i = i + 1;
        proof {
            assert(v@ =~= text@.subrange(start as int, i as int));
        }
    }
    v
}

} // verus!
