//! The coordinate mapping policy: how a cursor coordinate (in units) is
//! translated into an offset inside the rendered text handed to a renderer.
//!
//! The engine itself always counts one Unicode scalar value per unit; the
//! pluggable part is the rendered-offset translation. The shipped default
//! maps a unit offset to the byte offset of that unit in the text's UTF-8
//! form, so `map(length(text), text)` equals the byte length of the text.

use vstd::prelude::*;
use vstd::utf8::encode_utf8;

use crate::chars::{chars_to_string, subvec};
use crate::cursor::CursorCoordinate;

verus! {

/// A policy translating cursor coordinates into offsets of the rendered
/// string.
pub trait CursorToCharIndexMapper {
    /// What `map` returns, as a function of the coordinate and the text.
    spec fn map_spec(coord: int, text: Seq<char>) -> int;

    /// Translates a coordinate (at most `length(text)`) into an offset in
    /// the rendered form of `text`.
    fn map(cursor_index: CursorCoordinate, text: &Vec<char>) -> (r: usize)
        requires
            cursor_index.0 <= text@.len(),
        ensures
            r as int == Self::map_spec(cursor_index.0 as int, text@),
    ;

    /// The total number of addressable units in the text.
    fn string_length(text: &Vec<char>) -> (r: usize)
        ensures
            r == text@.len(),
    ;
}

/// The default policy: each Unicode scalar value is one unit, and a unit
/// offset maps to the byte offset of that unit in the UTF-8 rendering.
pub struct SimpleCursorToCharIndexMapper;

impl CursorToCharIndexMapper for SimpleCursorToCharIndexMapper {
    open spec fn map_spec(coord: int, text: Seq<char>) -> int {
        (encode_utf8(text.subrange(0, coord)).len() as usize) as int
    }

    fn map(cursor_index: CursorCoordinate, text: &Vec<char>) -> (r: usize) {
        let prefix = subvec(text, 0, cursor_index.0);
        let rendered = chars_to_string(&prefix);
        rendered.as_str().len()
    }

    fn string_length(text: &Vec<char>) -> (r: usize) {
        text.len()
    }
}

} // verus!
