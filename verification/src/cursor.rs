//! The cursor: an owned text buffer, a position in it, and the left edge of
//! the last computed visible window.
//!
//! Positions are measured in coordinate units; the engine's unit is one
//! Unicode scalar value, so the buffer is held as one `char` per unit.
//! The position always lies in `[0, length(text)]`: the end position, one
//! past the last character, is valid and denotes "after the last character".

use vstd::math::{max, min};
use vstd::prelude::*;

use crate::chars::{chars_to_string, string_to_chars, subvec};
use crate::error::CursorError;
use crate::mapper::CursorToCharIndexMapper;
use crate::width::seq_width;
use crate::window::{get_text_window, window_spec};

verus! {

/// A position in a text buffer, in coordinate units (not bytes).
#[derive(Debug, Copy, Clone, PartialEq, Eq, PartialOrd, Ord, Structural)]
pub struct CursorCoordinate(pub usize);

/// `t` with `s` inserted at unit offset `i`.
pub open spec fn insert_text(t: Seq<char>, i: int, s: Seq<char>) -> Seq<char> {
    t.subrange(0, i) + s + t.subrange(i, t.len() as int)
}

/// `t` with the half-open unit range `[lo, hi)` removed.
pub open spec fn remove_text(t: Seq<char>, lo: int, hi: int) -> Seq<char> {
    t.subrange(0, lo) + t.subrange(hi, t.len() as int)
}

/// A coordinate clamped into `[0, len]`.
pub open spec fn clamp_coord(c: int, len: int) -> int {
    if c > len {
        len
    } else {
        c
    }
}

/// A selection, given by its two edges in either order, clipped to the
/// window `[start, end)` and shifted to be window-relative, still in units.
/// A selection that ends up empty is not rendered at all.
pub open spec fn clip_selection_to_window(a: int, b: int, start: int, end: int) -> Option<
    (int, int),
> {
    let lo = max(min(a, b), start);
    let hi = min(max(a, b), end);
    if lo < hi {
        Some((lo - start, hi - start))
    } else {
        None
    }
}

/// Inserting a string at a valid position and then deleting the same
/// coordinate range restores the original text exactly.
pub proof fn lemma_insert_then_delete(t: Seq<char>, i: int, s: Seq<char>)
    requires
        0 <= i <= t.len(),
    ensures
        remove_text(insert_text(t, i, s), i, i + s.len()) == t,
{
    assert(remove_text(insert_text(t, i, s), i, i + s.len()) =~= t);
}

/// A text buffer with a cursor position and the remembered left edge of the
/// last visible window.
pub struct Cursor {
    position: CursorCoordinate,
    left_window_pos: CursorCoordinate,
    text: Vec<char>,
}

impl Cursor {
    /// The buffer's characters, one per coordinate unit.
    pub closed spec fn text_model(&self) -> Seq<char> {
        self.text@
    }

    /// The cursor position, in units.
    pub closed spec fn pos(&self) -> int {
        self.position.0 as int
    }

    /// The left edge of the last computed window, in units.
    pub closed spec fn window_anchor(&self) -> int {
        self.left_window_pos.0 as int
    }

    /// The cursor never leaves `[0, length(text)]`.
    pub open spec fn wf(&self) -> bool {
        0 <= self.pos() <= self.text_model().len()
    }

    /// A fresh cursor over `text`, at position 0, with the window anchored
    /// at the start.
    pub fn new(text: String) -> (c: Cursor)
        ensures
            c.wf(),
            c.text_model() == text@,
            c.pos() == 0,
            c.window_anchor() == 0,
    {
        Cursor {
            position: CursorCoordinate(0),
            left_window_pos: CursorCoordinate(0),
            text: string_to_chars(text.as_str()),
        }
    }

    /// The whole buffer as a string.
    pub fn text(&self) -> (t: String)
        ensures
            t@ == self.text_model(),
    {
        chars_to_string(&self.text)
    }

    /// The substring between two coordinates, `start <= stop`.
    pub fn get_substring(&self, start: CursorCoordinate, stop: CursorCoordinate) -> (r: String)
        requires
            start.0 <= stop.0,
            stop.0 <= self.text_model().len(),
        ensures
            r@ == self.text_model().subrange(start.0 as int, stop.0 as int),
    {
        let part = subvec(&self.text, start.0, stop.0);
        chars_to_string(&part)
    }

    /// Computes the visible window for `width` columns, remembers its left
    /// edge for the next render, and returns the visible substring, the
    /// cursor's mapped offset within that substring, and the selection
    /// clipped to the window and mapped the same way.
    pub fn get_visible_text<M: CursorToCharIndexMapper>(
        &mut self,
        width: usize,
        selection: Option<(CursorCoordinate, CursorCoordinate)>,
    ) -> (r: (String, usize, Option<(usize, usize)>))
        requires
            old(self).wf(),
            selection matches Some((a, b)) ==> a.0 <= old(self).text_model().len() && b.0 <= old(
                self,
            ).text_model().len(),
        ensures
            final(self).wf(),
            final(self).text_model() == old(self).text_model(),
            final(self).pos() == old(self).pos(),
            ({
                let text = old(self).text_model();
                let anchor = clamp_coord(old(self).window_anchor(), text.len() as int);
                let win = window_spec(text, anchor, old(self).pos(), width as int);
                let visible = text.subrange(win.0, win.1);
                &&& 0 <= win.0 <= old(self).pos() <= win.1 <= text.len()
                &&& seq_width(visible) <= width as int
                &&& final(self).window_anchor() == win.0
                &&& r.0@ == visible
                &&& r.1 as int == M::map_spec(old(self).pos() - win.0, visible)
                &&& match selection {
                    None => r.2 is None,
                    Some((a, b)) => match clip_selection_to_window(
                        a.0 as int,
                        b.0 as int,
                        win.0,
                        win.1,
                    ) {
                        None => r.2 is None,
                        Some((lo, hi)) => r.2 matches Some(p) && p.0 as int == M::map_spec(
                            lo,
                            visible,
                        ) && p.1 as int == M::map_spec(hi, visible),
                    },
                }
            }),
    {
        let len = self.text.len();
        let anchor = if self.left_window_pos.0 > len {
            CursorCoordinate(len)
        } else {
            self.left_window_pos
        };
        let window = get_text_window(&self.text, anchor, self.position, width);
        self.left_window_pos = window.cursor_start;
        let visible = subvec(&self.text, window.cursor_start.0, window.cursor_end.0);
        let out_text = chars_to_string(&visible);
        let cursor_col = M::map(
            CursorCoordinate(self.position.0 - window.cursor_start.0),
            &visible,
        );
        let mapped_selection = match selection {
            None => None,
            Some((a, b)) => {
                let (sel_lo, sel_hi) = if a.0 <= b.0 {
                    (a.0, b.0)
                } else {
                    (b.0, a.0)
                };
                let lo = if sel_lo < window.cursor_start.0 {
                    window.cursor_start.0
                } else {
                    sel_lo
                };
                let hi = if sel_hi > window.cursor_end.0 {
                    window.cursor_end.0
                } else {
                    sel_hi
                };
                if lo < hi {
                    Some(
                        (
                            M::map(CursorCoordinate(lo - window.cursor_start.0), &visible),
                            M::map(CursorCoordinate(hi - window.cursor_start.0), &visible),
                        ),
                    )
                } else {
                    None
                }
            },
        };
        (out_text, cursor_col, mapped_selection)
    }

    /// Moves one unit left if not already at the start; reports whether it
    /// moved. Never fails.
    pub fn move_left(&mut self) -> (moved: bool)
        ensures
            final(self).text_model() == old(self).text_model(),
            final(self).window_anchor() == old(self).window_anchor(),
            moved == (old(self).pos() > 0),
            final(self).pos() == if old(self).pos() > 0 {
                old(self).pos() - 1
            } else {
                0int
            },
    {
        let moved = self.position.0 > 0;
        if moved {
            self.position = CursorCoordinate(self.position.0 - 1);
        }
        moved
    }

    /// Moves one unit right, clamped to the end of the text. Never fails.
    pub fn move_right(&mut self)
        requires
            old(self).wf(),
        ensures
            final(self).wf(),
            final(self).text_model() == old(self).text_model(),
            final(self).window_anchor() == old(self).window_anchor(),
            final(self).pos() == min(old(self).pos() + 1, old(self).text_model().len() as int),
    {
        if self.position.0 < self.text.len() {
            self.position = CursorCoordinate(self.position.0 + 1);
        }
    }

    /// Jumps to position 0.
    pub fn move_to_start(&mut self)
        ensures
            final(self).text_model() == old(self).text_model(),
            final(self).window_anchor() == old(self).window_anchor(),
            final(self).pos() == 0,
            final(self).wf(),
    {
        self.position = CursorCoordinate(0);
    }

    /// Jumps to the end position, one past the last character.
    pub fn move_to_end(&mut self)
        ensures
            final(self).text_model() == old(self).text_model(),
            final(self).window_anchor() == old(self).window_anchor(),
            final(self).pos() == old(self).text_model().len(),
            final(self).wf(),
    {
        self.position = CursorCoordinate(self.text.len());
    }

    /// Sets the position, failing with `InvalidCursorPosition` if the
    /// coordinate lies beyond the end of the text.
    pub fn set_position(&mut self, position: CursorCoordinate) -> (r: Result<(), CursorError>)
        ensures
            final(self).text_model() == old(self).text_model(),
            final(self).window_anchor() == old(self).window_anchor(),
            r is Ok <==> position.0 <= old(self).text_model().len(),
            r is Ok ==> final(self).pos() == position.0,
            r is Err ==> final(self).pos() == old(self).pos() && r == Err::<(), CursorError>(
                CursorError::InvalidCursorPosition,
            ),
    {
        if position.0 > self.text.len() {
            Err(CursorError::InvalidCursorPosition)
        } else {
            self.position = position;
            Ok(())
        }
    }

    /// The current position.
    pub fn get_position(&self) -> (p: CursorCoordinate)
        ensures
            p.0 == self.pos(),
    {
        self.position
    }

    /// Inserts `c` at the current position. The position itself does not
    /// move: the inserted character sits at the old position and everything
    /// after it shifts one unit right.
    pub fn insert_char_at_cursor(&mut self, c: char)
        requires
            old(self).wf(),
        ensures
            final(self).wf(),
            final(self).text_model() == old(self).text_model().insert(old(self).pos(), c),
            final(self).pos() == old(self).pos(),
            final(self).window_anchor() == old(self).window_anchor(),
    {
        self.text.insert(self.position.0, c);
    }

    /// Removes the character the cursor sits before; a no-op returning
    /// `false` when the cursor is at the end.
    pub fn delete_char_at_cursor(&mut self) -> (deleted: bool)
        requires
            old(self).wf(),
        ensures
            final(self).wf(),
            deleted == (old(self).pos() < old(self).text_model().len()),
            deleted ==> final(self).text_model() == old(self).text_model().remove(old(self).pos()),
            !deleted ==> final(self).text_model() == old(self).text_model(),
            final(self).pos() == old(self).pos(),
            final(self).window_anchor() == old(self).window_anchor(),
    {
        if self.position.0 >= self.text.len() {
            return false;
        }
        self.text.remove(self.position.0);
        true
    }

    /// Overwrites the character under the cursor with `c`, returning the
    /// character that was replaced, or `None` at end-of-text.
    pub fn replace_char_at_cursor(&mut self, c: char) -> (r: Option<char>)
        requires
            old(self).wf(),
        ensures
            final(self).wf(),
            final(self).pos() == old(self).pos(),
            final(self).window_anchor() == old(self).window_anchor(),
            old(self).pos() < old(self).text_model().len() ==> r == Some(
                old(self).text_model()[old(self).pos()],
            ) && final(self).text_model() == old(self).text_model().update(old(self).pos(), c),
            old(self).pos() >= old(self).text_model().len() ==> r is None && final(self).text_model()
                == old(self).text_model(),
    {
        if self.position.0 >= self.text.len() {
            return None;
        }
        let replaced = self.text.remove(self.position.0);
        self.text.insert(self.position.0, c);
        proof {
            assert(self.text@ =~= old(self).text@.update(old(self).pos(), c));
        }
        Some(replaced)
    }

    /// Inserts a string at the current position and returns the coordinate
    /// immediately after the inserted text. The position itself does not
    /// move; the caller repositions with the returned coordinate if wanted.
    pub fn insert_string_at_cursor(&mut self, s: &str) -> (end: CursorCoordinate)
        requires
            old(self).wf(),
        ensures
            final(self).wf(),
            final(self).text_model() == insert_text(old(self).text_model(), old(self).pos(), s@),
            final(self).pos() == old(self).pos(),
            final(self).window_anchor() == old(self).window_anchor(),
            end.0 == old(self).pos() + s@.len(),
    {
        let mut inserted = string_to_chars(s);
        let size = inserted.len();
        let pos = self.position.0;
        let mut out = subvec(&self.text, 0, pos);
        let mut tail = subvec(&self.text, pos, self.text.len());
        out.append(&mut inserted);
        out.append(&mut tail);
        self.text = out;
        proof {
            assert(self.text@ =~= insert_text(old(self).text@, pos as int, s@));
        }
        let new_len = self.text.len();
        proof {
            assert(pos + size <= new_len);
        }
        CursorCoordinate(pos + size)
    }

    /// Removes the half-open range between the current position and
    /// `second_position` (clamped into bounds), in whichever order the two
    /// coordinates lie. The position is left clamped into the shortened
    /// text; the caller is expected to reposition.
    pub fn delete_string_at_cursor(&mut self, second_position: CursorCoordinate)
        requires
            old(self).wf(),
        ensures
            final(self).wf(),
            final(self).text_model() == remove_text(
                old(self).text_model(),
                min(
                    old(self).pos(),
                    clamp_coord(second_position.0 as int, old(self).text_model().len() as int),
                ),
                max(
                    old(self).pos(),
                    clamp_coord(second_position.0 as int, old(self).text_model().len() as int),
                ),
            ),
            final(self).pos() == min(old(self).pos(), final(self).text_model().len() as int),
            final(self).window_anchor() == old(self).window_anchor(),
    {
        let len = self.text.len();
        let other = if second_position.0 > len {
            len
        } else {
            second_position.0
        };
        let (lo, hi) = if self.position.0 <= other {
            (self.position.0, other)
        } else {
            (other, self.position.0)
        };
        let mut out = subvec(&self.text, 0, lo);
        let mut tail = subvec(&self.text, hi, len);
        out.append(&mut tail);
        self.text = out;
        proof {
            assert(self.text@ =~= remove_text(
                old(self).text@,
                lo as int,
                hi as int,
            ));
        }
        if self.position.0 > self.text.len() {
            self.position = CursorCoordinate(self.text.len());
        }
    }
}

} // verus!
