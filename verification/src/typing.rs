//! The typing behaviour: the single entry point that turns a `UserAction`
//! into buffer, cursor and selection changes, orchestrating a `Cursor`, an
//! optional selection, the insert/overwrite mode flag, and a clipboard
//! collaborator.
//!
//! After every action the invariants hold: the position stays inside
//! `[0, length(text)]`, and the selection is either absent or a pair of
//! distinct in-bounds coordinates — an empty range is normalized away.

use core::marker::PhantomData;
use vstd::math::{max, min};
use vstd::prelude::*;

use crate::actions::UserAction;
use crate::cursor::{
    clamp_coord, clip_selection_to_window, insert_text, remove_text, Cursor, CursorCoordinate,
};
use crate::error::ClipboardError;
use crate::mapper::CursorToCharIndexMapper;
use crate::width::seq_width;
use crate::window::window_spec;

verus! {

/// The engine's action table: relates the buffer, cursor position,
/// selection and insert mode before an action (`pre`) to their values after
/// it (`post`), for a given action and success flag. Only clipboard-backed
/// actions may fail; what they do on success is stated here, and a failed
/// action changes nothing (stated at the call).
pub open spec fn action_transition(
    pre: (Seq<char>, int, Option<(int, int)>, bool),
    post: (Seq<char>, int, Option<(int, int)>, bool),
    action: UserAction,
    ok: bool,
) -> bool {
    let (t, p, sel, m) = pre;
    let (t2, p2, sel2, m2) = post;
    match action {
        UserAction::ToggleInsert => ok && sel2 is None && m2 == !m && t2 == t && p2 == p,
        UserAction::Typing(c) => ok && sel2 is None && m2 == m && t2 == typing_step(
            t,
            p,
            sel,
            m,
            c,
        ).0 && p2 == typing_step(t, p, sel, m, c).1,
        UserAction::Remove => ok && sel2 is None && m2 == m && t2 == remove_step(
            t,
            p,
            sel,
            false,
        ).0 && p2 == remove_step(t, p, sel, false).1,
        UserAction::Delete => ok && sel2 is None && m2 == m && t2 == remove_step(
            t,
            p,
            sel,
            true,
        ).0 && p2 == remove_step(t, p, sel, true).1,
        UserAction::Cut => m2 == m && (sel is None ==> ok && t2 == t && p2 == p
            && sel2 is None) && (sel is Some && ok ==> sel2 is None && t2 == remove_step(
            t,
            p,
            sel,
            false,
        ).0 && p2 == remove_step(t, p, sel, false).1),
        UserAction::Paste => m2 == m && (ok ==> sel2 is None && exists|s: Seq<char>|
            t2 == #[trigger] paste_step(t, p, sel, s).0 && p2 == paste_step(t, p, sel, s).1),
        UserAction::Copy => t2 == t && p2 == p && sel2 == sel && m2 == m && (sel is None ==> ok),
        UserAction::CursorLeft => ok && sel2 is None && m2 == m && t2 == t && p2 == max(p - 1, 0),
        UserAction::CursorRight => ok && sel2 is None && m2 == m && t2 == t && p2 == min(
            p + 1,
            t.len() as int,
        ),
        UserAction::CursorLeftSelect => ok && m2 == m && t2 == t && p2 == max(p - 1, 0) && ({
            let cand = match sel {
                None => (p2, p),
                Some((a, b)) => if p == a {
                    (p2, b)
                } else {
                    (a, p2)
                },
            };
            sel2 == normalized_sel(cand.0, cand.1)
        }),
        UserAction::CursorRightSelect => ok && m2 == m && t2 == t && p2 == min(
            p + 1,
            t.len() as int,
        ) && ({
            let cand = match sel {
                None => (p, p2),
                Some((a, b)) => if p == a {
                    (p2, b)
                } else {
                    (a, p2)
                },
            };
            sel2 == normalized_sel(cand.0, cand.1)
        }),
        UserAction::ToStart => ok && sel2 is None && m2 == m && t2 == t && p2 == 0,
        UserAction::ToStartSelect => ok && m2 == m && t2 == t && p2 == 0 && sel2 == normalized_sel(
            0,
            match sel {
                None => p,
                Some((a, b)) => b,
            },
        ),
        UserAction::ToEnd => ok && sel2 is None && m2 == m && t2 == t && p2 == t.len(),
        UserAction::ToEndSelect => ok && m2 == m && t2 == t && p2 == t.len() && sel2
            == normalized_sel(
            match sel {
                None => p,
                Some((a, b)) => a,
            },
            t.len() as int,
        ),
        UserAction::SelectAll => ok && m2 == m && t2 == t && p2 == p && sel2 == normalized_sel(
            0,
            t.len() as int,
        ),
        UserAction::Null => ok && t2 == t && p2 == p && sel2 == sel && m2 == m,
    }
}

/// A typing behaviour: the single entry point turning user actions into
/// buffer, cursor and selection changes, and the single source for what an
/// editable field should display.
///
/// The contract of `handle_user_action` is the engine's action table: it
/// pins down, for every action, the buffer, cursor position, selection and
/// insert mode after the action in terms of their values before it.
pub trait TypingBehaviour: Sized {
    /// The implementation's invariants; every operation preserves them.
    spec fn wf(&self) -> bool;

    /// The buffer's characters.
    spec fn text_model(&self) -> Seq<char>;

    /// The cursor position, in units.
    spec fn pos(&self) -> int;

    /// The selection's edges, in units, in the order extension left them.
    spec fn sel(&self) -> Option<(int, int)>;

    /// Whether typed characters overwrite instead of inserting.
    spec fn insert_mode(&self) -> bool;

    /// A fresh behaviour over an empty buffer.
    fn empty() -> (r: Self)
        ensures
            r.wf(),
            r.text_model() == Seq::<char>::empty(),
            r.pos() == 0,
            r.sel() is None,
            !r.insert_mode(),
    ;

    /// Processes one user action. Only clipboard-backed actions can fail,
    /// and a failed action leaves the engine in its pre-call state.
    fn handle_user_action(&mut self, action: UserAction) -> (r: Result<(), ClipboardError>)
        requires
            old(self).wf(),
        ensures
            final(self).wf(),
            r is Err ==> final(self).text_model() == old(self).text_model() && final(self).pos()
                == old(self).pos() && final(self).sel() == old(self).sel() && final(self).insert_mode() == old(self).insert_mode(),
            action_transition(
                (old(self).text_model(), old(self).pos(), old(self).sel(), old(self).insert_mode()),
                (
                    final(self).text_model(),
                    final(self).pos(),
                    final(self).sel(),
                    final(self).insert_mode(),
                ),
                action,
                r is Ok,
            ),
    ;

    /// The visible substring for `width` columns, and the selection span
    /// within it, from the same windowing pass as the cursor column.
    fn get_visible_text(&mut self, width: usize) -> (r: (String, Option<(usize, usize)>))
        requires
            old(self).wf(),
        ensures
            final(self).wf(),
            final(self).text_model() == old(self).text_model(),
            final(self).pos() == old(self).pos(),
            final(self).sel() == old(self).sel(),
            final(self).insert_mode() == old(self).insert_mode(),
    ;

    /// The cursor's mapped offset within the visible substring, from the
    /// same windowing pass as `get_visible_text`.
    fn get_cursor_position(&mut self, width: usize) -> (r: usize)
        requires
            old(self).wf(),
        ensures
            final(self).wf(),
            final(self).text_model() == old(self).text_model(),
            final(self).pos() == old(self).pos(),
            final(self).sel() == old(self).sel(),
            final(self).insert_mode() == old(self).insert_mode(),
    ;

    /// The whole buffer.
    fn get_text(&self) -> (r: String)
        ensures
            r@ == self.text_model(),
    ;
}

/// The clipboard collaborator: a process-scoped external resource, fallible
/// on every operation. Nothing is promised of its contents.
pub trait ClipboardProvider {
    /// Reads the clipboard's current text.
    fn get_text(&mut self) -> Result<String, ClipboardError>;

    /// Replaces the clipboard's contents with `text`.
    fn set_text(&mut self, text: String) -> Result<(), ClipboardError>;
}

/// An in-memory clipboard: the same two-method contract, held in a plain
/// field, never failing on writes and failing on reads only while empty.
pub struct MemoryClipboard {
    content: Option<String>,
}

impl MemoryClipboard {
    /// The held text, if any.
    pub closed spec fn content_model(&self) -> Option<Seq<char>> {
        match self.content {
            None => None,
            Some(s) => Some(s@),
        }
    }

    /// A clipboard holding nothing yet.
    pub fn new() -> (r: MemoryClipboard)
        ensures
            r.content_model() is None,
    {
        MemoryClipboard { content: None }
    }
}

impl Default for MemoryClipboard {
    fn default() -> (r: MemoryClipboard)
        ensures
            r.content_model() is None,
    {
        MemoryClipboard { content: None }
    }
}

impl ClipboardProvider for MemoryClipboard {
    fn get_text(&mut self) -> (r: Result<String, ClipboardError>)
        ensures
            final(self).content_model() == old(self).content_model(),
            match old(self).content_model() {
                None => r == Err::<String, ClipboardError>(ClipboardError),
                Some(s) => r matches Ok(t) && t@ == s,
            },
    {
        match &self.content {
            None => Err(ClipboardError),
            Some(s) => Ok(s.clone()),
        }
    }

    fn set_text(&mut self, text: String) -> (r: Result<(), ClipboardError>)
        ensures
            r is Ok,
            final(self).content_model() == Some(text@),
    {
        self.content = Some(text);
        Ok(())
    }
}

/// A selection candidate normalized: an empty range becomes no selection.
pub open spec fn normalized_sel(a: int, b: int) -> Option<(int, int)> {
    if a != b {
        Some((a, b))
    } else {
        None
    }
}

/// Buffer and position after deleting the selection `(a, b)` (edges in
/// either order): the range goes, and the position is the left coordinate
/// clamped into the shortened text.
pub open spec fn delete_selection_step(t: Seq<char>, a: int, b: int) -> (Seq<char>, int) {
    let t2 = remove_text(t, min(a, b), max(a, b));
    (t2, min(a, t2.len() as int))
}

/// Buffer and position after typing `c`: with a selection, the selection is
/// replaced by `c` (the cursor advances past it only in insert mode); with
/// none, overwrite mode replaces the character in place and insert mode
/// shifts the tail right, the cursor advancing one unit either way, clamped
/// at the end.
pub open spec fn typing_step(
    t: Seq<char>,
    p: int,
    sel: Option<(int, int)>,
    insert_mode: bool,
    c: char,
) -> (Seq<char>, int) {
    match sel {
        None => {
            if insert_mode {
                (
                    if p < t.len() {
                        t.update(p, c)
                    } else {
                        t
                    },
                    min(p + 1, t.len() as int),
                )
            } else {
                (t.insert(p, c), p + 1)
            }
        },
        Some((a, b)) => {
            let base = delete_selection_step(t, a, b);
            (
                base.0.insert(base.1, c),
                if insert_mode {
                    base.1
                } else {
                    base.1 + 1
                },
            )
        },
    }
}

/// Buffer and position after a removal: a selection is deleted whole;
/// otherwise forward removal (`inplace`) deletes the character at the
/// cursor, and backspace steps left first and deletes there, a no-op at the
/// start.
pub open spec fn remove_step(t: Seq<char>, p: int, sel: Option<(int, int)>, inplace: bool) -> (
    Seq<char>,
    int,
) {
    match sel {
        None => {
            if inplace {
                if p < t.len() {
                    (t.remove(p), p)
                } else {
                    (t, p)
                }
            } else {
                if p > 0 {
                    (t.remove(p - 1), p - 1)
                } else {
                    (t, p)
                }
            }
        },
        Some((a, b)) => delete_selection_step(t, a, b),
    }
}

/// Buffer and position after pasting `s`: any selection is deleted first,
/// then `s` is inserted at the cursor and the cursor moves past it.
pub open spec fn paste_step(t: Seq<char>, p: int, sel: Option<(int, int)>, s: Seq<char>) -> (
    Seq<char>,
    int,
) {
    let base = match sel {
        None => (t, p),
        Some((a, b)) => delete_selection_step(t, a, b),
    };
    (insert_text(base.0, base.1, s), base.1 + s.len())
}

/// The default typing behaviour: a cursor, the insert/overwrite flag, an
/// optional selection, and an injected clipboard collaborator.
pub struct DefaultTypingBehaviour<M: CursorToCharIndexMapper, C: ClipboardProvider> {
    cursor: Cursor,
    insert_enabled: bool,
    selection: Option<(CursorCoordinate, CursorCoordinate)>,
    clipboard: C,
    _mapper: PhantomData<M>,
}

impl<M: CursorToCharIndexMapper, C: ClipboardProvider + Default> DefaultTypingBehaviour<M, C> {
    /// The left edge of the last computed visible window, in units.
    pub closed spec fn anchor(&self) -> int {
        self.cursor.window_anchor()
    }

    /// A behaviour over `text`, cursor at the start, no selection, insert
    /// mode off, owning `clipboard`.
    pub fn new(text: String, clipboard: C) -> (r: Self)
        ensures
            r.wf(),
            r.text_model() == text@,
            r.pos() == 0,
            r.sel() is None,
            !r.insert_mode(),
            r.anchor() == 0,
    {
        DefaultTypingBehaviour {
            cursor: Cursor::new(text),
            insert_enabled: false,
            selection: None,
            clipboard,
            _mapper: PhantomData,
        }
    }

    /// Stores the candidate selection `(start, stop)`, normalizing an empty
    /// range to no selection.
    fn update_selection(&mut self, start: CursorCoordinate, stop: CursorCoordinate)
        ensures
            final(self).sel() == normalized_sel(start.0 as int, stop.0 as int),
            final(self).text_model() == old(self).text_model(),
            final(self).pos() == old(self).pos(),
            final(self).insert_mode() == old(self).insert_mode(),
            final(self).anchor() == old(self).anchor(),
    {
        if start.0 != stop.0 {
            self.selection = Some((start, stop));
        } else {
            self.selection = None;
        }
    }

    /// Drops any selection.
    fn maybe_clear_selection(&mut self)
        ensures
            final(self).sel() is None,
            final(self).text_model() == old(self).text_model(),
            final(self).pos() == old(self).pos(),
            final(self).insert_mode() == old(self).insert_mode(),
            final(self).anchor() == old(self).anchor(),
    {
        self.selection = None;
    }

    /// Deletes the range between `a` and `b`, leaving the cursor at the
    /// left coordinate clamped into the shortened text.
    fn delete_selection(&mut self, a: CursorCoordinate, b: CursorCoordinate)
        requires
            a.0 <= old(self).text_model().len(),
            b.0 <= old(self).text_model().len(),
        ensures
            final(self).text_model() == delete_selection_step(
                old(self).text_model(),
                a.0 as int,
                b.0 as int,
            ).0,
            final(self).pos() == delete_selection_step(
                old(self).text_model(),
                a.0 as int,
                b.0 as int,
            ).1,
            final(self).pos() <= final(self).text_model().len(),
            final(self).sel() == old(self).sel(),
            final(self).insert_mode() == old(self).insert_mode(),
            final(self).anchor() == old(self).anchor(),
    {
        let _set = self.cursor.set_position(a);
        proof {
            assert(_set is Ok);
        }
        self.cursor.delete_string_at_cursor(b);
    }

    /// Clears the selection and flips the insert/overwrite mode.
    pub fn action_toggle_insert(&mut self)
        requires
            old(self).wf(),
        ensures
            final(self).wf(),
            final(self).sel() is None,
            final(self).insert_mode() == !old(self).insert_mode(),
            final(self).text_model() == old(self).text_model(),
            final(self).pos() == old(self).pos(),
            final(self).anchor() == old(self).anchor(),
    {
        self.maybe_clear_selection();
        self.insert_enabled = !self.insert_enabled;
    }

    /// Types one character, per `typing_step`; any selection is consumed.
    pub fn action_typing(&mut self, c: char)
        requires
            old(self).wf(),
        ensures
            final(self).wf(),
            final(self).sel() is None,
            final(self).insert_mode() == old(self).insert_mode(),
            final(self).anchor() == old(self).anchor(),
            final(self).text_model() == typing_step(
                old(self).text_model(),
                old(self).pos(),
                old(self).sel(),
                old(self).insert_mode(),
                c,
            ).0,
            final(self).pos() == typing_step(
                old(self).text_model(),
                old(self).pos(),
                old(self).sel(),
                old(self).insert_mode(),
                c,
            ).1,
    {
        match self.selection {
            None => {
                if self.insert_enabled {
                    let _replaced = self.cursor.replace_char_at_cursor(c);
                } else {
                    self.cursor.insert_char_at_cursor(c);
                }
                self.cursor.move_right();
            },
            Some((a, b)) => {
                self.selection = None;
                self.delete_selection(a, b);
                self.cursor.insert_char_at_cursor(c);
                if !self.insert_enabled {
                    self.cursor.move_right();
                }
            },
        }
    }

    /// Backspace: deletes the selection, or steps left and deletes there.
    pub fn action_backspace(&mut self)
        requires
            old(self).wf(),
        ensures
            final(self).wf(),
            final(self).sel() is None,
            final(self).insert_mode() == old(self).insert_mode(),
            final(self).anchor() == old(self).anchor(),
            final(self).text_model() == remove_step(
                old(self).text_model(),
                old(self).pos(),
                old(self).sel(),
                false,
            ).0,
            final(self).pos() == remove_step(
                old(self).text_model(),
                old(self).pos(),
                old(self).sel(),
                false,
            ).1,
    {
        self.action_remove(false);
    }

    /// Forward delete: deletes the selection, or the character at the
    /// cursor.
    pub fn action_delete(&mut self)
        requires
            old(self).wf(),
        ensures
            final(self).wf(),
            final(self).sel() is None,
            final(self).insert_mode() == old(self).insert_mode(),
            final(self).anchor() == old(self).anchor(),
            final(self).text_model() == remove_step(
                old(self).text_model(),
                old(self).pos(),
                old(self).sel(),
                true,
            ).0,
            final(self).pos() == remove_step(
                old(self).text_model(),
                old(self).pos(),
                old(self).sel(),
                true,
            ).1,
    {
        self.action_remove(true);
    }

    /// Removal, per `remove_step`; any selection is consumed whole.
    pub fn action_remove(&mut self, inplace: bool)
        requires
            old(self).wf(),
        ensures
            final(self).wf(),
            final(self).sel() is None,
            final(self).insert_mode() == old(self).insert_mode(),
            final(self).anchor() == old(self).anchor(),
            final(self).text_model() == remove_step(
                old(self).text_model(),
                old(self).pos(),
                old(self).sel(),
                inplace,
            ).0,
            final(self).pos() == remove_step(
                old(self).text_model(),
                old(self).pos(),
                old(self).sel(),
                inplace,
            ).1,
    {
        match self.selection {
            None => {
                if inplace {
                    let _deleted = self.cursor.delete_char_at_cursor();
                } else {
                    if self.cursor.move_left() {
                        let _deleted = self.cursor.delete_char_at_cursor();
                    }
                }
            },
            Some((a, b)) => {
                self.selection = None;
                self.delete_selection(a, b);
            },
        }
    }

    /// Clears the selection and moves one unit left.
    pub fn action_cursor_left(&mut self)
        requires
            old(self).wf(),
        ensures
            final(self).wf(),
            final(self).sel() is None,
            final(self).insert_mode() == old(self).insert_mode(),
            final(self).anchor() == old(self).anchor(),
            final(self).text_model() == old(self).text_model(),
            final(self).pos() == max(old(self).pos() - 1, 0),
    {
        self.maybe_clear_selection();
        let _moved = self.cursor.move_left();
    }

    /// Clears the selection and moves one unit right, clamped to the end.
    pub fn action_cursor_right(&mut self)
        requires
            old(self).wf(),
        ensures
            final(self).wf(),
            final(self).sel() is None,
            final(self).insert_mode() == old(self).insert_mode(),
            final(self).anchor() == old(self).anchor(),
            final(self).text_model() == old(self).text_model(),
            final(self).pos() == min(old(self).pos() + 1, old(self).text_model().len() as int),
    {
        self.maybe_clear_selection();
        self.cursor.move_right();
    }

    /// Extends or contracts the selection one unit leftwards: the edge the
    /// cursor sat on moves with it, the other edge stays anchored; an empty
    /// result clears the selection.
    pub fn action_cursor_left_select(&mut self)
        requires
            old(self).wf(),
        ensures
            final(self).wf(),
            final(self).insert_mode() == old(self).insert_mode(),
            final(self).anchor() == old(self).anchor(),
            final(self).text_model() == old(self).text_model(),
            final(self).pos() == max(old(self).pos() - 1, 0),
            ({
                let p2 = max(old(self).pos() - 1, 0);
                let cand = match old(self).sel() {
                    None => (p2, old(self).pos()),
                    Some((a, b)) => if old(self).pos() == a {
                        (p2, b)
                    } else {
                        (a, p2)
                    },
                };
                final(self).sel() == normalized_sel(cand.0, cand.1)
            }),
    {
        let (start, stop) = match self.selection {
            None => {
                let stop = self.cursor.get_position();
                let _moved = self.cursor.move_left();
                (self.cursor.get_position(), stop)
            },
            Some((a, b)) => {
                let previous = self.cursor.get_position();
                let _moved = self.cursor.move_left();
                if previous.0 == a.0 {
                    (self.cursor.get_position(), b)
                } else {
                    (a, self.cursor.get_position())
                }
            },
        };
        self.update_selection(start, stop);
    }

    /// Extends or contracts the selection one unit rightwards; the mirror
    /// of the leftward extension.
    pub fn action_cursor_right_select(&mut self)
        requires
            old(self).wf(),
        ensures
            final(self).wf(),
            final(self).insert_mode() == old(self).insert_mode(),
            final(self).anchor() == old(self).anchor(),
            final(self).text_model() == old(self).text_model(),
            final(self).pos() == min(old(self).pos() + 1, old(self).text_model().len() as int),
            ({
                let p2 = min(old(self).pos() + 1, old(self).text_model().len() as int);
                let cand = match old(self).sel() {
                    None => (old(self).pos(), p2),
                    Some((a, b)) => if old(self).pos() == a {
                        (p2, b)
                    } else {
                        (a, p2)
                    },
                };
                final(self).sel() == normalized_sel(cand.0, cand.1)
            }),
    {
        let (start, stop) = match self.selection {
            None => {
                let start = self.cursor.get_position();
                self.cursor.move_right();
                (start, self.cursor.get_position())
            },
            Some((a, b)) => {
                let previous = self.cursor.get_position();
                self.cursor.move_right();
                if previous.0 == a.0 {
                    (self.cursor.get_position(), b)
                } else {
                    (a, self.cursor.get_position())
                }
            },
        };
        self.update_selection(start, stop);
    }

    /// Clears the selection and jumps to the start of the text.
    pub fn action_cursor_to_start(&mut self)
        requires
            old(self).wf(),
        ensures
            final(self).wf(),
            final(self).sel() is None,
            final(self).insert_mode() == old(self).insert_mode(),
            final(self).anchor() == old(self).anchor(),
            final(self).text_model() == old(self).text_model(),
            final(self).pos() == 0,
    {
        self.maybe_clear_selection();
        self.cursor.move_to_start();
    }

    /// Clears the selection and jumps to the end of the text.
    pub fn action_cursor_to_end(&mut self)
        requires
            old(self).wf(),
        ensures
            final(self).wf(),
            final(self).sel() is None,
            final(self).insert_mode() == old(self).insert_mode(),
            final(self).anchor() == old(self).anchor(),
            final(self).text_model() == old(self).text_model(),
            final(self).pos() == old(self).text_model().len(),
    {
        self.maybe_clear_selection();
        self.cursor.move_to_end();
    }

    /// Extends the selection to the start of the text: the live edge was
    /// the previous stop edge, or the cursor when there was no selection.
    pub fn action_cursor_to_start_select(&mut self)
        requires
            old(self).wf(),
        ensures
            final(self).wf(),
            final(self).insert_mode() == old(self).insert_mode(),
            final(self).anchor() == old(self).anchor(),
            final(self).text_model() == old(self).text_model(),
            final(self).pos() == 0,
            ({
                let stop = match old(self).sel() {
                    None => old(self).pos(),
                    Some((a, b)) => b,
                };
                final(self).sel() == normalized_sel(0, stop)
            }),
    {
        let stop = match self.selection {
            None => self.cursor.get_position(),
            Some((_a, b)) => b,
        };
        self.cursor.move_to_start();
        let start = self.cursor.get_position();
        self.update_selection(start, stop);
    }

    /// Extends the selection to the end of the text: the anchored edge was
    /// the previous start edge, or the cursor when there was no selection.
    pub fn action_cursor_to_end_select(&mut self)
        requires
            old(self).wf(),
        ensures
            final(self).wf(),
            final(self).insert_mode() == old(self).insert_mode(),
            final(self).anchor() == old(self).anchor(),
            final(self).text_model() == old(self).text_model(),
            final(self).pos() == old(self).text_model().len(),
            ({
                let start = match old(self).sel() {
                    None => old(self).pos(),
                    Some((a, b)) => a,
                };
                final(self).sel() == normalized_sel(start, old(self).text_model().len() as int)
            }),
    {
        let start = match self.selection {
            None => self.cursor.get_position(),
            Some((a, _b)) => a,
        };
        self.cursor.move_to_end();
        let stop = self.cursor.get_position();
        self.update_selection(start, stop);
    }

    /// Selects the whole buffer while restoring the cursor to where it was.
    pub fn action_select_all(&mut self)
        requires
            old(self).wf(),
        ensures
            final(self).wf(),
            final(self).insert_mode() == old(self).insert_mode(),
            final(self).anchor() == old(self).anchor(),
            final(self).text_model() == old(self).text_model(),
            final(self).pos() == old(self).pos(),
            final(self).sel() == normalized_sel(0, old(self).text_model().len() as int),
    {
        let pos = self.cursor.get_position();
        self.cursor.move_to_start();
        let start = self.cursor.get_position();
        self.cursor.move_to_end();
        let stop = self.cursor.get_position();
        let _set = self.cursor.set_position(pos);
        proof {
            assert(_set is Ok);
        }
        self.update_selection(start, stop);
    }

    /// Copies the selected substring to the clipboard; a no-op without a
    /// selection. The engine itself never changes, whatever the clipboard
    /// answers.
    pub fn action_copy(&mut self) -> (r: Result<(), ClipboardError>)
        requires
            old(self).wf(),
        ensures
            final(self).wf(),
            final(self).text_model() == old(self).text_model(),
            final(self).pos() == old(self).pos(),
            final(self).sel() == old(self).sel(),
            final(self).insert_mode() == old(self).insert_mode(),
            final(self).anchor() == old(self).anchor(),
            old(self).sel() is None ==> r is Ok,
    {
        match self.selection {
            None => Ok(()),
            Some((a, b)) => {
                let (lo, hi) = if a.0 <= b.0 {
                    (a, b)
                } else {
                    (b, a)
                };
                let snippet = self.cursor.get_substring(lo, hi);
                self.clipboard.set_text(snippet)
            },
        }
    }

    /// Copies the selection to the clipboard and then deletes it; a no-op
    /// without a selection. If the clipboard write fails, nothing is
    /// deleted: the engine is left in its pre-call state.
    pub fn action_cut(&mut self) -> (r: Result<(), ClipboardError>)
        requires
            old(self).wf(),
        ensures
            final(self).wf(),
            final(self).insert_mode() == old(self).insert_mode(),
            final(self).anchor() == old(self).anchor(),
            r is Err ==> final(self).text_model() == old(self).text_model() && final(self).pos()
                == old(self).pos() && final(self).sel() == old(self).sel(),
            old(self).sel() is None ==> r is Ok && final(self).text_model() == old(self).text_model()
                && final(self).pos() == old(self).pos() && final(self).sel() is None,
            old(self).sel() is Some && r is Ok ==> final(self).sel() is None
                && final(self).text_model() == remove_step(
                old(self).text_model(),
                old(self).pos(),
                old(self).sel(),
                false,
            ).0 && final(self).pos() == remove_step(
                old(self).text_model(),
                old(self).pos(),
                old(self).sel(),
                false,
            ).1,
    {
        match self.selection {
            None => Ok(()),
            Some((a, b)) => {
                let (lo, hi) = if a.0 <= b.0 {
                    (a, b)
                } else {
                    (b, a)
                };
                let snippet = self.cursor.get_substring(lo, hi);
                match self.clipboard.set_text(snippet) {
                    Err(e) => Err(e),
                    Ok(_) => {
                        self.selection = None;
                        self.delete_selection(a, b);
                        Ok(())
                    },
                }
            },
        }
    }

    /// Inserts `s` as if it had just been read from the clipboard: any
    /// selection is deleted first, `s` goes in at the cursor, and the
    /// cursor moves to the end of the inserted text.
    pub fn paste_text(&mut self, s: &str)
        requires
            old(self).wf(),
        ensures
            final(self).wf(),
            final(self).sel() is None,
            final(self).insert_mode() == old(self).insert_mode(),
            final(self).anchor() == old(self).anchor(),
            final(self).text_model() == paste_step(
                old(self).text_model(),
                old(self).pos(),
                old(self).sel(),
                s@,
            ).0,
            final(self).pos() == paste_step(
                old(self).text_model(),
                old(self).pos(),
                old(self).sel(),
                s@,
            ).1,
    {
        match self.selection {
            None => {},
            Some((a, b)) => {
                self.selection = None;
                self.delete_selection(a, b);
            },
        }
        let end = self.cursor.insert_string_at_cursor(s);
        let _set = self.cursor.set_position(end);
        proof {
            assert(_set is Ok);
        }
    }

    /// Fetches the clipboard's text and pastes it. If the fetch fails, the
    /// action fails and the engine is left in its pre-call state.
    pub fn action_paste(&mut self) -> (r: Result<(), ClipboardError>)
        requires
            old(self).wf(),
        ensures
            final(self).wf(),
            final(self).insert_mode() == old(self).insert_mode(),
            final(self).anchor() == old(self).anchor(),
            r is Err ==> final(self).text_model() == old(self).text_model() && final(self).pos()
                == old(self).pos() && final(self).sel() == old(self).sel(),
            r is Ok ==> final(self).sel() is None && exists|s: Seq<char>|
                final(self).text_model() == #[trigger] paste_step(
                    old(self).text_model(),
                    old(self).pos(),
                    old(self).sel(),
                    s,
                ).0 && final(self).pos() == paste_step(
                    old(self).text_model(),
                    old(self).pos(),
                    old(self).sel(),
                    s,
                ).1,
    {
        match self.clipboard.get_text() {
            Err(e) => Err(e),
            Ok(s) => {
                self.paste_text(s.as_str());
                proof {
                    assert(self.text_model() == paste_step(
                        old(self).text_model(),
                        old(self).pos(),
                        old(self).sel(),
                        s@,
                    ).0);
                }
                Ok(())
            },
        }
    }
}

impl<M: CursorToCharIndexMapper, C: ClipboardProvider + Default> TypingBehaviour
    for DefaultTypingBehaviour<M, C> {
    /// The engine's invariants: the position lies in `[0, length(text)]`,
    /// and the selection, when present, is a pair of distinct coordinates
    /// inside the same range.
    open spec fn wf(&self) -> bool {
        &&& 0 <= self.pos() <= self.text_model().len()
        &&& match self.sel() {
            None => true,
            Some((a, b)) => a != b && 0 <= a <= self.text_model().len() && 0 <= b
                <= self.text_model().len(),
        }
    }

    closed spec fn text_model(&self) -> Seq<char> {
        self.cursor.text_model()
    }

    closed spec fn pos(&self) -> int {
        self.cursor.pos()
    }

    closed spec fn sel(&self) -> Option<(int, int)> {
        match self.selection {
            None => None,
            Some((a, b)) => Some((a.0 as int, b.0 as int)),
        }
    }

    closed spec fn insert_mode(&self) -> bool {
        self.insert_enabled
    }

    fn empty() -> (r: Self) {
        DefaultTypingBehaviour::new(String::new(), C::default())
    }

    fn handle_user_action(&mut self, action: UserAction) -> (r: Result<(), ClipboardError>) {
        match action {
            UserAction::ToggleInsert => {
                self.action_toggle_insert();
                Ok(())
            },
            UserAction::Typing(c) => {
                self.action_typing(c);
                Ok(())
            },
            UserAction::Remove => {
                self.action_backspace();
                Ok(())
            },
            UserAction::Delete => {
                self.action_delete();
                Ok(())
            },
            UserAction::Cut => self.action_cut(),
            UserAction::Paste => self.action_paste(),
            UserAction::Copy => self.action_copy(),
            UserAction::CursorLeft => {
                self.action_cursor_left();
                Ok(())
            },
            UserAction::CursorRight => {
                self.action_cursor_right();
                Ok(())
            },
            UserAction::CursorLeftSelect => {
                self.action_cursor_left_select();
                Ok(())
            },
            UserAction::CursorRightSelect => {
                self.action_cursor_right_select();
                Ok(())
            },
            UserAction::ToStart => {
                self.action_cursor_to_start();
                Ok(())
            },
            UserAction::ToStartSelect => {
                self.action_cursor_to_start_select();
                Ok(())
            },
            UserAction::ToEnd => {
                self.action_cursor_to_end();
                Ok(())
            },
            UserAction::ToEndSelect => {
                self.action_cursor_to_end_select();
                Ok(())
            },
            UserAction::SelectAll => {
                self.action_select_all();
                Ok(())
            },
            UserAction::Null => Ok(()),
        }
    }

    fn get_visible_text(&mut self, width: usize) -> (r: (String, Option<(usize, usize)>))
        ensures
            ({
                let text = old(self).text_model();
                let anchor0 = clamp_coord(old(self).anchor(), text.len() as int);
                let win = window_spec(text, anchor0, old(self).pos(), width as int);
                let visible = text.subrange(win.0, win.1);
                &&& 0 <= win.0 <= old(self).pos() <= win.1 <= text.len()
                &&& seq_width(visible) <= width as int
                &&& final(self).anchor() == win.0
                &&& r.0@ == visible
                &&& match old(self).sel() {
                    None => r.1 is None,
                    Some((a, b)) => match clip_selection_to_window(a, b, win.0, win.1) {
                        None => r.1 is None,
                        Some((lo, hi)) => r.1 matches Some(p) && p.0 as int == M::map_spec(
                            lo,
                            visible,
                        ) && p.1 as int == M::map_spec(hi, visible),
                    },
                }
            }),
    {
        let (text, _cursor, sel) = self.cursor.get_visible_text::<M>(width, self.selection);
        (text, sel)
    }

    fn get_cursor_position(&mut self, width: usize) -> (r: usize)
        ensures
            ({
                let text = old(self).text_model();
                let anchor0 = clamp_coord(old(self).anchor(), text.len() as int);
                let win = window_spec(text, anchor0, old(self).pos(), width as int);
                let visible = text.subrange(win.0, win.1);
                &&& final(self).anchor() == win.0
                &&& r as int == M::map_spec(old(self).pos() - win.0, visible)
            }),
    {
        let (_text, cursor, _sel) = self.cursor.get_visible_text::<M>(width, self.selection);
        cursor
    }

    fn get_text(&self) -> (r: String) {
        self.cursor.text()
    }
}

} // verus!
