//! The windowing algorithm: given the previous window anchor, the cursor
//! position, and a display-width budget, choose a contiguous window of the
//! text whose rendered width stays within the budget and which contains the
//! cursor, scrolling as little as possible.
//!
//! Three cases, in order: if the whole text fits, show all of it; if the
//! cursor moved left of the anchor, the cursor becomes the left edge; else
//! reuse the anchor's window when it still reaches the cursor, and otherwise
//! make the cursor the right edge.

use vstd::prelude::*;

use crate::cursor::CursorCoordinate;
use crate::width::{
    char_display_width, char_width_of, lemma_seq_width_singleton, lemma_seq_width_split,
    seq_width,
};

verus! {

/// The furthest coordinate reachable rightwards from `start` without the
/// slice `[start, r)` exceeding `width` columns.
pub open spec fn max_reach(text: Seq<char>, start: int, width: int) -> int
    recommends
        0 <= start <= text.len(),
    decreases text.len() - start, 0nat,
        when 0 <= start <= text.len()
{
    if start >= text.len() {
        start
    } else if char_width_of(text[start]) > width {
        start
    } else {
        max_reach(text, start + 1, width - char_width_of(text[start]))
    }
}

/// The furthest coordinate reachable leftwards from `stop` without the
/// slice `[r, stop)` exceeding `width` columns.
pub open spec fn min_reach(text: Seq<char>, stop: int, width: int) -> int
    recommends
        0 <= stop <= text.len(),
    decreases stop, 0nat,
        when 0 <= stop <= text.len()
{
    if stop <= 0 {
        0
    } else if char_width_of(text[stop - 1]) > width {
        stop
    } else {
        min_reach(text, stop - 1, width - char_width_of(text[stop - 1]))
    }
}

/// `max_reach` is the largest coordinate whose slice from `start` still
/// fits: the slice `[start, r)` fits, and one unit more would not.
pub proof fn lemma_max_reach_props(text: Seq<char>, start: int, width: int)
    requires
        0 <= start <= text.len(),
        0 <= width,
    ensures
        ({
            let r = max_reach(text, start, width);
            &&& start <= r <= text.len()
            &&& seq_width(text.subrange(start, r)) <= width
            &&& r < text.len() ==> seq_width(text.subrange(start, r + 1)) > width
        }),
    decreases text.len() - start,
{
    let r = max_reach(text, start, width);
    if start >= text.len() {
        assert(text.subrange(start, start) =~= Seq::<char>::empty());
    } else if char_width_of(text[start]) > width {
        assert(text.subrange(start, start) =~= Seq::<char>::empty());
        assert(text.subrange(start, start + 1) =~= seq![text[start]]);
        lemma_seq_width_singleton(text[start]);
    } else {
        let w0 = char_width_of(text[start]) as int;
        lemma_max_reach_props(text, start + 1, width - w0);
        assert(text.subrange(start, start + 1) =~= seq![text[start]]);
        lemma_seq_width_singleton(text[start]);
        lemma_seq_width_split(text, start, start + 1, r);
        if r < text.len() {
            lemma_seq_width_split(text, start, start + 1, r + 1);
        }
    }
}

/// Any coordinate with the two `max_reach` properties is `max_reach`.
pub proof fn lemma_max_reach_of(text: Seq<char>, start: int, width: int, r: int)
    requires
        0 <= start <= text.len(),
        0 <= width,
        start <= r <= text.len(),
        seq_width(text.subrange(start, r)) <= width,
        r < text.len() ==> seq_width(text.subrange(start, r + 1)) > width,
    ensures
        r == max_reach(text, start, width),
{
    let m = max_reach(text, start, width);
    lemma_max_reach_props(text, start, width);
    if r < m {
        lemma_seq_width_split(text, start, r + 1, m);
    } else if m < r {
        lemma_seq_width_split(text, start, m + 1, r);
    }
}

/// `min_reach` is the smallest coordinate whose slice up to `stop` still
/// fits: the slice `[r, stop)` fits, and one unit more would not.
pub proof fn lemma_min_reach_props(text: Seq<char>, stop: int, width: int)
    requires
        0 <= stop <= text.len(),
        0 <= width,
    ensures
        ({
            let r = min_reach(text, stop, width);
            &&& 0 <= r <= stop
            &&& seq_width(text.subrange(r, stop)) <= width
            &&& r > 0 ==> seq_width(text.subrange(r - 1, stop)) > width
        }),
    decreases stop,
{
    let r = min_reach(text, stop, width);
    if stop <= 0 {
        assert(text.subrange(0, 0) =~= Seq::<char>::empty());
    } else if char_width_of(text[stop - 1]) > width {
        assert(text.subrange(stop, stop) =~= Seq::<char>::empty());
        assert(text.subrange(stop - 1, stop) =~= seq![text[stop - 1]]);
        lemma_seq_width_singleton(text[stop - 1]);
    } else {
        let w0 = char_width_of(text[stop - 1]) as int;
        lemma_min_reach_props(text, stop - 1, width - w0);
        assert(text.subrange(stop - 1, stop) =~= seq![text[stop - 1]]);
        lemma_seq_width_singleton(text[stop - 1]);
        lemma_seq_width_split(text, r, stop - 1, stop);
        if r > 0 {
            lemma_seq_width_split(text, r - 1, stop - 1, stop);
        }
    }
}

/// Any coordinate with the two `min_reach` properties is `min_reach`.
pub proof fn lemma_min_reach_of(text: Seq<char>, stop: int, width: int, r: int)
    requires
        0 <= stop <= text.len(),
        0 <= width,
        0 <= r <= stop,
        seq_width(text.subrange(r, stop)) <= width,
        r > 0 ==> seq_width(text.subrange(r - 1, stop)) > width,
    ensures
        r == min_reach(text, stop, width),
{
    let m = min_reach(text, stop, width);
    lemma_min_reach_props(text, stop, width);
    if r < m {
        lemma_seq_width_split(text, r, m - 1, stop);
    } else if m < r {
        lemma_seq_width_split(text, m, r - 1, stop);
    }
}

/// The window `[start, end)` chosen for a text, previous anchor, cursor
/// position and width budget: the whole text when it fits, a window led by
/// the cursor when the cursor lies left of the anchor, the anchor's own
/// window while it still reaches past the cursor, and a window ending at the
/// cursor once the cursor has passed that reach.
pub open spec fn window_spec(text: Seq<char>, anchor: int, cursor: int, width: int) -> (int, int)
    recommends
        0 <= anchor <= text.len(),
        0 <= cursor <= text.len(),
{
    if seq_width(text) < width {
        (0, text.len() as int)
    } else if cursor < anchor {
        (cursor, max_reach(text, cursor, width))
    } else if cursor < max_reach(text, anchor, width) {
        (anchor, max_reach(text, anchor, width))
    } else {
        (min_reach(text, cursor, width), cursor)
    }
}

/// Every chosen window contains the cursor and fits in the width budget.
pub proof fn lemma_window_spec_props(text: Seq<char>, anchor: int, cursor: int, width: int)
    requires
        0 <= anchor <= text.len(),
        0 <= cursor <= text.len(),
        0 <= width,
    ensures
        ({
            let (s, e) = window_spec(text, anchor, cursor, width);
            &&& 0 <= s <= cursor <= e <= text.len()
            &&& seq_width(text.subrange(s, e)) <= width
        }),
{
    if seq_width(text) < width {
        assert(text.subrange(0, text.len() as int) =~= text);
    } else if cursor < anchor {
        lemma_max_reach_props(text, cursor, width);
    } else if cursor < max_reach(text, anchor, width) {
        lemma_max_reach_props(text, anchor, width);
    } else {
        lemma_min_reach_props(text, cursor, width);
    }
}

/// Whole-text fit: when the text's total display width is strictly less
/// than the budget, the chosen window is the entire text, whatever the
/// anchor and the cursor position.
pub proof fn lemma_window_whole_text_fit(text: Seq<char>, anchor: int, cursor: int, width: int)
    requires
        seq_width(text) < width,
    ensures
        window_spec(text, anchor, cursor, width) == (0int, text.len() as int),
{
}

/// Stability: when the window `[anchor, max_reach(anchor))` was chosen for
/// some cursor position, recomputing for any cursor position still inside
/// that window chooses the same window.
pub proof fn lemma_window_stability(
    text: Seq<char>,
    anchor: int,
    cursor: int,
    cursor2: int,
    width: int,
)
    requires
        0 <= anchor <= text.len(),
        0 <= cursor <= text.len(),
        0 <= width,
        window_spec(text, anchor, cursor, width) == (anchor, max_reach(text, anchor, width)),
        anchor <= cursor2 < max_reach(text, anchor, width),
    ensures
        window_spec(text, anchor, cursor2, width) == window_spec(text, anchor, cursor, width),
{
    lemma_max_reach_props(text, anchor, width);
}

/// A chosen window: its two edges and the cursor position it was computed
/// for, all in coordinate units.
#[derive(Debug, Copy, Clone)]
pub struct CursorWindow {
    pub cursor_start: CursorCoordinate,
    pub cursor_end: CursorCoordinate,
    pub cursor_pos: CursorCoordinate,
}

impl CursorWindow {
    /// The left edge, in units.
    pub open spec fn start(&self) -> int {
        self.cursor_start.0 as int
    }

    /// The right edge (exclusive), in units.
    pub open spec fn end(&self) -> int {
        self.cursor_end.0 as int
    }

    /// The cursor position the window was computed for, in units.
    pub open spec fn pos(&self) -> int {
        self.cursor_pos.0 as int
    }
}

/// Whether the whole text is strictly narrower than `width` columns.
fn text_width_less_than(text: &Vec<char>, width: usize) -> (r: bool)
    ensures
        r == (seq_width(text@) < width as int),
{
    if width == 0 {
        return false;
    }
    let len = text.len();
    let mut i: usize = 0;
    let mut acc: usize = 0;
    while i < len
        invariant
            i <= len,
            len == text@.len(),
            acc == seq_width(text@.subrange(0, i as int)),
            acc < width,
        decreases len - i,
    {
        let w = char_display_width(text[i]);
        proof {
            lemma_seq_width_split(text@, 0, i as int, i + 1);
            assert(text@.subrange(i as int, i + 1) =~= seq![text@[i as int]]);
            lemma_seq_width_singleton(text@[i as int]);
        }
        if w >= width - acc {
            proof {
                lemma_seq_width_split(text@, 0, i + 1, len as int);
                assert(text@.subrange(0, len as int) =~= text@);
            }
            return false;
        }
        acc = acc + w;
        i = i + 1;
    }
    proof {
        assert(text@.subrange(0, len as int) =~= text@);
    }
    true
}

/// The furthest coordinate reachable from `start` scanning forward without
/// the slice's display width exceeding `width`.
pub fn get_max_index_within_width(start: CursorCoordinate, text: &Vec<char>, width: usize) -> (r:
    CursorCoordinate)
    requires
        start.0 <= text@.len(),
    ensures
        r.0 == max_reach(text@, start.0 as int, width as int),
        start.0 <= r.0 <= text@.len(),
        seq_width(text@.subrange(start.0 as int, r.0 as int)) <= width as int,
        r.0 < text@.len() ==> seq_width(text@.subrange(start.0 as int, r.0 as int + 1)) > width as int,
{
    let len = text.len();
    let mut i = start.0;
    let mut acc: usize = 0;
    while i < len
        invariant
            start.0 <= i <= len,
            len == text@.len(),
            acc == seq_width(text@.subrange(start.0 as int, i as int)),
            acc <= width,
        decreases len - i,
    {
        let w = char_display_width(text[i]);
        proof {
            lemma_seq_width_split(text@, start.0 as int, i as int, i + 1);
            assert(text@.subrange(i as int, i + 1) =~= seq![text@[i as int]]);
            lemma_seq_width_singleton(text@[i as int]);
        }
        if w > width - acc {
            proof {
                lemma_max_reach_of(text@, start.0 as int, width as int, i as int);
            }
            return CursorCoordinate(i);
        }
        acc = acc + w;
        i = i + 1;
    }
    proof {
        lemma_max_reach_of(text@, start.0 as int, width as int, len as int);
    }
    CursorCoordinate(len)
}

/// The furthest coordinate reachable from `stop` scanning backward without
/// the slice's display width exceeding `width`.
pub fn get_min_index_within_width(stop: CursorCoordinate, text: &Vec<char>, width: usize) -> (r:
    CursorCoordinate)
    requires
        stop.0 <= text@.len(),
    ensures
        r.0 == min_reach(text@, stop.0 as int, width as int),
        r.0 <= stop.0,
        seq_width(text@.subrange(r.0 as int, stop.0 as int)) <= width as int,
        r.0 > 0 ==> seq_width(text@.subrange(r.0 as int - 1, stop.0 as int)) > width as int,
{
    let mut i = stop.0;
    let mut acc: usize = 0;
    while i > 0
        invariant
            i <= stop.0 <= text@.len(),
            acc == seq_width(text@.subrange(i as int, stop.0 as int)),
            acc <= width,
        decreases i,
    {
        let w = char_display_width(text[i - 1]);
        proof {
            lemma_seq_width_split(text@, i - 1, i as int, stop.0 as int);
            assert(text@.subrange(i - 1, i as int) =~= seq![text@[i - 1]]);
            lemma_seq_width_singleton(text@[i - 1]);
        }
        if w > width - acc {
            proof {
                lemma_min_reach_of(text@, stop.0 as int, width as int, i as int);
            }
            return CursorCoordinate(i);
        }
        acc = acc + w;
        i = i - 1;
    }
    proof {
        lemma_min_reach_of(text@, stop.0 as int, width as int, 0);
    }
    CursorCoordinate(0)
}

/// Computes the visible window for a text, previous anchor, cursor position
/// and width budget. The result is exactly `window_spec`; it contains the
/// cursor, and its slice fits in `max_width` columns.
pub fn get_text_window(
    text: &Vec<char>,
    start: CursorCoordinate,
    cursor: CursorCoordinate,
    max_width: usize,
) -> (w: CursorWindow)
    requires
        start.0 <= text@.len(),
        cursor.0 <= text@.len(),
    ensures
        w.start() == window_spec(text@, start.0 as int, cursor.0 as int, max_width as int).0,
        w.end() == window_spec(text@, start.0 as int, cursor.0 as int, max_width as int).1,
        w.pos() == cursor.0,
        0 <= w.start() <= w.pos() <= w.end() <= text@.len(),
        seq_width(text@.subrange(w.start(), w.end())) <= max_width as int,
{
    proof {
        lemma_window_spec_props(text@, start.0 as int, cursor.0 as int, max_width as int);
    }
    let len = text.len();
    if text_width_less_than(text, max_width) {
        CursorWindow {
            cursor_start: CursorCoordinate(0),
            cursor_end: CursorCoordinate(len),
            cursor_pos: cursor,
        }
    } else if cursor.0 < start.0 {
        let cursor_end = get_max_index_within_width(cursor, text, max_width);
        CursorWindow { cursor_start: cursor, cursor_end, cursor_pos: cursor }
    } else {
        let max_reach_from_start = get_max_index_within_width(start, text, max_width);
        if cursor.0 < max_reach_from_start.0 {
            CursorWindow { cursor_start: start, cursor_end: max_reach_from_start, cursor_pos: cursor }
        } else {
            let cursor_start = get_min_index_within_width(cursor, text, max_width);
            CursorWindow { cursor_start, cursor_end: cursor, cursor_pos: cursor }
        }
    }
}

} // verus!
