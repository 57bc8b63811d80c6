//! State for a row-oriented list view: which row is selected, and the first
//! row currently scrolled into view. The drawing itself lives outside this
//! library.

use vstd::prelude::*;

verus! {

/// How a cell's content is placed vertically inside its row.
#[derive(Debug, Copy, Clone, PartialEq, Eq, Structural)]
pub enum CellAlignment {
    Top,
    Bottom,
    Center,
}

/// Selection and scroll state of a row view.
#[derive(Debug, Copy, Clone)]
pub struct RowViewState {
    pub selected: Option<usize>,
    pub view_offset: usize,
}

impl RowViewState {
    /// The selected row's index, if any.
    pub open spec fn selected_model(&self) -> Option<usize> {
        self.selected
    }

    /// The first visible row's index.
    pub open spec fn view_offset_model(&self) -> usize {
        self.view_offset
    }

    /// Selects the given row, or none.
    pub fn select(&mut self, index: Option<usize>)
        ensures
            final(self).selected_model() == index,
            final(self).view_offset_model() == old(self).view_offset_model(),
    {
        self.selected = index;
    }

    /// The selected row's index, if any.
    pub fn selected(&self) -> (r: Option<usize>)
        ensures
            r == self.selected_model(),
    {
        self.selected
    }

    /// Whether the given row is the selected one.
    pub fn is_selected(&self, index: usize) -> (r: bool)
        ensures
            r == (self.selected_model() == Some(index)),
    {
        match self.selected {
            None => false,
            Some(i) => i == index,
        }
    }
}

impl Default for RowViewState {
    /// Nothing selected, scrolled to the top.
    fn default() -> (r: RowViewState)
        ensures
            r.selected_model() is None,
            r.view_offset_model() == 0,
    {
        RowViewState { selected: None, view_offset: 0 }
    }
}

} // verus!
