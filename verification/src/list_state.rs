//! Which item of a list is selected, and how far the list is scrolled.
use vstd::prelude::*;

verus! {

/// The selection of a list, with the same operations and the same meaning as
/// `ratatui::widgets::ListState`: moving the selection does not know the list's length;
/// drawing the list brings a selection past the end back to the last item.
#[derive(Debug, Clone, Copy, PartialEq, Eq, Structural)]
pub struct ListState {
    pub offset: usize,
    pub selected: Option<usize>,
}

impl Default for ListState {
    fn default() -> (r: ListState)
        ensures
            r == (ListState { offset: 0, selected: None }),
    {
        ListState { offset: 0, selected: None }
    }
}

impl ListState {
    /// The selected index, if any.
    pub fn selected(&self) -> (r: Option<usize>)
        ensures
            r == self.selected,
    {
        self.selected
    }

    /// Selects `index`; selecting nothing also scrolls back to the top.
    pub fn select(&mut self, index: Option<usize>)
        ensures
            final(self).selected == index,
            final(self).offset == if index is None {
                0
            } else {
                old(self).offset
            },
    {
        self.selected = index;
        if index.is_none() {
            self.offset = 0;
        }
    }

    /// Selects the next item, or the first one where nothing is selected.
    pub fn select_next(&mut self)
        ensures
            final(self).offset == old(self).offset,
            final(self).selected == Some(
                match old(self).selected {
                    Some(i) => if i == usize::MAX {
                        i
                    } else {
                        (i + 1) as usize
                    },
                    None => 0,
                },
            ),
    {
        let next = match self.selected {
            Some(i) => i.saturating_add(1),
            None => 0,
        };
        self.select(Some(next));
    }

    /// Selects the previous item, or the last one (as `usize::MAX`) where nothing is
    /// selected.
    pub fn select_previous(&mut self)
        ensures
            final(self).offset == old(self).offset,
            final(self).selected == Some(
                match old(self).selected {
                    Some(i) => if i == 0 {
                        0
                    } else {
                        (i - 1) as usize
                    },
                    None => usize::MAX,
                },
            ),
    {
        let previous = match self.selected {
            Some(i) => i.saturating_sub(1),
            None => usize::MAX,
        };
        self.select(Some(previous));
    }

    /// Selects the first item.
    pub fn select_first(&mut self)
        ensures
            final(self).offset == old(self).offset,
            final(self).selected == Some(0usize),
    {
        self.select(Some(0));
    }
}

} // verus!
