use vstd::prelude::*;

verus! {

/// The row selected after moving down from `s`.
pub open spec fn next_selection(s: Option<usize>) -> usize {
    match s {
        None => 0usize,
        Some(i) => if i == usize::MAX {
            i
        } else {
            (i + 1) as usize
        },
    }
}

/// The row selected after moving up from `s`.
pub open spec fn previous_selection(s: Option<usize>) -> usize {
    match s {
        None => usize::MAX,
        Some(i) => if i == 0 {
            0usize
        } else {
            (i - 1) as usize
        },
    }
}

/// The row selection of the worker table. Past-the-end selections are
/// clamped to the last row when the table is drawn.
#[derive(Clone, Copy, Debug, PartialEq, Eq, Structural)]
pub struct TableState {
    pub selected: Option<usize>,
}

impl TableState {
    pub fn default() -> (t: Self)
        ensures
            t.selected is None,
    {
        TableState { selected: None }
    }

    /// The state with row `selected` selected.
    pub fn with_selected(self, selected: Option<usize>) -> (t: Self)
        ensures
            t.selected == selected,
    {
        TableState { selected }
    }

    pub fn selected(&self) -> (r: Option<usize>)
        ensures
            r == self.selected,
    {
        self.selected
    }

    pub fn select(&mut self, index: Option<usize>)
        ensures
            final(self).selected == index,
    {
        self.selected = index;
    }

    /// Selects the next row, or the first where none is selected.
    pub fn select_next(&mut self)
        ensures
            final(self).selected == Some(next_selection(old(self).selected)),
    {
        let next = match self.selected {
            None => 0,
            Some(i) => i.saturating_add(1),
        };
        self.select(Some(next));
    }

    /// Selects the previous row, or the last where none is selected.
    pub fn select_previous(&mut self)
        ensures
            final(self).selected == Some(previous_selection(old(self).selected)),
    {
        let previous = match self.selected {
            None => usize::MAX,
            Some(i) => i.saturating_sub(1),
        };
        self.select(Some(previous));
    }
}

} // verus!
