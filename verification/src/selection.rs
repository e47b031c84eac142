use vstd::prelude::*;

verus! {

/// Cursor state over the filtered rows: the selected index, if any, and the
/// count of rows currently visible.
pub struct StatefulTable {
    pub selected: Option<usize>,
    pub row_count: usize,
}

impl StatefulTable {
    /// The cursor invariant: an absent cursor is always fine; a present one
    /// sits at index 0 when there are no rows ("index 0 of nothing", treated
    /// as no selection) and inside `[0, row_count)` otherwise.
    pub open spec fn cursor_ok(self) -> bool {
        match self.selected {
            Some(i) => if self.row_count == 0 {
                i == 0
            } else {
                i < self.row_count
            },
            None => true,
        }
    }

    pub fn new(row_count: usize) -> (r: StatefulTable)
        ensures
            r.selected is None,
            r.row_count == row_count,
            r.cursor_ok(),
    {
        StatefulTable { selected: None, row_count }
    }

    /// Move the cursor one row down, without wrapping; selects row 0 when
    /// nothing was selected yet.
    pub fn next(&mut self)
        requires
            old(self).cursor_ok(),
        ensures
            final(self).row_count == old(self).row_count,
            final(self).cursor_ok(),
            final(self).selected == match old(self).selected {
                Some(i) => if old(self).row_count == 0 || i + 1 >= old(self).row_count {
                    Some(i)
                } else {
                    Some((i + 1) as usize)
                },
                None => Some(0usize),
            },
    {
        let i: usize = match self.selected {
            Some(i) => {
                if self.row_count == 0 || i >= self.row_count - 1 {
                    i
                } else {
                    i + 1
                }
            },
            None => 0,
        };
        self.selected = Some(i);
    }

    /// Move the cursor one row up, without wrapping; selects row 0 when
    /// nothing was selected yet.
    pub fn previous(&mut self)
        requires
            old(self).cursor_ok(),
        ensures
            final(self).row_count == old(self).row_count,
            final(self).cursor_ok(),
            final(self).selected == match old(self).selected {
                Some(i) => if i == 0 {
                    Some(0usize)
                } else {
                    Some((i - 1) as usize)
                },
                None => Some(0usize),
            },
    {
        let i: usize = match self.selected {
            Some(i) => if i == 0 {
                i
            } else {
                i - 1
            },
            None => 0,
        };
        self.selected = Some(i);
    }
}

} // verus!
