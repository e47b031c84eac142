//! A small reusable widget state: a cycling tab selection.

use vstd::prelude::*;

verus! {

/// Tab titles with the index of the selected one.
pub struct TabsState {
    pub titles: Vec<String>,
    pub index: usize,
}

impl TabsState {
    pub fn new(titles: Vec<String>) -> (r: TabsState)
        ensures
            r.titles == titles,
            r.index == 0,
    {
        TabsState { titles, index: 0 }
    }

    /// Select the next tab, wrapping past the last one.
    pub fn next(&mut self)
        requires
            old(self).index < old(self).titles@.len(),
        ensures
            final(self).titles == old(self).titles,
            final(self).index as int == (old(self).index + 1) % (old(self).titles@.len() as int),
            final(self).index < final(self).titles@.len(),
    {
        let n = self.titles.len();
        self.index = (self.index + 1) % n;
    }

    /// Select the previous tab, wrapping before the first one.
    pub fn previous(&mut self)
        requires
            old(self).index < old(self).titles@.len(),
        ensures
            final(self).titles == old(self).titles,
            final(self).index == if old(self).index > 0 {
                (old(self).index - 1) as usize
            } else {
                (old(self).titles@.len() - 1) as usize
            },
            final(self).index < final(self).titles@.len(),
    {
        if self.index > 0 {
            self.index -= 1;
        } else {
            self.index = self.titles.len() - 1;
        }
    }
}

} // verus!
