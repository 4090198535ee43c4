//! The tab bar: an ordered set of named views with a wrapping cursor.

use vstd::prelude::*;

verus! {

/// A fixed ordered sequence of view titles together with the index of the
/// currently shown view. `next` and `previous` move the index and wrap
/// around at the ends.
pub struct TabCycle {
    pub titles: Vec<String>,
    pub index: usize,
}

impl TabCycle {
    /// Well-formed: there is at least one title and the index points at one.
    pub open spec fn wf(self) -> bool {
        &&& self.titles@.len() > 0
        &&& self.index < self.titles@.len()
    }

    /// The index reached from `self` by one `next` step.
    pub open spec fn next_index(self) -> int {
        if self.index + 1 == self.titles@.len() {
            0
        } else {
            self.index + 1
        }
    }

    /// The index reached from `self` by one `previous` step.
    pub open spec fn prev_index(self) -> int {
        if self.index == 0 {
            self.titles@.len() - 1
        } else {
            self.index - 1
        }
    }

    pub fn new(titles: Vec<String>) -> (t: TabCycle)
        requires
            titles@.len() > 0,
        ensures
            t.wf(),
            t.titles == titles,
            t.index == 0,
    {
        TabCycle { titles, index: 0 }
    }

    /// Move to the following view, wrapping from the last back to the first.
    pub fn next(&mut self)
        requires
            old(self).wf(),
        ensures
            final(self).wf(),
            final(self).titles == old(self).titles,
            final(self).index == old(self).next_index(),
    {
        let n = self.titles.len();
        if self.index + 1 == n {
            self.index = 0;
        } else {
            self.index = self.index + 1;
        }
    }

    /// Move to the preceding view, wrapping from the first to the last.
    pub fn previous(&mut self)
        requires
            old(self).wf(),
        ensures
            final(self).wf(),
            final(self).titles == old(self).titles,
            final(self).index == old(self).prev_index(),
    {
        if self.index == 0 {
            self.index = self.titles.len() - 1;
        } else {
            self.index = self.index - 1;
        }
    }
}

/// With exactly two views the cycle has length two, so moving forward and
/// moving backward reach the same view: `next` and `previous` both toggle.
pub proof fn lemma_two_tabs_toggle(t: TabCycle)
    requires
        t.wf(),
        t.titles@.len() == 2,
    ensures
        t.next_index() == t.prev_index(),
        t.next_index() != t.index,
{
}

} // verus!
