//! The tab selector: an ordered list of tab labels and the position of the
//! selected one, moved circularly by `next` and `previous`.

use vstd::prelude::*;

verus! {

/// The labels of the open tabs and the index of the selected tab.
pub struct TabsState {
    pub titles: Vec<String>,
    pub index: usize,
}

/// The position after `index` on a ring of `len` tabs.
pub open spec fn next_index(index: int, len: int) -> int {
    if index < len - 1 {
        index + 1
    } else {
        0
    }
}

/// The position before `index` on a ring of `len` tabs.
pub open spec fn previous_index(index: int, len: int) -> int {
    if index > 0 {
        index - 1
    } else {
        len - 1
    }
}

/// `next_index` applied `steps` times.
pub open spec fn next_index_times(index: int, len: int, steps: nat) -> int
    decreases steps,
{
    if steps == 0 {
        index
    } else {
        next_index(next_index_times(index, len, (steps - 1) as nat), len)
    }
}

/// `previous_index` applied `steps` times.
pub open spec fn previous_index_times(index: int, len: int, steps: nat) -> int
    decreases steps,
{
    if steps == 0 {
        index
    } else {
        previous_index(previous_index_times(index, len, (steps - 1) as nat), len)
    }
}

impl TabsState {
    /// The selected index points at an existing tab; with no tab open it rests at 0.
    pub open spec fn wf(&self) -> bool {
        if self.titles@.len() == 0 {
            self.index == 0
        } else {
            self.index < self.titles@.len()
        }
    }

    /// Builds a selector over the given labels with the first tab selected.
    pub fn from_strs(titles: Vec<&str>) -> (tabs: TabsState)
        ensures
            tabs.index == 0,
            tabs.wf(),
            tabs.titles@.len() == titles@.len(),
            forall|i: int| 0 <= i < titles@.len() ==> #[trigger] tabs.titles@[i]@ == titles@[i]@,
    {
        let mut owned: Vec<String> = Vec::new();
        let mut i: usize = 0;
        while i < titles.len()
            invariant
                i <= titles@.len(),
                owned@.len() == i,
                forall|j: int| 0 <= j < i ==> #[trigger] owned@[j]@ == titles@[j]@,
            decreases titles@.len() - i,
        {
            owned.push(titles[i].to_owned());
            i += 1;
        }
        TabsState { titles: owned, index: 0 }
    }

    /// Selects the tab before the current one, going from the first tab to the last.
    pub fn previous(&mut self)
        requires
            old(self).titles@.len() > 0,
        ensures
            final(self).titles == old(self).titles,
            final(self).index == previous_index(old(self).index as int, old(self).titles@.len() as int),
            old(self).wf() ==> final(self).wf(),
    {
        if self.index > 0 {
            self.index -= 1;
        } else {
            self.index = self.titles.len() - 1;
        }
    }

    /// Selects the tab after the current one, going from the last tab to the first.
    pub fn next(&mut self)
        requires
            old(self).titles@.len() > 0,
        ensures
            final(self).titles == old(self).titles,
            final(self).index == next_index(old(self).index as int, old(self).titles@.len() as int),
            old(self).wf() ==> final(self).wf(),
    {
        if self.index < self.titles.len() - 1 {
            self.index += 1;
        } else {
            self.index = 0;
        }
    }
}

/// Stepping forward `steps` times, at most once round the ring, from a valid
/// position adds `steps` to it and subtracts `len` once the end is passed.
pub proof fn lemma_next_index_times(index: int, len: int, steps: nat)
    requires
        0 <= index < len,
        steps <= len,
    ensures
        next_index_times(index, len, steps) == if index + steps < len {
            index + steps
        } else {
            index + steps - len
        },
    decreases steps,
{
    if steps > 0 {
        lemma_next_index_times(index, len, (steps - 1) as nat);
    }
}

/// Stepping backward `steps` times, at most once round the ring, from a valid
/// position subtracts `steps` from it and adds `len` once the start is passed.
pub proof fn lemma_previous_index_times(index: int, len: int, steps: nat)
    requires
        0 <= index < len,
        steps <= len,
    ensures
        previous_index_times(index, len, steps) == if steps <= index {
            index - steps
        } else {
            index - steps + len
        },
    decreases steps,
{
    if steps > 0 {
        lemma_previous_index_times(index, len, (steps - 1) as nat);
    }
}

/// Selecting the next tab as many times as there are tabs returns the
/// selection to where it started, whatever tab was selected.
pub proof fn lemma_next_full_cycle(tabs: TabsState)
    requires
        tabs.wf(),
        tabs.titles@.len() > 0,
    ensures
        next_index_times(tabs.index as int, tabs.titles@.len() as int, tabs.titles@.len())
            == tabs.index,
{
    lemma_next_index_times(tabs.index as int, tabs.titles@.len() as int, tabs.titles@.len());
}

/// Selecting the previous tab as many times as there are tabs returns the
/// selection to where it started, whatever tab was selected.
pub proof fn lemma_previous_full_cycle(tabs: TabsState)
    requires
        tabs.wf(),
        tabs.titles@.len() > 0,
    ensures
        previous_index_times(tabs.index as int, tabs.titles@.len() as int, tabs.titles@.len())
            == tabs.index,
{
    lemma_previous_index_times(tabs.index as int, tabs.titles@.len() as int, tabs.titles@.len());
}

/// From the last tab the next one is the first, and from the first tab the
/// previous one is the last; the two moves undo each other everywhere.
pub proof fn lemma_ring_ends(index: int, len: int)
    requires
        0 <= index < len,
    ensures
        next_index(len - 1, len) == 0,
        previous_index(0, len) == len - 1,
        0 <= next_index(index, len) < len,
        0 <= previous_index(index, len) < len,
        previous_index(next_index(index, len), len) == index,
        next_index(previous_index(index, len), len) == index,
{
}

} // verus!
