//! A list of items with an optional selection cursor.
//!
//! The cursor either points at a valid index or is absent. Moving the
//! cursor wraps around at both ends of the list; clearing it is always
//! allowed. These operations never reorder or resize the items.

use vstd::prelude::*;
use vstd::arithmetic::div_mod::{lemma_mod_add_multiples_vanish, lemma_mod_self_0, lemma_small_mod};

verus! {

/// Where the cursor lands when `next` is called on a non-empty list of
/// length `n`: the first index if nothing was selected, otherwise one
/// step forward, wrapping to the first index after the last.
pub open spec fn next_index(sel: Option<usize>, n: int) -> Option<usize>
    recommends
        0 < n,
{
    match sel {
        None => Some(0usize),
        Some(i) => Some((((i as int) + 1) % n) as usize),
    }
}

/// Where the cursor lands when `previous` is called on a non-empty list
/// of length `n`: the first index if nothing was selected, otherwise one
/// step back, wrapping to the last index from the first.
pub open spec fn prev_index(sel: Option<usize>, n: int) -> Option<usize>
    recommends
        0 < n,
{
    match sel {
        None => Some(0usize),
        Some(i) => Some((((i as int) + n - 1) % n) as usize),
    }
}

/// An ordered sequence of items plus an optional cursor into it.
pub struct StatefulList<T> {
    pub items: Vec<T>,
    pub selected: Option<usize>,
}

impl<T> StatefulList<T> {
    /// The cursor, when set, is a valid index; in particular an empty
    /// list never has a cursor.
    pub open spec fn wf(self) -> bool {
        match self.selected {
            Some(i) => i < self.items@.len(),
            None => true,
        }
    }

    /// Builds a list over the given items with no cursor set.
    pub fn with_items(items: Vec<T>) -> (list: StatefulList<T>)
        ensures
            list.items == items,
            list.selected is None,
            list.wf(),
    {
        StatefulList { items, selected: None }
    }

    /// Advances the cursor with wrap-around; selects the first item when
    /// no cursor was set. On an empty list nothing changes. The items are
    /// never touched.
    pub fn next(&mut self)
        requires
            old(self).wf(),
        ensures
            final(self).wf(),
            final(self).items == old(self).items,
            old(self).items@.len() == 0 ==> final(self).selected == old(self).selected,
            old(self).items@.len() > 0 ==> final(self).selected == next_index(
                old(self).selected,
                old(self).items@.len() as int,
            ),
    {
        let n = self.items.len();
        if n == 0 {
            return ;
        }
        let i: usize = match self.selected {
            Some(i) => {
                if i >= n - 1 {
                    0
                } else {
                    i + 1
                }
            },
            None => 0,
        };
        proof {
            let ni = n as int;
            match self.selected {
                Some(j) => {
                    if j as int + 1 == ni {
                        lemma_mod_self_0(ni);
                    } else {
                        lemma_small_mod((j + 1) as nat, n as nat);
                    }
                },
                None => {},
            }
        }
        self.selected = Some(i);
    }

    /// Retreats the cursor with wrap-around; selects the first item when
    /// no cursor was set. On an empty list nothing changes. The items are
    /// never touched.
    pub fn previous(&mut self)
        requires
            old(self).wf(),
        ensures
            final(self).wf(),
            final(self).items == old(self).items,
            old(self).items@.len() == 0 ==> final(self).selected == old(self).selected,
            old(self).items@.len() > 0 ==> final(self).selected == prev_index(
                old(self).selected,
                old(self).items@.len() as int,
            ),
    {
        let n = self.items.len();
        if n == 0 {
            return ;
        }
        let i: usize = match self.selected {
            Some(i) => {
                if i == 0 {
                    n - 1
                } else {
                    i - 1
                }
            },
            None => 0,
        };
        proof {
            let ni = n as int;
            match self.selected {
                Some(j) => {
                    if j == 0 {
                        lemma_small_mod((n - 1) as nat, n as nat);
                    } else {
                        lemma_mod_add_multiples_vanish(j as int - 1, ni);
                        lemma_small_mod((j - 1) as nat, n as nat);
                    }
                },
                None => {},
            }
        }
        self.selected = Some(i);
    }

    /// Clears the cursor unconditionally: whatever was selected before,
    /// afterwards nothing is, and the items are never touched. Calling it
    /// on a list with no cursor leaves the list as it was.
    pub fn unselect(&mut self)
        ensures
            final(self).selected is None,
            final(self).items == old(self).items,
            final(self).wf(),
    {
        self.selected = None;
    }
}

/// On a non-empty list with no cursor, a forward step and a backward step
/// agree: both select the first index.
pub proof fn lemma_first_selection_agrees(n: int)
    requires
        0 < n,
    ensures
        next_index(None, n) == Some(0usize),
        prev_index(None, n) == Some(0usize),
        next_index(None, n) == prev_index(None, n),
{
}

/// With the cursor at index `i` in a list of length `n`, a forward step
/// lands on `(i + 1) % n` and a backward step on `(i - 1 + n) % n`.
pub proof fn lemma_wrap_steps(i: usize, n: int)
    requires
        0 < n,
        i < n,
    ensures
        next_index(Some(i), n) == Some(((i + 1) % n) as usize),
        prev_index(Some(i), n) == Some(((i as int + n - 1) % n) as usize),
{
}

} // verus!
