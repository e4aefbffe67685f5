//! Which editor tab is shown.

use vstd::prelude::*;

verus! {

/// The state of the tab bar: the place of the tab that is shown.
#[derive(Clone, Copy, Debug, PartialEq, Eq, Structural)]
pub struct EditorTabsState {
    pub active_tab_index: usize,
}

/// The tab reached from `current` by one step forward (`increment` above
/// zero) or back, among `count` tabs: past either end the walk goes on at
/// the other end.
pub open spec fn neighbour(current: int, increment: int, count: int) -> int {
    if current + increment < 0 {
        count - 1
    } else if current + increment >= count {
        0
    } else {
        current + increment
    }
}

impl EditorTabsState {
    /// The state that shows the first tab.
    pub fn new() -> (state: Self)
        ensures
            state.active_tab_index == 0,
    {
        EditorTabsState { active_tab_index: 0 }
    }

    /// Shows the tab at `index`.
    pub fn select(&mut self, index: usize)
        ensures
            final(self).active_tab_index == index,
    {
        self.active_tab_index = index;
    }

    /// Steps to the neighbouring tab among `count` tabs. Without tabs, or
    /// with the shown tab not among them, nothing changes.
    pub fn step(&mut self, increment: i16, count: usize)
        ensures
            final(self).active_tab_index == if old(self).active_tab_index < count {
                neighbour(old(self).active_tab_index as int, increment as int, count as int)
            } else {
                old(self).active_tab_index as int
            },
    {
        let current = self.active_tab_index;
        if current >= count {
            return ;
        }
        if increment < 0 {
            let back: usize = (-(increment as i32)) as usize;
            if back > current {
                self.active_tab_index = count - 1;
            } else {
                self.active_tab_index = current - back;
            }
        } else {
            let forward: usize = increment as usize;
            if forward >= count - current {
                self.active_tab_index = 0;
            } else {
                self.active_tab_index = current + forward;
            }
        }
    }
}

/// A step keeps the shown tab among the tabs.
pub proof fn law_step_stays_in_range(current: int, increment: int, count: int)
    requires
        0 <= current < count,
    ensures
        0 <= neighbour(current, increment, count) < count,
{
}

} // verus!
