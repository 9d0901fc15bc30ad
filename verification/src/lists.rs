//! Cursor state for menus and selection lists.

use vstd::prelude::*;

verus! {

/// Highlight cursor of a menu (the global launcher menu, context menus).
#[derive(Debug, Clone, Copy, PartialEq, Eq)]
pub struct MenuListState {
    pub highlighted: usize,
}

impl MenuListState {
    pub fn new(highlighted: usize) -> (s: Self)
        ensures
            s.highlighted == highlighted,
    {
        Self { highlighted }
    }

    /// Moves the highlight one item up, stopping at the first item.
    pub fn move_prev(&mut self)
        ensures
            final(self).highlighted == if old(self).highlighted == 0 {
                0
            } else {
                old(self).highlighted - 1
            },
    {
        self.highlighted = self.highlighted.saturating_sub(1);
    }

    /// Moves the highlight one item down, stopping at the last of
    /// `item_count` items; an empty menu leaves the highlight where it is.
    pub fn move_next(&mut self, item_count: usize)
        ensures
            item_count == 0 ==> final(self).highlighted == old(self).highlighted,
            item_count > 0 ==> final(self).highlighted == clamp_next(
                old(self).highlighted as int,
                item_count as int,
            ),
    {
        if item_count > 0 {
            let next = if self.highlighted < usize::MAX { self.highlighted + 1 } else { usize::MAX };
            self.highlighted = if next < item_count - 1 { next } else { item_count - 1 };
        }
    }

    /// Moves the highlight to the hovered item, if the pointer is over one.
    pub fn hover(&mut self, idx: Option<usize>)
        ensures
            final(self).highlighted == match idx {
                Some(i) => i,
                None => old(self).highlighted,
            },
    {
        if let Some(idx) = idx {
            self.highlighted = idx;
        }
    }
}

/// `min(current + 1, count - 1)`, the index one step down a list of `count`
/// items (with the `+ 1` saturating at `usize::MAX`).
pub open spec fn clamp_next(current: int, count: int) -> int {
    let next = if current < usize::MAX { current + 1 } else { usize::MAX as int };
    if next < count - 1 { next } else { count - 1 }
}

/// Selected row of a settings list.
#[derive(Debug, Clone, Copy, PartialEq, Eq)]
pub struct SelectionListState {
    pub selected: usize,
}

impl SelectionListState {
    pub fn new(selected: usize) -> (s: Self)
        ensures
            s.selected == selected,
    {
        Self { selected }
    }

    /// Moves the selection one row up, stopping at the first row.
    pub fn move_prev(&mut self)
        ensures
            final(self).selected == if old(self).selected == 0 {
                0
            } else {
                old(self).selected - 1
            },
    {
        self.selected = self.selected.saturating_sub(1);
    }

    /// Moves the selection one row down, stopping at the last of
    /// `item_count` rows; an empty list leaves the selection where it is.
    pub fn move_next(&mut self, item_count: usize)
        ensures
            item_count == 0 ==> final(self).selected == old(self).selected,
            item_count > 0 ==> final(self).selected == clamp_next(
                old(self).selected as int,
                item_count as int,
            ),
    {
        if item_count > 0 {
            let next = if self.selected < usize::MAX { self.selected + 1 } else { usize::MAX };
            self.selected = if next < item_count - 1 { next } else { item_count - 1 };
        }
    }

    pub fn select(&mut self, idx: usize)
        ensures
            final(self).selected == idx,
    {
        self.selected = idx;
    }
}

/// A step down an `item_count`-long list always lands inside it, and never
/// moves the cursor up unless it was already past the end.
pub proof fn law_move_next_stays_in_bounds(current: usize, item_count: usize)
    requires
        item_count > 0,
    ensures
        0 <= clamp_next(current as int, item_count as int) < item_count,
        current < item_count ==> current <= clamp_next(current as int, item_count as int),
{
}

} // verus!
