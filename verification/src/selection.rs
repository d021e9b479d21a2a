//! The list-selection model: an optional highlighted row index, kept clamped
//! to the bounds of the result list it navigates.

use vstd::prelude::*;

verus! {

/// Effect of stepping the selection one row down over a list of `len` rows:
/// an empty list keeps no selection, no selection becomes the first row, and
/// the last row does not wrap.
pub open spec fn sel_next(sel: Option<int>, len: int) -> Option<int> {
    if len <= 0 {
        None
    } else {
        match sel {
            None => Some(0),
            Some(i) => if i + 1 < len { Some(i + 1) } else { Some(len - 1) },
        }
    }
}

/// Effect of stepping the selection one row up over a list of `len` rows:
/// an empty list keeps no selection, no selection becomes the first row, and
/// the first row does not wrap.
pub open spec fn sel_prev(sel: Option<int>, len: int) -> Option<int> {
    if len <= 0 {
        None
    } else {
        match sel {
            None => Some(0),
            Some(i) => if i > 0 { Some(i - 1) } else { Some(0) },
        }
    }
}

/// Effect of resetting the selection for a list of `len` rows: the first row
/// when there is one, otherwise no selection.
pub open spec fn sel_reset(len: int) -> Option<int> {
    if len <= 0 {
        None
    } else {
        Some(0)
    }
}

/// A selection is well formed for a list of `len` rows when it is absent on
/// an empty list and otherwise points inside the list.
pub open spec fn sel_wf(sel: Option<int>, len: int) -> bool {
    match sel {
        None => true,
        Some(i) => 0 <= i < len,
    }
}

/// The currently highlighted row of the result list, if any. The model never
/// stores an index on its own authority: every operation takes the current
/// list length and clamps against it.
pub struct SelectionModel {
    pub selected: Option<usize>,
}

impl View for SelectionModel {
    type V = Option<int>;

    open spec fn view(&self) -> Option<int> {
        match self.selected {
            None => None,
            Some(i) => Some(i as int),
        }
    }
}

impl SelectionModel {
    /// A model with nothing selected.
    pub fn new() -> (r: SelectionModel)
        ensures
            r@ == None::<int>,
    {
        SelectionModel { selected: None }
    }

    /// Step the selection one row down; never wraps past the last row.
    pub fn next(&mut self, len: usize)
        requires
            sel_wf(old(self)@, len as int),
        ensures
            final(self)@ == sel_next(old(self)@, len as int),
            sel_wf(final(self)@, len as int),
    {
        if len == 0 {
            self.selected = None;
        } else {
            self.selected = match self.selected {
                None => Some(0),
                Some(i) => if i + 1 < len { Some(i + 1) } else { Some(len - 1) },
            };
        }
    }

    /// Step the selection one row up; never wraps past the first row.
    pub fn prev(&mut self, len: usize)
        requires
            sel_wf(old(self)@, len as int),
        ensures
            final(self)@ == sel_prev(old(self)@, len as int),
            sel_wf(final(self)@, len as int),
    {
        if len == 0 {
            self.selected = None;
        } else {
            self.selected = match self.selected {
                None => Some(0),
                Some(i) => if i > 0 { Some(i - 1) } else { Some(0) },
            };
        }
    }

    /// Reset the selection to the first row, or to nothing on an empty list.
    pub fn reset(&mut self, len: usize)
        ensures
            final(self)@ == sel_reset(len as int),
            sel_wf(final(self)@, len as int),
    {
        if len == 0 {
            self.selected = None;
        } else {
            self.selected = Some(0);
        }
    }
}

/// Iterate `sel_next` `n` times from `sel` over a list of `len` rows.
pub open spec fn sel_next_n(sel: Option<int>, len: int, n: nat) -> Option<int>
    decreases n,
{
    if n == 0 {
        sel
    } else {
        sel_next(sel_next_n(sel, len, (n - 1) as nat), len)
    }
}

/// Iterate `sel_prev` `n` times from `sel` over a list of `len` rows.
pub open spec fn sel_prev_n(sel: Option<int>, len: int, n: nat) -> Option<int>
    decreases n,
{
    if n == 0 {
        sel
    } else {
        sel_prev(sel_prev_n(sel, len, (n - 1) as nat), len)
    }
}

/// However often the selection is stepped down, it never leaves the list:
/// from any well-formed selection, any number of `next` steps still yields a
/// well-formed selection — in particular never an index past `len - 1`.
pub proof fn lemma_next_never_exceeds_bounds(sel: Option<int>, len: int, n: nat)
    requires
        sel_wf(sel, len),
    ensures
        sel_wf(sel_next_n(sel, len, n), len),
    decreases n,
{
    if n > 0 {
        lemma_next_never_exceeds_bounds(sel, len, (n - 1) as nat);
    }
}

/// However often the selection is stepped up, it never goes below the first
/// row: from any well-formed selection, any number of `prev` steps still
/// yields a well-formed selection — in particular never a negative index.
pub proof fn lemma_prev_never_below_zero(sel: Option<int>, len: int, n: nat)
    requires
        sel_wf(sel, len),
    ensures
        sel_wf(sel_prev_n(sel, len, n), len),
        sel_prev_n(sel, len, n) matches Some(i) ==> i >= 0,
    decreases n,
{
    if n > 0 {
        lemma_prev_never_below_zero(sel, len, (n - 1) as nat);
    }
}

/// On an empty list the navigation operations never create a selection:
/// stepping down or up any number of times from nothing still selects
/// nothing.
pub proof fn lemma_empty_list_never_selects(n: nat)
    ensures
        sel_next_n(None, 0, n) is None,
        sel_prev_n(None, 0, n) is None,
        sel_reset(0) is None,
    decreases n,
{
    if n > 0 {
        lemma_empty_list_never_selects((n - 1) as nat);
    }
}

} // verus!
