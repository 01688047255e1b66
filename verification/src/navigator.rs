//! Circular list navigation paired with a scrollbar position.
//!
//! A `ListNav` tracks which entry of a list is selected and where the
//! scrollbar thumb sits.  Navigation wraps: stepping past the last entry
//! selects the first, stepping before the first selects the last.  On an
//! empty list navigation is a no-op and the selection stays unset.  After
//! every successful navigation the scrollbar position equals the selection
//! index.

use vstd::prelude::*;

verus! {

/// Selection cursor and scrollbar position for one list.  The list itself
/// is owned elsewhere; its current length is passed to each call.
#[derive(Clone, Copy, PartialEq, Eq, Structural, Debug)]
pub struct ListNav {
    pub selected: Option<usize>,
    pub scroll_position: usize,
}

/// The index selected after one forward step through a list of `len`
/// entries (`len > 0`): wraps from the last entry to the first, and an
/// unset selection lands on the first entry.
pub open spec fn next_index(selected: Option<usize>, len: usize) -> usize {
    match selected {
        Option::Some(i) => if i + 1 >= len { 0 } else { (i + 1) as usize },
        Option::None => 0,
    }
}

/// The index selected after one backward step through a list of `len`
/// entries (`len > 0`): wraps from the first entry to the last, and an
/// unset selection lands on the first entry.
pub open spec fn previous_index(selected: Option<usize>, len: usize) -> usize {
    match selected {
        Option::Some(i) => if i == 0 { (len - 1) as usize } else { (i - 1) as usize },
        Option::None => 0,
    }
}

/// A navigator is well formed with respect to the list it steers when its
/// selection, if set, is a valid index.
pub open spec fn nav_wf(nav: ListNav, len: usize) -> bool {
    nav.selected is Some ==> nav.selected->0 < len
}

/// The navigator after one forward step through a list of `len` entries:
/// unchanged on an empty list, otherwise selection and scrollbar both sit
/// on the next index.
pub open spec fn nav_after_next(nav: ListNav, len: usize) -> ListNav {
    if len == 0 {
        nav
    } else {
        ListNav {
            selected: Option::Some(next_index(nav.selected, len)),
            scroll_position: next_index(nav.selected, len),
        }
    }
}

/// The navigator after one backward step through a list of `len` entries:
/// unchanged on an empty list, otherwise selection and scrollbar both sit
/// on the previous index.
pub open spec fn nav_after_previous(nav: ListNav, len: usize) -> ListNav {
    if len == 0 {
        nav
    } else {
        ListNav {
            selected: Option::Some(previous_index(nav.selected, len)),
            scroll_position: previous_index(nav.selected, len),
        }
    }
}

impl ListNav {
    /// A fresh navigator: nothing selected, scrollbar at the top.
    pub fn new() -> (r: ListNav)
        ensures
            r.selected is None,
            r.scroll_position == 0,
    {
        ListNav { selected: Option::None, scroll_position: 0 }
    }

    /// Select the first entry if the list has one; otherwise leave the
    /// selection unset.
    pub fn select_first(&mut self, len: usize)
        ensures
            len > 0 ==> *final(self) == (ListNav { selected: Option::Some(0), scroll_position: 0 }),
            len == 0 ==> *final(self) == (ListNav { selected: Option::None, scroll_position: 0 }),
    {
        if len > 0 {
            self.selected = Option::Some(0);
        } else {
            self.selected = Option::None;
        }
        self.scroll_position = 0;
    }

    /// Step the selection forward circularly through a list of `len`
    /// entries and drag the scrollbar with it.  On an empty list nothing
    /// changes.
    pub fn next(&mut self, len: usize)
        ensures
            *final(self) == nav_after_next(*old(self), len),
            len > 0 ==> nav_wf(*final(self), len),
    {
        if len == 0 {
            return;
        }
        let i: usize = match self.selected {
            Option::Some(i) => if i >= len - 1 { 0 } else { i + 1 },
            Option::None => 0,
        };
        self.selected = Option::Some(i);
        self.scroll_position = i;
    }

    /// Step the selection backward circularly through a list of `len`
    /// entries and drag the scrollbar with it.  On an empty list nothing
    /// changes.
    pub fn previous(&mut self, len: usize)
        ensures
            *final(self) == nav_after_previous(*old(self), len),
            len > 0 && nav_wf(*old(self), len) ==> nav_wf(*final(self), len),
    {
        if len == 0 {
            return;
        }
        let i: usize = match self.selected {
            Option::Some(i) => if i == 0 { len - 1 } else { i - 1 },
            Option::None => 0,
        };
        self.selected = Option::Some(i);
        self.scroll_position = i;
    }
}

/// Immediately after a navigation step on a non-empty list, the
/// scrollbar position equals the selection index: the two never
/// diverge through navigation.
pub proof fn lemma_scrollbar_follows_selection(nav: ListNav, len: usize)
    requires
        len > 0,
    ensures
        nav_after_next(nav, len).scroll_position == nav_after_next(nav, len).selected->0,
        nav_after_previous(nav, len).scroll_position == nav_after_previous(nav, len).selected->0,
{
}

/// On a non-empty list every step lands on a valid index, stepping forward
/// from the last entry wraps to the first, and stepping backward from the
/// first wraps to the last.  Together with the contracts of `next` and
/// `previous` this bounds the selection over any sequence of calls.
pub proof fn lemma_navigation_wraps(selected: Option<usize>, len: usize)
    requires
        len > 0,
        selected is Some ==> selected->0 < len,
    ensures
        next_index(selected, len) < len,
        previous_index(selected, len) < len,
        selected == Option::Some((len - 1) as usize) ==> next_index(selected, len) == 0,
        selected == Option::Some(0usize) ==> previous_index(selected, len) == len - 1,
{
}

} // verus!
