//! A cursor-tracked ordered list: the backing store for the remote file
//! listing. The cursor is `None` exactly when the list is empty; `next` and
//! `previous` wrap circularly; replacing the contents resets the cursor.

use vstd::prelude::*;

verus! {

/// Cursor position one step forward, wrapping to the front at the end.
pub open spec fn next_index(len: nat, i: nat) -> nat {
    if i + 1 >= len {
        0
    } else {
        i + 1
    }
}

/// Cursor position one step back, wrapping to the back at the front.
pub open spec fn prev_index(len: nat, i: nat) -> nat {
    if i == 0 {
        (len - 1) as nat
    } else {
        (i - 1) as nat
    }
}

/// The cursor after `k` forward steps through a list of `len` items.
pub open spec fn iterate_next(len: nat, i: nat, k: nat) -> nat
    decreases k,
{
    if k == 0 {
        i
    } else {
        next_index(len, iterate_next(len, i, (k - 1) as nat))
    }
}

proof fn lemma_iterate_next_value(len: nat, i: nat, k: nat)
    requires
        0 < len,
        i < len,
        k <= len,
    ensures
        iterate_next(len, i, k) == if i + k < len {
            i + k
        } else {
            (i + k - len) as nat
        },
    decreases k,
{
    if k > 0 {
        lemma_iterate_next_value(len, i, (k - 1) as nat);
    }
}

/// An ordered collection with one optional selected index.
#[derive(Debug)]
pub struct StatefulList<T> {
    pub items: Vec<T>,
    pub selected: Option<usize>,
}

impl<T> StatefulList<T> {
    /// The cursor is `None` exactly when the list is empty and never
    /// exceeds `len - 1`.
    pub open spec fn wf(self) -> bool {
        match self.cursor() {
            Option::Some(i) => 0 < self.items.len() && i < self.items.len(),
            Option::None => self.items.len() == 0,
        }
    }

    /// The selected index, as the contracts speak of it.
    pub open spec fn cursor(self) -> Option<usize> {
        self.selected
    }

    pub fn new() -> (r: Self)
        ensures
            r.items@.len() == 0,
            r.cursor() is None,
            r.wf(),
    {
        Self { items: Vec::new(), selected: Option::None }
    }

    /// Builds a list holding `items`, with the cursor on the first item if
    /// there is one.
    pub fn with_items(items: Vec<T>) -> (r: Self)
        ensures
            r.items == items,
            r.cursor() == (if items.len() > 0 {
                Option::<usize>::Some(0)
            } else {
                Option::<usize>::None
            }),
            r.wf(),
    {
        let selected: Option<usize> = if items.len() > 0 {
            Option::Some(0)
        } else {
            Option::None
        };
        Self { items, selected }
    }

    /// Discards the old contents and stores `items`; the cursor is reset to
    /// the first item, or cleared when `items` is empty, whatever it was
    /// before.
    pub fn replace(&mut self, items: Vec<T>)
        ensures
            final(self).items == items,
            final(self).cursor() == (if items.len() > 0 {
                Option::<usize>::Some(0)
            } else {
                Option::<usize>::None
            }),
            final(self).wf(),
    {
        self.selected = if items.len() > 0 {
            Option::Some(0)
        } else {
            Option::None
        };
        self.items = items;
    }

    /// The list as `next` leaves it: the same items, the cursor one
    /// wrapping step forward.
    pub open spec fn stepped_next(self) -> Self {
        match self.selected {
            Option::Some(i) => StatefulList {
                selected: Option::Some(next_index(self.items.len() as nat, i as nat) as usize),
                ..self
            },
            Option::None => self,
        }
    }

    /// The list as `previous` leaves it: the same items, the cursor one
    /// wrapping step back.
    pub open spec fn stepped_previous(self) -> Self {
        match self.selected {
            Option::Some(i) => StatefulList {
                selected: Option::Some(prev_index(self.items.len() as nat, i as nat) as usize),
                ..self
            },
            Option::None => self,
        }
    }

    /// Advances the cursor one step, wrapping to the front past the last
    /// item; a no-op on an empty list.
    pub fn next(&mut self)
        requires
            old(self).wf(),
        ensures
            *final(self) == old(self).stepped_next(),
            final(self).wf(),
    {
        match self.selected {
            Option::Some(i) => {
                let n: usize = if i >= self.items.len() - 1 {
                    0
                } else {
                    i + 1
                };
                self.selected = Option::Some(n);
            },
            Option::None => {},
        }
    }

    /// Retreats the cursor one step, wrapping to the back past the first
    /// item; a no-op on an empty list.
    pub fn previous(&mut self)
        requires
            old(self).wf(),
        ensures
            *final(self) == old(self).stepped_previous(),
            final(self).wf(),
    {
        match self.selected {
            Option::Some(i) => {
                let n: usize = if i == 0 {
                    self.items.len() - 1
                } else {
                    i - 1
                };
                self.selected = Option::Some(n);
            },
            Option::None => {},
        }
    }

    /// The item under the cursor, or nothing on an empty list.
    pub fn selected(&self) -> (r: Option<&T>)
        requires
            self.wf(),
        ensures
            self.cursor() is None ==> r is None,
            forall|i: usize|
                self.cursor() == Option::Some(i) ==> r == Option::Some(&self.items@[i as int]),
    {
        match self.selected {
            Option::Some(i) => Option::Some(&self.items[i]),
            Option::None => Option::None,
        }
    }

    /// The selected index itself, for callers that render the list.
    pub fn selected_index(&self) -> (r: Option<usize>)
        ensures
            r == self.cursor(),
    {
        self.selected
    }
}

/// The list after `k` calls of `next`.
pub open spec fn iterate_stepped_next<T>(l: StatefulList<T>, k: nat) -> StatefulList<T>
    decreases k,
{
    if k == 0 {
        l
    } else {
        iterate_stepped_next(l, (k - 1) as nat).stepped_next()
    }
}

proof fn lemma_iterate_stepped_next_cursor<T>(l: StatefulList<T>, k: nat)
    requires
        l.wf(),
        l.items.len() > 0,
    ensures
        iterate_stepped_next(l, k).items == l.items,
        iterate_stepped_next(l, k).cursor() == Option::Some(
            iterate_next(l.items.len() as nat, l.cursor().unwrap() as nat, k) as usize,
        ),
        iterate_next(l.items.len() as nat, l.cursor().unwrap() as nat, k) < l.items.len(),
    decreases k,
{
    if k > 0 {
        lemma_iterate_stepped_next_cursor(l, (k - 1) as nat);
    }
}

/// Calling `next` once for each item of a non-empty list returns the list
/// to exactly its starting state: the cursor wraps circularly.
pub proof fn lemma_next_full_cycle<T>(l: StatefulList<T>)
    requires
        l.wf(),
        l.items.len() > 0,
    ensures
        iterate_stepped_next(l, l.items@.len()) == l,
{
    let len = l.items.len() as nat;
    let i = l.cursor().unwrap() as nat;
    lemma_iterate_stepped_next_cursor(l, len);
    lemma_iterate_next_value(len, i, len);
}

/// `next` followed by `previous` returns a non-empty list to exactly its
/// starting state: `previous` undoes `next` on the cursor.
pub proof fn lemma_previous_undoes_next<T>(l: StatefulList<T>)
    requires
        l.wf(),
        l.items.len() > 0,
    ensures
        l.stepped_next().stepped_previous() == l,
{
}

} // verus!
