//! A slot for at most one occupant, changed only by exchange.

use vstd::prelude::*;

verus! {

/// Holds at most one `T`. The occupant is put in by `swap` and handed out by
/// `take`; it is moved both times, so no two parties ever hold the same one.
pub struct Slot<T> {
    item: Option<T>,
}

impl<T> View for Slot<T> {
    type V = Option<T>;

    closed spec fn view(&self) -> Option<T> {
        self.item
    }
}

impl<T> Slot<T> {
    /// The empty slot.
    pub fn none() -> (s: Self)
        ensures
            s@ is None,
    {
        Slot { item: None }
    }

    /// A slot that holds `v`.
    pub fn some(v: T) -> (s: Self)
        ensures
            s@ == Some(v),
    {
        Slot { item: Some(v) }
    }

    /// Puts `v` in and hands out whoever was there.
    pub fn swap(&mut self, v: T) -> (prev: Option<T>)
        ensures
            prev == old(self)@,
            final(self)@ == Some(v),
    {
        let prev = self.item.take();
        self.item = Some(v);
        prev
    }

    /// Empties the slot and hands out whoever was there.
    pub fn take(&mut self) -> (prev: Option<T>)
        ensures
            prev == old(self)@,
            final(self)@ is None,
    {
        self.item.take()
    }

    /// Whether the slot is empty.
    pub fn is_none(&self) -> (b: bool)
        ensures
            b == (self@ is None),
    {
        self.item.is_none()
    }
}

} // verus!
