//! The guard that keeps an operation alive while it is being subscribed.

use vstd::prelude::*;

verus! {

/// Tells whether the operation that owns it may be torn down. While the guard
/// is held the scheduler still works on the operation, and the owner has to
/// wait before it drops it.
#[derive(Debug)]
pub struct DelayDrop {
    held: bool,
}

impl View for DelayDrop {
    type V = bool;

    /// Whether the guard is held.
    closed spec fn view(&self) -> bool {
        self.held
    }
}

impl DelayDrop {
    /// A guard that is not held.
    pub fn new() -> (d: Self)
        ensures
            !d@,
    {
        DelayDrop { held: false }
    }

    /// Forgets an earlier acquisition, before the operation suspends anew.
    pub fn reset(&mut self)
        ensures
            !final(self)@,
    {
        self.held = false;
    }

    /// Acquires the guard.
    pub fn delay_drop(&mut self)
        ensures
            final(self)@,
    {
        self.held = true;
    }

    /// Releases the guard.
    pub fn release(&mut self)
        ensures
            !final(self)@,
    {
        self.held = false;
    }

    /// Whether the owner may be dropped now.
    pub fn can_drop(&self) -> (b: bool)
        ensures
            b == !self@,
    {
        !self.held
    }
}

} // verus!
