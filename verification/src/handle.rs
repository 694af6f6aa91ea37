//! The handles that the protocols pass around.

use vstd::prelude::*;

verus! {

/// Stands for one suspended coroutine. It cannot be copied: whoever holds it
/// is the only one who can reschedule the coroutine.
#[derive(Debug, PartialEq, Eq)]
pub struct Coroutine {
    id: u64,
}

impl View for Coroutine {
    type V = u64;

    closed spec fn view(&self) -> u64 {
        self.id
    }
}

impl Coroutine {
    /// The handle of the coroutine numbered `id`.
    pub fn new(id: u64) -> (co: Self)
        ensures
            co@ == id,
    {
        Coroutine { id }
    }

    /// The coroutine's number.
    pub fn id(&self) -> (id: u64)
        ensures
            id == self@,
    {
        self.id
    }
}

/// Names the execution context, thread or coroutine, that parks and is
/// unparked. Copies name the same context.
#[derive(Clone, Copy, Debug, PartialEq, Eq)]
pub struct Blocker {
    id: u64,
}

impl View for Blocker {
    type V = u64;

    closed spec fn view(&self) -> u64 {
        self.id
    }
}

impl Blocker {
    /// The handle of the context numbered `id`.
    pub fn new(id: u64) -> (b: Self)
        ensures
            b@ == id,
    {
        Blocker { id }
    }

    /// The context's number.
    pub fn id(&self) -> (id: u64)
        ensures
            id == self@,
    {
        self.id
    }
}

} // verus!
