//! A cell that is filled when it is made and emptied once.

use vstd::prelude::*;

verus! {

/// A value that is present from construction until it is taken. Reading or
/// taking after that is a broken invariant of the caller: `deref` and `take`
/// rule it out by their preconditions, `try_take` reports it.
pub struct OptionCell<T>(Option<T>);

impl<T> View for OptionCell<T> {
    type V = Option<T>;

    closed spec fn view(&self) -> Option<T> {
        self.0
    }
}

impl<T> OptionCell<T> {
    /// A cell that holds `data`.
    pub fn new(data: T) -> (c: Self)
        ensures
            c@ == Some(data),
    {
        OptionCell(Some(data))
    }

    /// Whether the value is still there.
    pub fn is_some(&self) -> (b: bool)
        ensures
            b == (self@ is Some),
    {
        self.0.is_some()
    }

    /// The value, by reference.
    pub fn deref(&self) -> (d: &T)
        requires
            self@ is Some,
        ensures
            self@ == Some(*d),
    {
        self.0.as_ref().unwrap()
    }

    /// Moves the value out and leaves the cell empty.
    pub fn take(&mut self) -> (d: T)
        requires
            old(self)@ is Some,
        ensures
            old(self)@ == Some(d),
            final(self)@ is None,
    {
        self.0.take().unwrap()
    }

    /// Moves the value out if it is there; `None` tells that it was taken
    /// before. The cell is empty afterwards either way.
    pub fn try_take(&mut self) -> (d: Option<T>)
        ensures
            d == old(self)@,
            final(self)@ is None,
    {
        self.0.take()
    }
}

} // verus!
