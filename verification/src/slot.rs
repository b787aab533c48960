//! An exclusive-access cell whose value can be temporarily extracted.
//!
//! Handing a context over to the platform consumes it by value, yet the
//! surrounding object graph wants to keep a single storage place for it.  A
//! [`Slot`] makes the hand-off explicit: the owned value is taken out,
//! transformed, and reinserted, and the cell has a well-defined absent state
//! in between.  Observing the cell while the value is out is a programming
//! error that the contracts here rule out or report, never tolerate silently.

use vstd::prelude::*;

verus! {

/// A cell that either holds its value or records that the value has been
/// extracted and not yet reinserted.
#[derive(Debug)]
pub enum Slot<T> {
    /// The value is in the cell.
    Present(T),
    /// The value has been extracted and not yet reinserted.
    Extracted,
}

impl<T> Slot<T> {
    /// Creates a cell holding `value`.
    pub fn new(value: T) -> (r: Self)
        ensures
            r == Slot::Present(value),
    {
        Slot::Present(value)
    }

    /// True exactly when the value is in the cell.
    pub fn is_present(&self) -> (r: bool)
        ensures
            r == (*self is Present),
    {
        match self {
            Slot::Present(_) => true,
            Slot::Extracted => false,
        }
    }

    /// Moves the value out of the cell, leaving it in the extracted state.
    /// Taking from a cell whose value is already out is a programming error
    /// and is ruled out by the precondition.
    pub fn take(&mut self) -> (r: T)
        requires
            *old(self) is Present,
        ensures
            *old(self) == Slot::Present(r),
            *final(self) == Slot::<T>::Extracted,
    {
        let mut taken = Slot::Extracted;
        core::mem::swap(self, &mut taken);
        match taken {
            Slot::Present(value) => value,
            Slot::Extracted => vstd::pervasive::unreached(),
        }
    }

    /// Moves the value out of the cell if it is there, leaving the cell in
    /// the extracted state either way.
    pub fn try_take(&mut self) -> (r: Option<T>)
        ensures
            *final(self) == Slot::<T>::Extracted,
            match r {
                Some(value) => *old(self) == Slot::Present(value),
                None => *old(self) == Slot::<T>::Extracted,
            },
    {
        let mut taken = Slot::Extracted;
        core::mem::swap(self, &mut taken);
        match taken {
            Slot::Present(value) => Some(value),
            Slot::Extracted => None,
        }
    }

    /// Puts `value` into the cell, returning the value it displaced, if any.
    pub fn insert(&mut self, value: T) -> (r: Option<T>)
        ensures
            *final(self) == Slot::Present(value),
            match r {
                Some(displaced) => *old(self) == Slot::Present(displaced),
                None => *old(self) == Slot::<T>::Extracted,
            },
    {
        let mut cell = Slot::Present(value);
        core::mem::swap(self, &mut cell);
        match cell {
            Slot::Present(displaced) => Some(displaced),
            Slot::Extracted => None,
        }
    }

    /// Borrows the value in the cell.  Observing a cell whose value is out
    /// is a programming error and is ruled out by the precondition.
    pub fn borrow(&self) -> (r: &T)
        requires
            *self is Present,
        ensures
            *self == Slot::Present(*r),
    {
        match self {
            Slot::Present(value) => value,
            Slot::Extracted => vstd::pervasive::unreached(),
        }
    }
}

} // verus!
