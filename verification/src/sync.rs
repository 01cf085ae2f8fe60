//! Uniprocessor interior mutability primitives.
use vstd::prelude::*;

verus! {

/// Wraps a data structure of the kernel so that it can be reached from
/// anywhere on a uniprocessor.
///
/// Access is exclusive: [`UPSafeCell::exclusive_access`] hands out the only
/// mutable borrow of the inner data, and the borrow checker rules out a
/// second one while it lives.
pub struct UPSafeCell<T> {
    inner: T,
}

impl<T> View for UPSafeCell<T> {
    type V = T;

    closed spec fn view(&self) -> T {
        self.inner
    }
}

impl<T> UPSafeCell<T> {
    /// Wraps `value`.
    pub fn new(value: T) -> (cell: Self)
        ensures
            cell@ == value,
    {
        UPSafeCell { inner: value }
    }

    /// Exclusive access to the inner data: the borrow reads what the cell
    /// holds, and what is written through it is what the cell holds after.
    pub fn exclusive_access(&mut self) -> (inner: &mut T)
        ensures
            *inner == old(self)@,
            final(self)@ == *final(inner),
    {
        &mut self.inner
    }
}

} // verus!
