//! Write-once storage cells standing in for static, heap-free allocation.
//!
//! A [`StorageCell`] owns room for exactly one value. It starts empty and
//! supports a single successful [`StorageCell::initialize`] transition; a
//! second attempt fails deterministically and hands the value back. Once
//! initialized a cell never becomes empty again: there is no operation that
//! clears it, so the value lives as long as the cell does and is reached
//! only by borrowing.

use vstd::prelude::*;
use vstd::pervasive::unreached;

verus! {

/// Caller-provided room for exactly one value of type `T`, written at most
/// once.
pub struct StorageCell<T> {
    slot: Option<T>,
}

impl<T> StorageCell<T> {
    /// Whether the one-shot write has already happened.
    pub closed spec fn is_initialized(&self) -> bool {
        self.slot is Some
    }

    /// The value written into the cell.
    pub closed spec fn value(&self) -> T
        recommends
            self.is_initialized(),
    {
        self.slot->Some_0
    }

    /// A fresh, empty cell.
    pub fn new() -> (cell: StorageCell<T>)
        ensures
            !cell.is_initialized(),
    {
        StorageCell { slot: None }
    }

    /// The one-shot write. Succeeds exactly once per cell; a second attempt
    /// leaves the cell untouched and returns the rejected value.
    pub fn initialize(&mut self, value: T) -> (result: Result<(), T>)
        ensures
            result is Ok <==> !old(self).is_initialized(),
            !old(self).is_initialized() ==> final(self).is_initialized()
                && final(self).value() == value,
            old(self).is_initialized() ==> *final(self) == *old(self)
                && (result matches Err(rejected) && rejected == value),
    {
        if self.slot.is_some() {
            Err(value)
        } else {
            self.slot = Some(value);
            Ok(())
        }
    }

    /// Whether the cell has been initialized.
    pub fn is_init(&self) -> (result: bool)
        ensures
            result == self.is_initialized(),
    {
        self.slot.is_some()
    }

    /// Borrows the initialized value.
    pub fn borrow(&self) -> (value: &T)
        requires
            self.is_initialized(),
        ensures
            *value == self.value(),
    {
        match &self.slot {
            Some(value) => value,
            None => unreached(),
        }
    }

    /// Mutably borrows the initialized value; the cell stays initialized and
    /// afterwards holds whatever the caller left behind the borrow.
    pub fn borrow_mut(&mut self) -> (value: &mut T)
        requires
            old(self).is_initialized(),
        ensures
            *value == old(self).value(),
            final(self).is_initialized(),
            final(self).value() == *final(value),
    {
        match &mut self.slot {
            Some(value) => value,
            None => unreached(),
        }
    }
}

} // verus!
