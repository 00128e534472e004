//! The remediated arithmetic sample contract: addition reports overflow
//! through an error value instead of panicking.

use vstd::prelude::*;

verus! {

/// The errors the contract reports.
#[derive(Clone, Copy, PartialEq, Eq, Structural, Debug)]
pub enum Error {
    /// An overflow was produced while adding.
    OverflowError,
}

/// A contract storing one 32-bit counter.
pub struct PanicError {
    pub value: u32,
}

impl PanicError {
    /// Create the contract with an initial stored value.
    pub fn new(value: u32) -> (c: Self)
        ensures
            c.value == value,
    {
        Self { value }
    }

    /// Add to the stored value; on 32-bit overflow the value is left
    /// untouched and `OverflowError` is returned, if and only if the
    /// mathematical sum does not fit.
    pub fn add(&mut self, value: u32) -> (r: Result<(), Error>)
        ensures
            old(self).value + value <= u32::MAX ==> r is Ok && final(self).value == old(self).value
                + value,
            old(self).value + value > u32::MAX ==> r == Err::<(), Error>(Error::OverflowError)
                && final(self).value == old(self).value,
    {
        match self.value.checked_add(value) {
            Some(v) => {
                self.value = v;
                Ok(())
            },
            None => Err(Error::OverflowError),
        }
    }
}

} // verus!
