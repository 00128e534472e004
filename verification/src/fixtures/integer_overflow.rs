//! The overflow/underflow sample contract: one stored byte with deliberately
//! wrapping addition and subtraction — the vulnerable shape the fuzz harness
//! exercises across the eight-bit boundaries.

use vstd::prelude::*;

verus! {

/// A contract storing a single byte, with wrapping arithmetic.
pub struct IntegerOverflowUnderflow {
    pub value: u8,
}

impl IntegerOverflowUnderflow {
    /// Create the contract with an initial stored value.
    pub fn new(value: u8) -> (c: Self)
        ensures
            c.value == value,
    {
        Self { value }
    }

    /// Add to the stored value, wrapping on eight-bit overflow.
    pub fn add(&mut self, value: u8)
        ensures
            final(self).value == (old(self).value + value) % 256,
    {
        self.value = (((self.value as u16) + (value as u16)) % 256) as u8;
    }

    /// Subtract from the stored value, wrapping on eight-bit underflow.
    pub fn sub(&mut self, value: u8)
        ensures
            final(self).value == (old(self).value - value + 256) % 256,
    {
        self.value = (((self.value as u16) + 256 - (value as u16)) % 256) as u8;
    }

    /// Read the stored value.
    pub fn get(&self) -> (v: u8)
        ensures
            v == self.value,
    {
        self.value
    }
}

/// Build the contract and hand it back; the constructor stores exactly the
/// initial value.
pub fn constructor_works(initial_value: u8) -> (contract: IntegerOverflowUnderflow)
    ensures
        contract.value == initial_value,
{
    let contract = IntegerOverflowUnderflow::new(initial_value);
    let stored = contract.get();
    assert(stored == initial_value);
    contract
}

/// Build the contract and add: the stored value is the eight-bit wrapped sum,
/// for every initial value and operand.
pub fn add_overflows(initial_value: u8, value_to_add: u8) -> (contract: IntegerOverflowUnderflow)
    ensures
        contract.value == (initial_value + value_to_add) % 256,
{
    let mut contract = IntegerOverflowUnderflow::new(initial_value);
    contract.add(value_to_add);
    contract
}

/// Build the contract and subtract: the stored value is the eight-bit wrapped
/// difference, for every initial value and operand.
pub fn sub_underflows(initial_value: u8, value_to_sub: u8) -> (contract: IntegerOverflowUnderflow)
    ensures
        contract.value == (initial_value - value_to_sub + 256) % 256,
{
    let mut contract = IntegerOverflowUnderflow::new(initial_value);
    contract.sub(value_to_sub);
    contract
}

} // verus!
