//! The minimal remediated storage sample contract: one boolean flipped
//! through the typed storage API, never through the raw storage primitive.

use vstd::prelude::*;

verus! {

/// A contract storing a single `bool` value.
pub struct Template {
    pub value: bool,
}

impl Template {
    /// Creates a new instance of the contract.
    pub fn new(init_value: bool) -> (c: Self)
        ensures
            c.value == init_value,
    {
        Self { value: init_value }
    }

    /// Flips the stored `bool` from `true` to `false` and vice versa.
    pub fn flip(&mut self)
        ensures
            final(self).value == !old(self).value,
    {
        self.value = !self.value;
    }

    /// Returns the current stored `bool`.
    pub fn get(&self) -> (v: bool)
        ensures
            v == self.value,
    {
        self.value
    }
}

} // verus!
