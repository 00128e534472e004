//! The unused-return sample contract: the percentage difference is computed
//! and then discarded, and the function unconditionally reports an error —
//! the shape the unused-return-value class of bugs takes.

use vstd::prelude::*;

verus! {

/// The errors the contract reports.
#[derive(Clone, Copy, PartialEq, Eq, Structural, Debug)]
pub enum TradingPairErrors {
    Overflow,
}

/// A contract with no storage of its own.
pub struct UnusedReturnEnum {}

impl UnusedReturnEnum {
    /// Creates a new instance of the contract.
    pub fn new() -> (c: Self) {
        Self {  }
    }

    /// Computes the percentage difference of two balances, then discards it
    /// and returns the `Overflow` error for every input — faithfully keeping
    /// the bug this fixture exists to exhibit. The inputs on which the
    /// arithmetic itself would fail (a sum of zero, or one beyond the 128-bit
    /// range) are excluded up front.
    pub fn get_percentage_difference(&mut self, value1: u128, value2: u128) -> (r: Result<
        u128,
        TradingPairErrors,
    >)
        requires
            value1 + value2 <= u128::MAX,
            value1 + value2 > 0,
        ensures
            r == Err::<u128, TradingPairErrors>(TradingPairErrors::Overflow),
    {
        let absolute_difference = if value1 > value2 {
            value1 - value2
        } else {
            value2 - value1
        };
        let sum = value1 + value2;
        proof {
            assert(absolute_difference / sum <= 1) by (nonlinear_arith)
                requires
                    sum > 0,
                    0 <= absolute_difference <= sum,
            ;
        }
        let ratio = absolute_difference / sum;
        let _percentage_difference = match 100u128.checked_mul(ratio) {
            Some(result) => result,
            None => 0,
        };
        Err(TradingPairErrors::Overflow)
    }
}

} // verus!
