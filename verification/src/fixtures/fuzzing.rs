//! The structured input a fuzz harness decodes from raw bytes for the
//! overflow/underflow target, and the trial it drives. The harness itself —
//! byte decoding, process plumbing — is an external collaborator; the trial's
//! invariant is proved here for every input.

use vstd::prelude::*;
use crate::fixtures::integer_overflow::IntegerOverflowUnderflow;

verus! {

/// One fuzz input for the overflow/underflow target.
#[derive(Clone, Copy, PartialEq, Eq, Structural, Debug)]
pub struct Input {
    pub value_for_new: u8,
    pub value_for_add: u8,
    pub value_for_sub: u8,
}

/// One fuzz trial: from a fresh contract, adding must wrap to the eight-bit
/// sum and subtracting must wrap to the eight-bit difference. The result says
/// whether both assertions held — provably, they hold for every input.
pub fn overflow_trial(input: &Input) -> (ok: bool)
    ensures
        ok,
{
    let mut added = IntegerOverflowUnderflow::new(input.value_for_new);
    added.add(input.value_for_add);
    let after_add = added.get();
    let expected_add = (((input.value_for_new as u16) + (input.value_for_add as u16)) % 256) as u8;

    let mut subtracted = IntegerOverflowUnderflow::new(input.value_for_new);
    subtracted.sub(input.value_for_sub);
    let after_sub = subtracted.get();
    let expected_sub = (((input.value_for_new as u16) + 256 - (input.value_for_sub as u16)) % 256) as u8;

    after_add == expected_add && after_sub == expected_sub
}

} // verus!
