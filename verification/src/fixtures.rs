//! Verified models of the sample contracts used to validate the detectors:
//! each known-vulnerable or known-remediated shape, reduced to the plain
//! storage and operations the analysis and its tests exercise.

pub mod dos_operation;
pub mod fuzzing;
pub mod integer_overflow;
pub mod panic_error;
pub mod template;
pub mod unused_return;
