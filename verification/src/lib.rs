//! A static-analysis engine that scans smart-contract function bodies, given
//! as IR trees, for known vulnerability patterns — reentrancy, unbounded
//! iteration, unauthenticated storage writes, unauthorized container growth —
//! and emits diagnostics anchored at the offending code. The engine never
//! executes contracts and never mutates the IR; re-analysis of an unchanged
//! tree yields the identical findings.

pub mod diagnostics;
pub mod dos_unbounded;
pub mod engine;
pub mod fixtures;
pub mod ir;
pub mod names;
pub mod reentrancy;
pub mod set_storage;
pub mod unexpected_revert;

use vstd::prelude::*;

use crate::diagnostics::{Diagnostic, Reporter};
use crate::dos_unbounded::{dos_unbounded_diags, DosUnboundedOperation};
use crate::ir::{Expr, FunctionBody};
use crate::reentrancy::{reentrancy_diags, Reentrancy};
use crate::set_storage::{set_storage_diags, SetStorageWarn};
use crate::unexpected_revert::{unexpected_revert_diags, UnexpectedRevertWarn};

verus! {

/// Everything one analysis run reports for one function body: the findings of
/// each detector, in a fixed registration order.
pub open spec fn analysis_diags(stmts: Seq<Expr>) -> Seq<Diagnostic> {
    reentrancy_diags(stmts) + dos_unbounded_diags(stmts) + set_storage_diags(stmts)
        + unexpected_revert_diags(stmts)
}

/// Run every detector over one function body, appending the findings to the
/// reporter in registration order. Each detector starts from fresh state, so
/// nothing carries over between functions or between detectors.
pub fn analyze(body: &FunctionBody, reporter: &mut Reporter)
    ensures
        final(reporter)@ == old(reporter)@ + analysis_diags(body@),
{
    let reentrancy = Reentrancy;
    reentrancy.check_fn(body, reporter);
    let dos_unbounded = DosUnboundedOperation;
    dos_unbounded.check_body(body, reporter);
    let set_storage = SetStorageWarn;
    set_storage.check_body(body, reporter);
    let unexpected_revert = UnexpectedRevertWarn;
    unexpected_revert.check_fn(body, reporter);
    proof {
        assert(reporter@ =~= old(reporter)@ + analysis_diags(body@));
    }
}

/// Determinism: the findings of an analysis run are a function of the IR tree
/// alone, so running the engine twice over an unmodified tree yields the
/// identical diagnostic sequence.
pub proof fn lemma_analysis_deterministic(
    stmts: Seq<Expr>,
    d1: Seq<Diagnostic>,
    d2: Seq<Diagnostic>,
)
    requires
        d1 == analysis_diags(stmts),
        d2 == analysis_diags(stmts),
    ensures
        d1 == d2,
{
}

} // verus!
