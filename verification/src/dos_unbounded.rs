//! The unbounded-operation detector: a `for` loop whose iteration source is a
//! range bounded by a field of the contract's own storage is flagged, because
//! the iteration count is then attacker-influenced rather than a constant.

use vstd::prelude::*;
use crate::diagnostics::{DetectorKind, Diagnostic, Reporter};
use crate::engine::{found_diags, found_diags_list, walk_list, NodeDetector};
use crate::ir::{is_receiver_field, receiver_field_check, Expr, FunctionBody};

verus! {

/// A node is an unbounded operation when it is a `for` loop over a range
/// whose upper bound is a storage-derived field read. A constant bound does
/// not match.
pub open spec fn is_unbounded_for_loop(e: Expr) -> bool {
    match e {
        Expr::ForLoop { iterable, .. } => match *iterable {
            Expr::Range { end, .. } => is_receiver_field(*end),
            _ => false,
        },
        _ => false,
    }
}

/// The unbounded-operation analysis.
pub struct DosUnboundedOperation;

impl DosUnboundedOperation {
    /// Classify one node: is it a `for` loop whose range bound is a field of
    /// the receiver's storage?
    pub fn check_expr(&self, e: &Expr) -> (r: bool)
        ensures
            r == is_unbounded_for_loop(*e),
    {
        match e {
            Expr::ForLoop { iterable, .. } => match &**iterable {
                Expr::Range { end, .. } => receiver_field_check(end),
                _ => false,
            },
            _ => false,
        }
    }

    /// Scan a whole function body, reporting one diagnostic per unbounded
    /// loop, anchored at the loop, in source order.
    pub fn check_body(&self, body: &FunctionBody, reporter: &mut Reporter)
        ensures
            final(reporter)@ == old(reporter)@ + dos_unbounded_diags(body@),
    {
        walk_list(self, &body.stmts, reporter);
    }
}

impl NodeDetector for DosUnboundedOperation {
    open spec fn spec_kind(&self) -> DetectorKind {
        DetectorKind::DosUnboundedOperation
    }

    open spec fn spec_applies(&self, e: Expr) -> bool {
        is_unbounded_for_loop(e)
    }

    fn kind(&self) -> (k: DetectorKind) {
        DetectorKind::DosUnboundedOperation
    }

    fn applies(&self, e: &Expr) -> (r: bool) {
        self.check_expr(e)
    }
}

/// The diagnostics a scan of the given statements produces.
pub open spec fn dos_unbounded_diags(stmts: Seq<Expr>) -> Seq<Diagnostic> {
    found_diags_list(DosUnboundedOperation, stmts)
}

/// A `for` loop over a range with a literal (constant) upper bound is never
/// flagged, whatever its body contains.
pub proof fn lemma_constant_bound_never_flagged(e: Expr)
    requires
        e matches Expr::ForLoop { iterable, .. } && (*iterable matches Expr::Range { end, .. }
            && *end matches Expr::Literal { .. }),
    ensures
        !is_unbounded_for_loop(e),
{
}

/// A `for` loop over a range whose upper bound reads a field of the
/// receiver's own storage is always flagged, whatever its body contains, and
/// the diagnostic is anchored at the loop itself.
pub proof fn lemma_storage_bound_always_flagged(e: Expr)
    requires
        e matches Expr::ForLoop { iterable, .. } && (*iterable matches Expr::Range { end, .. }
            && is_receiver_field(*end)),
    ensures
        is_unbounded_for_loop(e),
        found_diags(DosUnboundedOperation, e).len() >= 1,
        found_diags(DosUnboundedOperation, e)[0] == (Diagnostic {
            detector: DetectorKind::DosUnboundedOperation,
            span: e.spec_span(),
        }),
{
}

} // verus!
