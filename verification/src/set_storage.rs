//! The arbitrary-storage-write detector: every direct call of the low-level
//! `env::set_contract_storage` primitive is flagged, unconditionally. The
//! check is deliberately coarse: it does not inspect the key argument, so
//! every syntactic occurrence of the primitive is reported.

use vstd::prelude::*;
use crate::diagnostics::{DetectorKind, Diagnostic, Reporter};
use crate::engine::{found_diags_list, lemma_diags_kind_list, lemma_one_diag_per_match_list, match_count_list, walk_list, NodeDetector};
use crate::ir::{Expr, FunctionBody, Span};
use crate::names::name_eq;

verus! {

/// A node is a raw storage write when it calls a two-segment path whose
/// segments are exactly `env` and `set_contract_storage`.
pub open spec fn is_set_storage_call(e: Expr) -> bool {
    match e {
        Expr::Call { callee, .. } => match *callee {
            Expr::Path { segments, .. } => {
                &&& segments@.len() == 2
                &&& segments@[0]@ == "env"@
                &&& segments@[1]@ == "set_contract_storage"@
            },
            _ => false,
        },
        _ => false,
    }
}

/// The raw-storage-write analysis.
pub struct SetStorageWarn;

impl SetStorageWarn {
    /// Classify one node: is it a direct invocation of the raw storage-set
    /// primitive?
    pub fn check_expr(&self, e: &Expr) -> (r: bool)
        ensures
            r == is_set_storage_call(*e),
    {
        match e {
            Expr::Call { callee, .. } => match &**callee {
                Expr::Path { segments, .. } => segments.len() == 2 && name_eq(
                    segments[0].as_str(),
                    "env",
                ) && name_eq(segments[1].as_str(), "set_contract_storage"),
                _ => false,
            },
            _ => false,
        }
    }

    /// Scan a whole function body, reporting one diagnostic per occurrence of
    /// the primitive, in source order.
    pub fn check_body(&self, body: &FunctionBody, reporter: &mut Reporter)
        ensures
            final(reporter)@ == old(reporter)@ + set_storage_diags(body@),
    {
        walk_list(self, &body.stmts, reporter);
    }
}

impl NodeDetector for SetStorageWarn {
    open spec fn spec_kind(&self) -> DetectorKind {
        DetectorKind::SetStorageWarn
    }

    open spec fn spec_applies(&self, e: Expr) -> bool {
        is_set_storage_call(e)
    }

    fn kind(&self) -> (k: DetectorKind) {
        DetectorKind::SetStorageWarn
    }

    fn applies(&self, e: &Expr) -> (r: bool) {
        self.check_expr(e)
    }
}

/// The diagnostics a scan of the given statements produces.
pub open spec fn set_storage_diags(stmts: Seq<Expr>) -> Seq<Diagnostic> {
    found_diags_list(SetStorageWarn, stmts)
}

/// Every syntactic occurrence of the raw storage-set primitive in a body
/// yields exactly one diagnostic: the number of findings equals the number of
/// occurrences.
pub proof fn lemma_one_diagnostic_per_occurrence(stmts: Seq<Expr>)
    ensures
        set_storage_diags(stmts).len() == match_count_list(SetStorageWarn, stmts),
{
    lemma_one_diag_per_match_list(SetStorageWarn, stmts);
}

/// Whether a call is flagged is independent of its argument values and its
/// location: only the callee path decides.
pub proof fn lemma_arguments_irrelevant(
    callee: Expr,
    args1: Vec<Expr>,
    span1: Span,
    args2: Vec<Expr>,
    span2: Span,
)
    ensures
        is_set_storage_call(
            Expr::Call { callee: Box::new(callee), args: args1, span: span1 },
        ) == is_set_storage_call(Expr::Call { callee: Box::new(callee), args: args2, span: span2 }),
{
}

/// Every finding of this detector carries its identity: a scan reports
/// storage-write warnings and nothing else.
pub proof fn lemma_all_findings_are_storage_warnings(stmts: Seq<Expr>)
    ensures
        forall|k: int|
            0 <= k < set_storage_diags(stmts).len() ==> (#[trigger] set_storage_diags(
                stmts,
            )[k]).detector == DetectorKind::SetStorageWarn,
{
    lemma_diags_kind_list(SetStorageWarn, stmts);
}

} // verus!
