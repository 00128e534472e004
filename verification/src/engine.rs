//! The traversal engine: a depth-first walk over an IR tree that offers every
//! node, in source order, to a per-node analysis and collects one diagnostic
//! for each node the analysis accepts. Each node is visited exactly once and
//! the walk terminates on any finite tree.

use vstd::prelude::*;
use crate::diagnostics::{DetectorKind, Diagnostic, Reporter};
use crate::ir::Expr;

verus! {

/// A per-node analysis: it classifies each node in isolation, so the engine
/// can drive it over a whole tree.
pub trait NodeDetector: Sized {
    /// Which analysis this is; fixed for a given detector.
    spec fn spec_kind(&self) -> DetectorKind;

    /// The nodes this analysis accepts.
    spec fn spec_applies(&self, e: Expr) -> bool;

    /// Executable identification of the analysis.
    fn kind(&self) -> (k: DetectorKind)
        ensures
            k == self.spec_kind(),
    ;

    /// Executable classification of one node.
    fn applies(&self, e: &Expr) -> (r: bool)
        ensures
            r == self.spec_applies(*e),
    ;
}

/// The diagnostics a depth-first, source-order walk of `e` produces for the
/// analysis `d`: one per accepted node, the node itself before its children.
pub open spec fn found_diags<D: NodeDetector>(d: D, e: Expr) -> Seq<Diagnostic>
    decreases e,
{
    let own = if d.spec_applies(e) {
        seq![Diagnostic { detector: d.spec_kind(), span: e.spec_span() }]
    } else {
        Seq::<Diagnostic>::empty()
    };
    own + match e {
        Expr::MethodCall { receiver, args, .. } => found_diags(d, *receiver) + found_diags_list(
            d,
            args@,
        ),
        Expr::Call { callee, args, .. } => found_diags(d, *callee) + found_diags_list(d, args@),
        Expr::FieldAccess { base, .. } => found_diags(d, *base),
        Expr::Assign { lhs, rhs, .. } => found_diags(d, *lhs) + found_diags(d, *rhs),
        Expr::Binary { left, right, .. } => found_diags(d, *left) + found_diags(d, *right),
        Expr::If { cond, then_branch, .. } => found_diags(d, *cond) + found_diags_list(
            d,
            then_branch@,
        ),
        Expr::ForLoop { iterable, body, .. } => found_diags(d, *iterable) + found_diags_list(
            d,
            body@,
        ),
        Expr::Range { start, end, .. } => found_diags(d, *start) + found_diags(d, *end),
        Expr::Literal { .. } => Seq::<Diagnostic>::empty(),
        Expr::Path { .. } => Seq::<Diagnostic>::empty(),
    }
}

/// The diagnostics the walk produces over a sequence of sibling nodes, in
/// written order.
pub open spec fn found_diags_list<D: NodeDetector>(d: D, es: Seq<Expr>) -> Seq<Diagnostic>
    decreases es,
{
    if es.len() == 0 {
        Seq::<Diagnostic>::empty()
    } else {
        found_diags(d, es[0]) + found_diags_list(d, es.drop_first())
    }
}

/// Walk one node and all its descendants, reporting one diagnostic per node
/// that `d` accepts, in depth-first source order.
pub fn walk<D: NodeDetector>(d: &D, e: &Expr, reporter: &mut Reporter)
    ensures
        final(reporter)@ == old(reporter)@ + found_diags(*d, *e),
    decreases *e,
{
    if d.applies(e) {
        let sp = e.span();
        reporter.report(Diagnostic { detector: d.kind(), span: sp });
    }
    match e {
        Expr::MethodCall { receiver, args, .. } => {
            walk(d, receiver, reporter);
            walk_list(d, args, reporter);
        },
        Expr::Call { callee, args, .. } => {
            walk(d, callee, reporter);
            walk_list(d, args, reporter);
        },
        Expr::FieldAccess { base, .. } => {
            walk(d, base, reporter);
        },
        Expr::Assign { lhs, rhs, .. } => {
            walk(d, lhs, reporter);
            walk(d, rhs, reporter);
        },
        Expr::Binary { left, right, .. } => {
            walk(d, left, reporter);
            walk(d, right, reporter);
        },
        Expr::If { cond, then_branch, .. } => {
            walk(d, cond, reporter);
            walk_list(d, then_branch, reporter);
        },
        Expr::ForLoop { iterable, body, .. } => {
            walk(d, iterable, reporter);
            walk_list(d, body, reporter);
        },
        Expr::Range { start, end, .. } => {
            walk(d, start, reporter);
            walk(d, end, reporter);
        },
        Expr::Literal { .. } => {},
        Expr::Path { .. } => {},
    }
    proof {
        assert(reporter@ =~= old(reporter)@ + found_diags(*d, *e));
    }
}

/// Walk each node of a sibling sequence in written order.
pub fn walk_list<D: NodeDetector>(d: &D, es: &Vec<Expr>, reporter: &mut Reporter)
    ensures
        final(reporter)@ == old(reporter)@ + found_diags_list(*d, es@),
    decreases es@,
{
    let mut i: usize = 0;
    proof {
        assert(es@.skip(0) =~= es@);
    }
    while i < es.len()
        invariant
            0 <= i <= es@.len(),
            old(reporter)@ + found_diags_list(*d, es@) == reporter@ + found_diags_list(
                *d,
                es@.skip(i as int),
            ),
        decreases es@.len() - i,
    {
        let ghost pre = reporter@;
        proof {
            assert(decreases_to!(es@ => es@[i as int]));
        }
        walk(d, &es[i], reporter);
        proof {
            assert(es@.skip(i as int).drop_first() =~= es@.skip(i as int + 1));
            assert(es@.skip(i as int)[0] == es@[i as int]);
            assert(found_diags_list(*d, es@.skip(i as int)) == found_diags(*d, es@[i as int])
                + found_diags_list(*d, es@.skip(i as int + 1)));
            assert(pre + found_diags_list(*d, es@.skip(i as int)) =~= reporter@
                + found_diags_list(*d, es@.skip(i as int + 1)));
        }
        i = i + 1;
    }
    proof {
        assert(es@.skip(es@.len() as int) =~= Seq::<Expr>::empty());
        assert(reporter@ =~= old(reporter)@ + found_diags_list(*d, es@));
    }
}

/// How many nodes of the tree `e` the analysis `d` accepts.
pub open spec fn match_count<D: NodeDetector>(d: D, e: Expr) -> nat
    decreases e,
{
    (if d.spec_applies(e) {
        1nat
    } else {
        0nat
    }) + match e {
        Expr::MethodCall { receiver, args, .. } => match_count(d, *receiver) + match_count_list(
            d,
            args@,
        ),
        Expr::Call { callee, args, .. } => match_count(d, *callee) + match_count_list(d, args@),
        Expr::FieldAccess { base, .. } => match_count(d, *base),
        Expr::Assign { lhs, rhs, .. } => match_count(d, *lhs) + match_count(d, *rhs),
        Expr::Binary { left, right, .. } => match_count(d, *left) + match_count(d, *right),
        Expr::If { cond, then_branch, .. } => match_count(d, *cond) + match_count_list(
            d,
            then_branch@,
        ),
        Expr::ForLoop { iterable, body, .. } => match_count(d, *iterable) + match_count_list(
            d,
            body@,
        ),
        Expr::Range { start, end, .. } => match_count(d, *start) + match_count(d, *end),
        Expr::Literal { .. } => 0nat,
        Expr::Path { .. } => 0nat,
    }
}

/// How many nodes of a sibling sequence the analysis `d` accepts.
pub open spec fn match_count_list<D: NodeDetector>(d: D, es: Seq<Expr>) -> nat
    decreases es,
{
    if es.len() == 0 {
        0nat
    } else {
        match_count(d, es[0]) + match_count_list(d, es.drop_first())
    }
}

/// The walk emits exactly one diagnostic per accepted node: no occurrence is
/// missed and none is reported twice.
pub proof fn lemma_one_diag_per_match<D: NodeDetector>(d: D, e: Expr)
    ensures
        found_diags(d, e).len() == match_count(d, e),
    decreases e,
{
    match e {
        Expr::MethodCall { receiver, args, .. } => {
            lemma_one_diag_per_match(d, *receiver);
            lemma_one_diag_per_match_list(d, args@);
        },
        Expr::Call { callee, args, .. } => {
            lemma_one_diag_per_match(d, *callee);
            lemma_one_diag_per_match_list(d, args@);
        },
        Expr::FieldAccess { base, .. } => {
            lemma_one_diag_per_match(d, *base);
        },
        Expr::Assign { lhs, rhs, .. } => {
            lemma_one_diag_per_match(d, *lhs);
            lemma_one_diag_per_match(d, *rhs);
        },
        Expr::Binary { left, right, .. } => {
            lemma_one_diag_per_match(d, *left);
            lemma_one_diag_per_match(d, *right);
        },
        Expr::If { cond, then_branch, .. } => {
            lemma_one_diag_per_match(d, *cond);
            lemma_one_diag_per_match_list(d, then_branch@);
        },
        Expr::ForLoop { iterable, body, .. } => {
            lemma_one_diag_per_match(d, *iterable);
            lemma_one_diag_per_match_list(d, body@);
        },
        Expr::Range { start, end, .. } => {
            lemma_one_diag_per_match(d, *start);
            lemma_one_diag_per_match(d, *end);
        },
        Expr::Literal { .. } => {},
        Expr::Path { .. } => {},
    }
}

/// List form of [`lemma_one_diag_per_match`].
pub proof fn lemma_one_diag_per_match_list<D: NodeDetector>(d: D, es: Seq<Expr>)
    ensures
        found_diags_list(d, es).len() == match_count_list(d, es),
    decreases es,
{
    if es.len() > 0 {
        lemma_one_diag_per_match(d, es[0]);
        lemma_one_diag_per_match_list(d, es.drop_first());
    }
}

/// Every diagnostic the walk emits carries the identity of the analysis that
/// produced it.
pub proof fn lemma_diags_kind<D: NodeDetector>(d: D, e: Expr)
    ensures
        forall|k: int|
            0 <= k < found_diags(d, e).len() ==> (#[trigger] found_diags(d, e)[k]).detector
                == d.spec_kind(),
    decreases e,
{
    match e {
        Expr::MethodCall { receiver, args, .. } => {
            lemma_diags_kind(d, *receiver);
            lemma_diags_kind_list(d, args@);
        },
        Expr::Call { callee, args, .. } => {
            lemma_diags_kind(d, *callee);
            lemma_diags_kind_list(d, args@);
        },
        Expr::FieldAccess { base, .. } => {
            lemma_diags_kind(d, *base);
        },
        Expr::Assign { lhs, rhs, .. } => {
            lemma_diags_kind(d, *lhs);
            lemma_diags_kind(d, *rhs);
        },
        Expr::Binary { left, right, .. } => {
            lemma_diags_kind(d, *left);
            lemma_diags_kind(d, *right);
        },
        Expr::If { cond, then_branch, .. } => {
            lemma_diags_kind(d, *cond);
            lemma_diags_kind_list(d, then_branch@);
        },
        Expr::ForLoop { iterable, body, .. } => {
            lemma_diags_kind(d, *iterable);
            lemma_diags_kind_list(d, body@);
        },
        Expr::Range { start, end, .. } => {
            lemma_diags_kind(d, *start);
            lemma_diags_kind(d, *end);
        },
        Expr::Literal { .. } => {},
        Expr::Path { .. } => {},
    }
}

/// List form of [`lemma_diags_kind`].
pub proof fn lemma_diags_kind_list<D: NodeDetector>(d: D, es: Seq<Expr>)
    ensures
        forall|k: int|
            0 <= k < found_diags_list(d, es).len() ==> (#[trigger] found_diags_list(d, es)[k]).detector
                == d.spec_kind(),
    decreases es,
{
    if es.len() > 0 {
        lemma_diags_kind(d, es[0]);
        lemma_diags_kind_list(d, es.drop_first());
    }
}


/// Does any node of the tree `e` satisfy `p`?
pub open spec fn any_node(p: spec_fn(Expr) -> bool, e: Expr) -> bool
    decreases e,
{
    p(e) || match e {
        Expr::MethodCall { receiver, args, .. } => any_node(p, *receiver) || any_node_list(
            p,
            args@,
        ),
        Expr::Call { callee, args, .. } => any_node(p, *callee) || any_node_list(p, args@),
        Expr::FieldAccess { base, .. } => any_node(p, *base),
        Expr::Assign { lhs, rhs, .. } => any_node(p, *lhs) || any_node(p, *rhs),
        Expr::Binary { left, right, .. } => any_node(p, *left) || any_node(p, *right),
        Expr::If { cond, then_branch, .. } => any_node(p, *cond) || any_node_list(p, then_branch@),
        Expr::ForLoop { iterable, body, .. } => any_node(p, *iterable) || any_node_list(p, body@),
        Expr::Range { start, end, .. } => any_node(p, *start) || any_node(p, *end),
        Expr::Literal { .. } => false,
        Expr::Path { .. } => false,
    }
}

/// Does any node of any tree of the sequence `es` satisfy `p`?
pub open spec fn any_node_list(p: spec_fn(Expr) -> bool, es: Seq<Expr>) -> bool
    decreases es,
{
    if es.len() == 0 {
        false
    } else {
        any_node(p, es[0]) || any_node_list(p, es.drop_first())
    }
}


} // verus!
