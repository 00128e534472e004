//! The unauthorized-growth detector ("unexpected revert"): a push onto an
//! unbounded vector is flagged when it is reached outside any conditional and
//! before any caller-identity check against a stored owner field has been
//! seen, because any caller could then grow the container without bound.

use vstd::prelude::*;
use crate::diagnostics::{DetectorKind, Diagnostic, Reporter};
use crate::engine::{any_node, any_node_list};
use crate::ir::{Expr, FunctionBody, Span};
use crate::names::{contains_name, name_contains, name_eq};

verus! {

/// The state the detector accumulates while walking one function body;
/// created fresh per function.
pub struct UnexpectedRevert {
    /// Where the unprotected push was seen: the diagnostic anchor.
    pub span: Option<Span>,
    /// A push was reached outside a conditional and without owner validation.
    pub unprotected: bool,
    /// The walk is currently inside an `If` node.
    pub in_conditional: bool,
    /// A caller-identity comparison against a stored owner field was seen
    /// inside a conditional.
    pub has_owner_validation: bool,
    /// Some push onto a vector was seen.
    pub has_vec_push: bool,
}

/// The state every traversal starts from.
pub open spec fn ur_initial_state() -> UnexpectedRevert {
    UnexpectedRevert {
        span: None,
        unprotected: false,
        in_conditional: false,
        has_owner_validation: false,
        has_vec_push: false,
    }
}

/// The node compares the caller's identity against a stored owner field: a
/// binary comparison of a method call named something containing `caller`
/// against a field access whose field name contains `owner`.
pub open spec fn is_owner_validation(e: Expr) -> bool {
    e matches Expr::Binary { left, right, .. } && (*right matches Expr::FieldAccess {
        field,
        ..
    } && contains_name(field@, "owner"@)) && (*left matches Expr::MethodCall { method, .. }
        && contains_name(method@, "caller"@))
}

/// The node pushes onto a vector.
pub open spec fn is_vec_push(e: Expr) -> bool {
    e matches Expr::MethodCall { method, .. } && method@ == "push"@
}

/// Does the node compare the caller's identity against a stored owner field?
pub fn check_owner_validation(e: &Expr) -> (r: bool)
    ensures
        r == is_owner_validation(*e),
{
    match e {
        Expr::Binary { left, right, .. } => {
            let right_is_owner_field = match &**right {
                Expr::FieldAccess { field, .. } => name_contains(field.as_str(), "owner"),
                _ => false,
            };
            let left_is_caller = match &**left {
                Expr::MethodCall { method, .. } => name_contains(method.as_str(), "caller"),
                _ => false,
            };
            right_is_owner_field && left_is_caller
        },
        _ => false,
    }
}

/// Does the node push onto a vector?
pub fn check_vec_push(e: &Expr) -> (r: bool)
    ensures
        r == is_vec_push(*e),
{
    match e {
        Expr::MethodCall { method, .. } => name_eq(method.as_str(), "push"),
        _ => false,
    }
}

/// The state transition one non-conditional node causes: owner validation is
/// recorded while inside a conditional; a push is recorded always, and marks
/// the function unprotected when reached outside a conditional and before any
/// owner validation.
pub open spec fn ur_enter(st: UnexpectedRevert, e: Expr) -> UnexpectedRevert {
    let st1 = if st.in_conditional && is_owner_validation(e) {
        UnexpectedRevert {
            span: st.span,
            unprotected: st.unprotected,
            in_conditional: st.in_conditional,
            has_owner_validation: true,
            has_vec_push: st.has_vec_push,
        }
    } else {
        st
    };
    if is_vec_push(e) {
        if !st1.in_conditional && !st1.has_owner_validation {
            UnexpectedRevert {
                span: Some(e.spec_span()),
                unprotected: true,
                in_conditional: st1.in_conditional,
                has_owner_validation: st1.has_owner_validation,
                has_vec_push: true,
            }
        } else {
            UnexpectedRevert {
                span: st1.span,
                unprotected: st1.unprotected,
                in_conditional: st1.in_conditional,
                has_owner_validation: st1.has_owner_validation,
                has_vec_push: true,
            }
        }
    } else {
        st1
    }
}

/// Depth-first, source-order traversal: an `If` node raises the
/// in-conditional flag around its condition and branch and restores it
/// afterwards; every other node steps the state and descends.
pub open spec fn ur_visit_s(st: UnexpectedRevert, e: Expr) -> UnexpectedRevert
    decreases e,
{
    match e {
        Expr::If { cond, then_branch, .. } => {
            let entered = UnexpectedRevert {
                span: st.span,
                unprotected: st.unprotected,
                in_conditional: true,
                has_owner_validation: st.has_owner_validation,
                has_vec_push: st.has_vec_push,
            };
            let walked = ur_visit_list_s(ur_visit_s(entered, *cond), then_branch@);
            UnexpectedRevert {
                span: walked.span,
                unprotected: walked.unprotected,
                in_conditional: st.in_conditional,
                has_owner_validation: walked.has_owner_validation,
                has_vec_push: walked.has_vec_push,
            }
        },
        _ => {
            let st1 = ur_enter(st, e);
            match e {
                Expr::MethodCall { receiver, args, .. } => ur_visit_list_s(
                    ur_visit_s(st1, *receiver),
                    args@,
                ),
                Expr::Call { callee, args, .. } => ur_visit_list_s(ur_visit_s(st1, *callee), args@),
                Expr::FieldAccess { base, .. } => ur_visit_s(st1, *base),
                Expr::Assign { lhs, rhs, .. } => ur_visit_s(ur_visit_s(st1, *lhs), *rhs),
                Expr::Binary { left, right, .. } => ur_visit_s(ur_visit_s(st1, *left), *right),
                Expr::ForLoop { iterable, body, .. } => ur_visit_list_s(
                    ur_visit_s(st1, *iterable),
                    body@,
                ),
                Expr::Range { start, end, .. } => ur_visit_s(ur_visit_s(st1, *start), *end),
                _ => st1,
            }
        },
    }
}

/// Traversal of a sequence of sibling nodes in written order.
pub open spec fn ur_visit_list_s(st: UnexpectedRevert, es: Seq<Expr>) -> UnexpectedRevert
    decreases es,
{
    if es.len() == 0 {
        st
    } else {
        ur_visit_list_s(ur_visit_s(st, es[0]), es.drop_first())
    }
}

/// The diagnostics this detector emits for one function body: one finding,
/// anchored at the unprotected push, exactly when a push was reached without
/// protection.
pub open spec fn unexpected_revert_diags(stmts: Seq<Expr>) -> Seq<Diagnostic> {
    let fin = ur_visit_list_s(ur_initial_state(), stmts);
    if fin.has_vec_push && fin.unprotected {
        match fin.span {
            Some(sp) => seq![Diagnostic { detector: DetectorKind::UnexpectedRevertWarn, span: sp }],
            None => Seq::<Diagnostic>::empty(),
        }
    } else {
        Seq::<Diagnostic>::empty()
    }
}

fn ur_visit(st: &mut UnexpectedRevert, e: &Expr)
    ensures
        *final(st) == ur_visit_s(*old(st), *e),
    decreases *e,
{
    match e {
        Expr::If { cond, then_branch, .. } => {
            let was_in_conditional = st.in_conditional;
            st.in_conditional = true;
            ur_visit(st, cond);
            ur_visit_list(st, then_branch);
            st.in_conditional = was_in_conditional;
        },
        _ => {
            if st.in_conditional && check_owner_validation(e) {
                st.has_owner_validation = true;
            }
            if check_vec_push(e) {
                st.has_vec_push = true;
                if !st.in_conditional && !st.has_owner_validation {
                    st.unprotected = true;
                    st.span = Some(e.span());
                }
            }
            proof {
                assert(*st == ur_enter(*old(st), *e));
            }
            match e {
                Expr::MethodCall { receiver, args, .. } => {
                    ur_visit(st, receiver);
                    ur_visit_list(st, args);
                },
                Expr::Call { callee, args, .. } => {
                    ur_visit(st, callee);
                    ur_visit_list(st, args);
                },
                Expr::FieldAccess { base, .. } => {
                    ur_visit(st, base);
                },
                Expr::Assign { lhs, rhs, .. } => {
                    ur_visit(st, lhs);
                    ur_visit(st, rhs);
                },
                Expr::Binary { left, right, .. } => {
                    ur_visit(st, left);
                    ur_visit(st, right);
                },
                Expr::ForLoop { iterable, body, .. } => {
                    ur_visit(st, iterable);
                    ur_visit_list(st, body);
                },
                Expr::Range { start, end, .. } => {
                    ur_visit(st, start);
                    ur_visit(st, end);
                },
                _ => {},
            }
        },
    }
}

fn ur_visit_list(st: &mut UnexpectedRevert, es: &Vec<Expr>)
    ensures
        *final(st) == ur_visit_list_s(*old(st), es@),
    decreases es@,
{
    let ghost st0 = *st;
    proof {
        assert(es@.skip(0) =~= es@);
    }
    let mut i: usize = 0;
    while i < es.len()
        invariant
            0 <= i <= es@.len(),
            ur_visit_list_s(st0, es@) == ur_visit_list_s(*st, es@.skip(i as int)),
        decreases es@.len() - i,
    {
        let ghost pre = *st;
        proof {
            assert(decreases_to!(es@ => es@[i as int]));
        }
        ur_visit(st, &es[i]);
        proof {
            assert(es@.skip(i as int).drop_first() =~= es@.skip(i as int + 1));
            assert(es@.skip(i as int)[0] == es@[i as int]);
            assert(ur_visit_list_s(pre, es@.skip(i as int)) == ur_visit_list_s(
                ur_visit_s(pre, es@[i as int]),
                es@.skip(i as int + 1),
            ));
        }
        i = i + 1;
    }
    proof {
        assert(es@.skip(es@.len() as int) =~= Seq::<Expr>::empty());
    }
}

/// The unauthorized-growth analysis.
pub struct UnexpectedRevertWarn;

impl UnexpectedRevertWarn {
    /// Analyse one function body with fresh state, reporting one diagnostic,
    /// anchored at the unprotected push, exactly when a push was reached
    /// outside any conditional and without a prior owner validation.
    pub fn check_fn(&self, body: &FunctionBody, reporter: &mut Reporter)
        ensures
            final(reporter)@ == old(reporter)@ + unexpected_revert_diags(body@),
    {
        let mut state = UnexpectedRevert {
            span: None,
            unprotected: false,
            in_conditional: false,
            has_owner_validation: false,
            has_vec_push: false,
        };
        ur_visit_list(&mut state, &body.stmts);
        if state.has_vec_push && state.unprotected {
            match state.span {
                Some(sp) => {
                    reporter.report(
                        Diagnostic { detector: DetectorKind::UnexpectedRevertWarn, span: sp },
                    );
                },
                None => {},
            }
        }
        proof {
            assert(reporter@ =~= old(reporter)@ + unexpected_revert_diags(body@));
        }
    }
}

/// The node classifier used to ask whether a tree contains a vector push.
pub open spec fn push_pred() -> spec_fn(Expr) -> bool {
    |x: Expr| is_vec_push(x)
}

proof fn lemma_no_push_expr(st: UnexpectedRevert, e: Expr)
    requires
        !st.has_vec_push,
        !any_node(push_pred(), e),
    ensures
        !ur_visit_s(st, e).has_vec_push,
    decreases e,
{
    assert(!is_vec_push(e));
    match e {
        Expr::If { cond, then_branch, .. } => {
            let entered = UnexpectedRevert {
                span: st.span,
                unprotected: st.unprotected,
                in_conditional: true,
                has_owner_validation: st.has_owner_validation,
                has_vec_push: st.has_vec_push,
            };
            lemma_no_push_expr(entered, *cond);
            lemma_no_push_list(ur_visit_s(entered, *cond), then_branch@);
        },
        Expr::MethodCall { receiver, args, .. } => {
            lemma_no_push_expr(ur_enter(st, e), *receiver);
            lemma_no_push_list(ur_visit_s(ur_enter(st, e), *receiver), args@);
        },
        Expr::Call { callee, args, .. } => {
            lemma_no_push_expr(ur_enter(st, e), *callee);
            lemma_no_push_list(ur_visit_s(ur_enter(st, e), *callee), args@);
        },
        Expr::FieldAccess { base, .. } => {
            lemma_no_push_expr(ur_enter(st, e), *base);
        },
        Expr::Assign { lhs, rhs, .. } => {
            lemma_no_push_expr(ur_enter(st, e), *lhs);
            lemma_no_push_expr(ur_visit_s(ur_enter(st, e), *lhs), *rhs);
        },
        Expr::Binary { left, right, .. } => {
            lemma_no_push_expr(ur_enter(st, e), *left);
            lemma_no_push_expr(ur_visit_s(ur_enter(st, e), *left), *right);
        },
        Expr::ForLoop { iterable, body, .. } => {
            lemma_no_push_expr(ur_enter(st, e), *iterable);
            lemma_no_push_list(ur_visit_s(ur_enter(st, e), *iterable), body@);
        },
        Expr::Range { start, end, .. } => {
            lemma_no_push_expr(ur_enter(st, e), *start);
            lemma_no_push_expr(ur_visit_s(ur_enter(st, e), *start), *end);
        },
        _ => {},
    }
}

proof fn lemma_no_push_list(st: UnexpectedRevert, es: Seq<Expr>)
    requires
        !st.has_vec_push,
        !any_node_list(push_pred(), es),
    ensures
        !ur_visit_list_s(st, es).has_vec_push,
    decreases es,
{
    if es.len() > 0 {
        lemma_no_push_expr(st, es[0]);
        lemma_no_push_list(ur_visit_s(st, es[0]), es.drop_first());
    }
}

/// Where a function body contains no push onto a vector, the
/// unauthorized-growth detector never emits a diagnostic.
pub proof fn lemma_no_push_no_diagnostic(stmts: Seq<Expr>)
    requires
        !any_node_list(push_pred(), stmts),
    ensures
        unexpected_revert_diags(stmts) == Seq::<Diagnostic>::empty(),
{
    lemma_no_push_list(ur_initial_state(), stmts);
}

} // verus!
