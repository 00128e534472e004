//! The reentrancy detector: a stateful depth-first analysis of one function
//! body. It fires only when three pieces of evidence appear in order: the
//! reentrancy-allow flag is enabled with a literal `true`, an external call is
//! made while the flag is on, and a statement then mutates the contract's own
//! state. The diagnostic is anchored at the external call. Once the call has
//! been seen, statements are only inspected shallowly for the mutation, not
//! recursed into, so a single qualifying mutation decides the outcome.

use vstd::prelude::*;
use crate::diagnostics::{DetectorKind, Diagnostic, Reporter};
use crate::engine::{any_node, any_node_list};
use crate::ir::{is_receiver_field, receiver_field_check, Expr, FunctionBody, Lit, Span};
use crate::names::{contains_name, name_contains, name_eq};

verus! {

/// The state the detector accumulates while walking one function body. It is
/// created fresh per function and never shared across functions, so a signal
/// found in one function cannot leak into another.
pub struct ReentrantStorage {
    /// Where the external call was seen: the diagnostic anchor.
    pub span: Option<Span>,
    /// An external call was seen while the reentrancy flag was on.
    pub has_invoke_contract_call: bool,
    /// The reentrancy-allow flag was enabled with a literal `true`.
    pub allow_reentrancy_flag: bool,
    /// A statement mutated the contract's own state after the call.
    pub state_change: bool,
}

/// The state every traversal starts from.
pub open spec fn initial_state() -> ReentrantStorage {
    ReentrantStorage {
        span: None,
        has_invoke_contract_call: false,
        allow_reentrancy_flag: false,
        state_change: false,
    }
}

/// The node is an external cross-contract call.
pub open spec fn is_invoke_contract(e: Expr) -> bool {
    e matches Expr::MethodCall { method, .. } && method@ == "invoke_contract"@
}

/// The node enables the reentrancy-allow call option with a literal `true`
/// first argument.
pub open spec fn is_allow_reentrancy(e: Expr) -> bool {
    e matches Expr::MethodCall { method, args, .. } && contains_name(
        method@,
        "set_allow_reentry"@,
    ) && args@.len() > 0 && args@[0] matches Expr::Literal { value: Lit::Bool(true), .. }
}

/// The statement mutates the contract's own state: either an assignment whose
/// left side is a field access rooted at the receiver, or an `insert` call on
/// such a field.
pub open spec fn is_state_change(s: Expr) -> bool {
    ||| s matches Expr::Assign { lhs, .. } && is_receiver_field(*lhs)
    ||| s matches Expr::MethodCall { receiver, method, .. } && method@ == "insert"@
        && is_receiver_field(*receiver)
}

/// If the node is an external call, its location; `None` otherwise.
pub fn check_invoke_contract_call(expr: &Expr) -> (r: Option<Span>)
    ensures
        r == if is_invoke_contract(*expr) {
            Some(expr.spec_span())
        } else {
            None::<Span>
        },
{
    match expr {
        Expr::MethodCall { method, span, .. } => {
            if name_eq(method.as_str(), "invoke_contract") {
                Some(*span)
            } else {
                None
            }
        },
        _ => None,
    }
}

/// Does the node enable the reentrancy-allow flag with a literal `true`?
pub fn check_allow_reentrancy(expr: &Expr) -> (r: bool)
    ensures
        r == is_allow_reentrancy(*expr),
{
    match expr {
        Expr::MethodCall { method, args, .. } => {
            if name_contains(method.as_str(), "set_allow_reentry") && args.len() > 0 {
                match &args[0] {
                    Expr::Literal { value: Lit::Bool(b), .. } => *b,
                    _ => false,
                }
            } else {
                false
            }
        },
        _ => false,
    }
}

/// Does the statement mutate the contract's own state?
pub fn check_state_change(s: &Expr) -> (r: bool)
    ensures
        r == is_state_change(*s),
{
    match s {
        Expr::Assign { lhs, .. } => receiver_field_check(lhs),
        Expr::MethodCall { receiver, method, .. } => name_eq(method.as_str(), "insert")
            && receiver_field_check(receiver),
        _ => false,
    }
}

/// The state transition one node causes when it is entered as an expression:
/// an external call is recorded only while the flag is already on, and the
/// flag is turned on by an enabling node.
pub open spec fn enter_expr(st: ReentrantStorage, e: Expr) -> ReentrantStorage {
    let st1 = if st.allow_reentrancy_flag && is_invoke_contract(e) {
        ReentrantStorage {
            span: Some(e.spec_span()),
            has_invoke_contract_call: true,
            allow_reentrancy_flag: st.allow_reentrancy_flag,
            state_change: st.state_change,
        }
    } else {
        st
    };
    if is_allow_reentrancy(e) {
        ReentrantStorage {
            span: st1.span,
            has_invoke_contract_call: st1.has_invoke_contract_call,
            allow_reentrancy_flag: true,
            state_change: st1.state_change,
        }
    } else {
        st1
    }
}

/// Depth-first, source-order traversal of one expression and its descendants.
pub open spec fn visit_expr_s(st: ReentrantStorage, e: Expr) -> ReentrantStorage
    decreases e, 0int,
{
    let st1 = enter_expr(st, e);
    match e {
        Expr::MethodCall { receiver, args, .. } => visit_exprs_s(visit_expr_s(st1, *receiver), args@),
        Expr::Call { callee, args, .. } => visit_exprs_s(visit_expr_s(st1, *callee), args@),
        Expr::FieldAccess { base, .. } => visit_expr_s(st1, *base),
        Expr::Assign { lhs, rhs, .. } => visit_expr_s(visit_expr_s(st1, *lhs), *rhs),
        Expr::Binary { left, right, .. } => visit_expr_s(visit_expr_s(st1, *left), *right),
        Expr::If { cond, then_branch, .. } => visit_stmts_s(visit_expr_s(st1, *cond), then_branch@),
        Expr::ForLoop { iterable, body, .. } => visit_stmts_s(visit_expr_s(st1, *iterable), body@),
        Expr::Range { start, end, .. } => visit_expr_s(visit_expr_s(st1, *start), *end),
        Expr::Literal { .. } => st1,
        Expr::Path { .. } => st1,
    }
}

/// Traversal of one statement. Once the flag and the call have both been
/// seen, a statement is only checked shallowly for a state mutation; before
/// that, it is walked like any expression.
pub open spec fn visit_stmt_s(st: ReentrantStorage, s: Expr) -> ReentrantStorage
    decreases s, 1int,
{
    if st.has_invoke_contract_call && st.allow_reentrancy_flag {
        if is_state_change(s) {
            ReentrantStorage {
                span: st.span,
                has_invoke_contract_call: st.has_invoke_contract_call,
                allow_reentrancy_flag: st.allow_reentrancy_flag,
                state_change: true,
            }
        } else {
            st
        }
    } else {
        visit_expr_s(st, s)
    }
}

/// Traversal of a sequence of statements in written order.
pub open spec fn visit_stmts_s(st: ReentrantStorage, ss: Seq<Expr>) -> ReentrantStorage
    decreases ss, 2int,
{
    if ss.len() == 0 {
        st
    } else {
        visit_stmts_s(visit_stmt_s(st, ss[0]), ss.drop_first())
    }
}

/// Traversal of a sequence of sub-expressions in written order.
pub open spec fn visit_exprs_s(st: ReentrantStorage, es: Seq<Expr>) -> ReentrantStorage
    decreases es, 0int,
{
    if es.len() == 0 {
        st
    } else {
        visit_exprs_s(visit_expr_s(st, es[0]), es.drop_first())
    }
}

/// The diagnostics the reentrancy detector emits for one function body: one
/// finding, anchored at the recorded external call, exactly when the flag,
/// the call and a subsequent state mutation were all seen.
pub open spec fn reentrancy_diags(stmts: Seq<Expr>) -> Seq<Diagnostic> {
    let fin = visit_stmts_s(initial_state(), stmts);
    if fin.has_invoke_contract_call && fin.allow_reentrancy_flag && fin.state_change {
        match fin.span {
            Some(sp) => seq![Diagnostic { detector: DetectorKind::Reentrancy, span: sp }],
            None => Seq::<Diagnostic>::empty(),
        }
    } else {
        Seq::<Diagnostic>::empty()
    }
}

fn visit_expr(st: &mut ReentrantStorage, e: &Expr)
    ensures
        *final(st) == visit_expr_s(*old(st), *e),
    decreases *e, 0int,
{
    if st.allow_reentrancy_flag {
        let invoke_contract_span = check_invoke_contract_call(e);
        if let Some(sp) = invoke_contract_span {
            st.has_invoke_contract_call = true;
            st.span = Some(sp);
        }
    }
    if check_allow_reentrancy(e) {
        st.allow_reentrancy_flag = true;
    }
    proof {
        assert(*st == enter_expr(*old(st), *e));
    }
    match e {
        Expr::MethodCall { receiver, args, .. } => {
            visit_expr(st, receiver);
            visit_exprs(st, args);
        },
        Expr::Call { callee, args, .. } => {
            visit_expr(st, callee);
            visit_exprs(st, args);
        },
        Expr::FieldAccess { base, .. } => {
            visit_expr(st, base);
        },
        Expr::Assign { lhs, rhs, .. } => {
            visit_expr(st, lhs);
            visit_expr(st, rhs);
        },
        Expr::Binary { left, right, .. } => {
            visit_expr(st, left);
            visit_expr(st, right);
        },
        Expr::If { cond, then_branch, .. } => {
            visit_expr(st, cond);
            visit_stmts(st, then_branch);
        },
        Expr::ForLoop { iterable, body, .. } => {
            visit_expr(st, iterable);
            visit_stmts(st, body);
        },
        Expr::Range { start, end, .. } => {
            visit_expr(st, start);
            visit_expr(st, end);
        },
        Expr::Literal { .. } => {},
        Expr::Path { .. } => {},
    }
}

fn visit_stmt(st: &mut ReentrantStorage, s: &Expr)
    ensures
        *final(st) == visit_stmt_s(*old(st), *s),
    decreases *s, 1int,
{
    if st.has_invoke_contract_call && st.allow_reentrancy_flag {
        if check_state_change(s) {
            st.state_change = true;
        }
    } else {
        visit_expr(st, s);
    }
}

fn visit_stmts(st: &mut ReentrantStorage, ss: &Vec<Expr>)
    ensures
        *final(st) == visit_stmts_s(*old(st), ss@),
    decreases ss@, 2int,
{
    let ghost st0 = *st;
    proof {
        assert(ss@.skip(0) =~= ss@);
    }
    let mut i: usize = 0;
    while i < ss.len()
        invariant
            0 <= i <= ss@.len(),
            visit_stmts_s(st0, ss@) == visit_stmts_s(*st, ss@.skip(i as int)),
        decreases ss@.len() - i,
    {
        let ghost pre = *st;
        proof {
            assert(decreases_to!(ss@ => ss@[i as int]));
        }
        visit_stmt(st, &ss[i]);
        proof {
            assert(ss@.skip(i as int).drop_first() =~= ss@.skip(i as int + 1));
            assert(ss@.skip(i as int)[0] == ss@[i as int]);
            assert(visit_stmts_s(pre, ss@.skip(i as int)) == visit_stmts_s(
                visit_stmt_s(pre, ss@[i as int]),
                ss@.skip(i as int + 1),
            ));
        }
        i = i + 1;
    }
    proof {
        assert(ss@.skip(ss@.len() as int) =~= Seq::<Expr>::empty());
    }
}

fn visit_exprs(st: &mut ReentrantStorage, es: &Vec<Expr>)
    ensures
        *final(st) == visit_exprs_s(*old(st), es@),
    decreases es@, 0int,
{
    let ghost st0 = *st;
    proof {
        assert(es@.skip(0) =~= es@);
    }
    let mut i: usize = 0;
    while i < es.len()
        invariant
            0 <= i <= es@.len(),
            visit_exprs_s(st0, es@) == visit_exprs_s(*st, es@.skip(i as int)),
        decreases es@.len() - i,
    {
        let ghost pre = *st;
        proof {
            assert(decreases_to!(es@ => es@[i as int]));
        }
        visit_expr(st, &es[i]);
        proof {
            assert(es@.skip(i as int).drop_first() =~= es@.skip(i as int + 1));
            assert(es@.skip(i as int)[0] == es@[i as int]);
            assert(visit_exprs_s(pre, es@.skip(i as int)) == visit_exprs_s(
                visit_expr_s(pre, es@[i as int]),
                es@.skip(i as int + 1),
            ));
        }
        i = i + 1;
    }
    proof {
        assert(es@.skip(es@.len() as int) =~= Seq::<Expr>::empty());
    }
}

/// The reentrancy analysis.
pub struct Reentrancy;

impl Reentrancy {
    /// Analyse one function body with fresh state, reporting one diagnostic,
    /// anchored at the recorded external call, exactly when the flag, the
    /// call and a subsequent state mutation were all found.
    pub fn check_fn(&self, body: &FunctionBody, reporter: &mut Reporter)
        ensures
            final(reporter)@ == old(reporter)@ + reentrancy_diags(body@),
    {
        let mut reentrant_storage = ReentrantStorage {
            span: None,
            has_invoke_contract_call: false,
            allow_reentrancy_flag: false,
            state_change: false,
        };
        visit_stmts(&mut reentrant_storage, &body.stmts);
        if reentrant_storage.has_invoke_contract_call && reentrant_storage.allow_reentrancy_flag
            && reentrant_storage.state_change {
            match reentrant_storage.span {
                Some(sp) => {
                    reporter.report(Diagnostic { detector: DetectorKind::Reentrancy, span: sp });
                },
                None => {},
            }
        }
        proof {
            assert(reporter@ =~= old(reporter)@ + reentrancy_diags(body@));
        }
    }
}


/// The node classifier used to ask whether a tree contains an external call.
pub open spec fn invoke_pred() -> spec_fn(Expr) -> bool {
    |x: Expr| is_invoke_contract(x)
}

/// The node classifier used to ask whether a tree enables the reentrancy
/// flag anywhere.
pub open spec fn allow_pred() -> spec_fn(Expr) -> bool {
    |x: Expr| is_allow_reentrancy(x)
}

proof fn lemma_no_invoke_expr(st: ReentrantStorage, e: Expr)
    requires
        !st.has_invoke_contract_call,
        !any_node(invoke_pred(), e),
    ensures
        !visit_expr_s(st, e).has_invoke_contract_call,
    decreases e, 0int,
{
    assert(!is_invoke_contract(e));
    match e {
        Expr::MethodCall { receiver, args, .. } => {
            lemma_no_invoke_expr(enter_expr(st, e), *receiver);
            lemma_no_invoke_exprs(visit_expr_s(enter_expr(st, e), *receiver), args@);
        },
        Expr::Call { callee, args, .. } => {
            lemma_no_invoke_expr(enter_expr(st, e), *callee);
            lemma_no_invoke_exprs(visit_expr_s(enter_expr(st, e), *callee), args@);
        },
        Expr::FieldAccess { base, .. } => {
            lemma_no_invoke_expr(enter_expr(st, e), *base);
        },
        Expr::Assign { lhs, rhs, .. } => {
            lemma_no_invoke_expr(enter_expr(st, e), *lhs);
            lemma_no_invoke_expr(visit_expr_s(enter_expr(st, e), *lhs), *rhs);
        },
        Expr::Binary { left, right, .. } => {
            lemma_no_invoke_expr(enter_expr(st, e), *left);
            lemma_no_invoke_expr(visit_expr_s(enter_expr(st, e), *left), *right);
        },
        Expr::If { cond, then_branch, .. } => {
            lemma_no_invoke_expr(enter_expr(st, e), *cond);
            lemma_no_invoke_stmts(visit_expr_s(enter_expr(st, e), *cond), then_branch@);
        },
        Expr::ForLoop { iterable, body, .. } => {
            lemma_no_invoke_expr(enter_expr(st, e), *iterable);
            lemma_no_invoke_stmts(visit_expr_s(enter_expr(st, e), *iterable), body@);
        },
        Expr::Range { start, end, .. } => {
            lemma_no_invoke_expr(enter_expr(st, e), *start);
            lemma_no_invoke_expr(visit_expr_s(enter_expr(st, e), *start), *end);
        },
        Expr::Literal { .. } => {},
        Expr::Path { .. } => {},
    }
}

proof fn lemma_no_invoke_stmt(st: ReentrantStorage, s: Expr)
    requires
        !st.has_invoke_contract_call,
        !any_node(invoke_pred(), s),
    ensures
        !visit_stmt_s(st, s).has_invoke_contract_call,
    decreases s, 1int,
{
    if !(st.has_invoke_contract_call && st.allow_reentrancy_flag) {
        lemma_no_invoke_expr(st, s);
    }
}

proof fn lemma_no_invoke_stmts(st: ReentrantStorage, ss: Seq<Expr>)
    requires
        !st.has_invoke_contract_call,
        !any_node_list(invoke_pred(), ss),
    ensures
        !visit_stmts_s(st, ss).has_invoke_contract_call,
    decreases ss, 2int,
{
    if ss.len() > 0 {
        lemma_no_invoke_stmt(st, ss[0]);
        lemma_no_invoke_stmts(visit_stmt_s(st, ss[0]), ss.drop_first());
    }
}

proof fn lemma_no_invoke_exprs(st: ReentrantStorage, es: Seq<Expr>)
    requires
        !st.has_invoke_contract_call,
        !any_node_list(invoke_pred(), es),
    ensures
        !visit_exprs_s(st, es).has_invoke_contract_call,
    decreases es, 0int,
{
    if es.len() > 0 {
        lemma_no_invoke_expr(st, es[0]);
        lemma_no_invoke_exprs(visit_expr_s(st, es[0]), es.drop_first());
    }
}

/// Where a function body contains no external call, the reentrancy detector
/// never emits a diagnostic.
pub proof fn lemma_no_external_call_no_diagnostic(stmts: Seq<Expr>)
    requires
        !any_node_list(invoke_pred(), stmts),
    ensures
        reentrancy_diags(stmts) == Seq::<Diagnostic>::empty(),
{
    lemma_no_invoke_stmts(initial_state(), stmts);
}


proof fn lemma_no_allow_expr(st: ReentrantStorage, e: Expr)
    requires
        !st.allow_reentrancy_flag,
        !any_node(allow_pred(), e),
    ensures
        !visit_expr_s(st, e).allow_reentrancy_flag,
    decreases e, 0int,
{
    assert(!is_allow_reentrancy(e));
    match e {
        Expr::MethodCall { receiver, args, .. } => {
            lemma_no_allow_expr(enter_expr(st, e), *receiver);
            lemma_no_allow_exprs(visit_expr_s(enter_expr(st, e), *receiver), args@);
        },
        Expr::Call { callee, args, .. } => {
            lemma_no_allow_expr(enter_expr(st, e), *callee);
            lemma_no_allow_exprs(visit_expr_s(enter_expr(st, e), *callee), args@);
        },
        Expr::FieldAccess { base, .. } => {
            lemma_no_allow_expr(enter_expr(st, e), *base);
        },
        Expr::Assign { lhs, rhs, .. } => {
            lemma_no_allow_expr(enter_expr(st, e), *lhs);
            lemma_no_allow_expr(visit_expr_s(enter_expr(st, e), *lhs), *rhs);
        },
        Expr::Binary { left, right, .. } => {
            lemma_no_allow_expr(enter_expr(st, e), *left);
            lemma_no_allow_expr(visit_expr_s(enter_expr(st, e), *left), *right);
        },
        Expr::If { cond, then_branch, .. } => {
            lemma_no_allow_expr(enter_expr(st, e), *cond);
            lemma_no_allow_stmts(visit_expr_s(enter_expr(st, e), *cond), then_branch@);
        },
        Expr::ForLoop { iterable, body, .. } => {
            lemma_no_allow_expr(enter_expr(st, e), *iterable);
            lemma_no_allow_stmts(visit_expr_s(enter_expr(st, e), *iterable), body@);
        },
        Expr::Range { start, end, .. } => {
            lemma_no_allow_expr(enter_expr(st, e), *start);
            lemma_no_allow_expr(visit_expr_s(enter_expr(st, e), *start), *end);
        },
        Expr::Literal { .. } => {},
        Expr::Path { .. } => {},
    }
}

proof fn lemma_no_allow_stmt(st: ReentrantStorage, s: Expr)
    requires
        !st.allow_reentrancy_flag,
        !any_node(allow_pred(), s),
    ensures
        !visit_stmt_s(st, s).allow_reentrancy_flag,
    decreases s, 1int,
{
    if !(st.has_invoke_contract_call && st.allow_reentrancy_flag) {
        lemma_no_allow_expr(st, s);
    }
}

proof fn lemma_no_allow_stmts(st: ReentrantStorage, ss: Seq<Expr>)
    requires
        !st.allow_reentrancy_flag,
        !any_node_list(allow_pred(), ss),
    ensures
        !visit_stmts_s(st, ss).allow_reentrancy_flag,
    decreases ss, 2int,
{
    if ss.len() > 0 {
        lemma_no_allow_stmt(st, ss[0]);
        lemma_no_allow_stmts(visit_stmt_s(st, ss[0]), ss.drop_first());
    }
}

proof fn lemma_no_allow_exprs(st: ReentrantStorage, es: Seq<Expr>)
    requires
        !st.allow_reentrancy_flag,
        !any_node_list(allow_pred(), es),
    ensures
        !visit_exprs_s(st, es).allow_reentrancy_flag,
    decreases es, 0int,
{
    if es.len() > 0 {
        lemma_no_allow_expr(st, es[0]);
        lemma_no_allow_exprs(visit_expr_s(st, es[0]), es.drop_first());
    }
}

/// Where a function body never enables the reentrancy-allow flag with a
/// literal `true` — the remediated shape — the reentrancy detector emits no
/// diagnostic.
pub proof fn lemma_no_allow_flag_no_diagnostic(stmts: Seq<Expr>)
    requires
        !any_node_list(allow_pred(), stmts),
    ensures
        reentrancy_diags(stmts) == Seq::<Diagnostic>::empty(),
{
    lemma_no_allow_stmts(initial_state(), stmts);
}


/// Statement traversal distributes over concatenation: analysing `a ++ b`
/// is analysing `a`, then `b` from the state `a` produced.
pub proof fn lemma_visit_stmts_append(st: ReentrantStorage, a: Seq<Expr>, b: Seq<Expr>)
    ensures
        visit_stmts_s(st, a + b) == visit_stmts_s(visit_stmts_s(st, a), b),
    decreases a,
{
    if a.len() == 0 {
        assert(a + b =~= b);
    } else {
        assert((a + b).drop_first() =~= a.drop_first() + b);
        assert((a + b)[0] == a[0]);
        lemma_visit_stmts_append(visit_stmt_s(st, a[0]), a.drop_first(), b);
    }
}

proof fn lemma_gated_no_mutation_stationary(st: ReentrantStorage, ss: Seq<Expr>)
    requires
        st.has_invoke_contract_call,
        st.allow_reentrancy_flag,
        forall|k: int| 0 <= k < ss.len() ==> !is_state_change(#[trigger] ss[k]),
    ensures
        visit_stmts_s(st, ss) == st,
    decreases ss,
{
    if ss.len() > 0 {
        assert(!is_state_change(ss[0]));
        assert(visit_stmt_s(st, ss[0]) == st);
        assert(forall|k: int| 0 <= k < ss.drop_first().len() ==> !is_state_change(
            #[trigger] ss.drop_first()[k],
        ));
        lemma_gated_no_mutation_stationary(st, ss.drop_first());
    }
}

/// Where the reentrancy flag was set and an external call followed, but no
/// statement that mutates the contract's own state follows that call, no
/// diagnostic is emitted.
pub proof fn lemma_no_mutation_after_call_no_diagnostic(pre: Seq<Expr>, post: Seq<Expr>)
    requires
        visit_stmts_s(initial_state(), pre).has_invoke_contract_call,
        visit_stmts_s(initial_state(), pre).allow_reentrancy_flag,
        !visit_stmts_s(initial_state(), pre).state_change,
        forall|k: int| 0 <= k < post.len() ==> !is_state_change(#[trigger] post[k]),
    ensures
        reentrancy_diags(pre + post) == Seq::<Diagnostic>::empty(),
{
    lemma_visit_stmts_append(initial_state(), pre, post);
    lemma_gated_no_mutation_stationary(visit_stmts_s(initial_state(), pre), post);
}

proof fn lemma_anchored_expr(st: ReentrantStorage, e: Expr)
    requires
        st.has_invoke_contract_call ==> st.span is Some,
    ensures
        visit_expr_s(st, e).has_invoke_contract_call ==> visit_expr_s(st, e).span is Some,
    decreases e, 0int,
{
    match e {
        Expr::MethodCall { receiver, args, .. } => {
            lemma_anchored_expr(enter_expr(st, e), *receiver);
            lemma_anchored_exprs(visit_expr_s(enter_expr(st, e), *receiver), args@);
        },
        Expr::Call { callee, args, .. } => {
            lemma_anchored_expr(enter_expr(st, e), *callee);
            lemma_anchored_exprs(visit_expr_s(enter_expr(st, e), *callee), args@);
        },
        Expr::FieldAccess { base, .. } => {
            lemma_anchored_expr(enter_expr(st, e), *base);
        },
        Expr::Assign { lhs, rhs, .. } => {
            lemma_anchored_expr(enter_expr(st, e), *lhs);
            lemma_anchored_expr(visit_expr_s(enter_expr(st, e), *lhs), *rhs);
        },
        Expr::Binary { left, right, .. } => {
            lemma_anchored_expr(enter_expr(st, e), *left);
            lemma_anchored_expr(visit_expr_s(enter_expr(st, e), *left), *right);
        },
        Expr::If { cond, then_branch, .. } => {
            lemma_anchored_expr(enter_expr(st, e), *cond);
            lemma_anchored_stmts(visit_expr_s(enter_expr(st, e), *cond), then_branch@);
        },
        Expr::ForLoop { iterable, body, .. } => {
            lemma_anchored_expr(enter_expr(st, e), *iterable);
            lemma_anchored_stmts(visit_expr_s(enter_expr(st, e), *iterable), body@);
        },
        Expr::Range { start, end, .. } => {
            lemma_anchored_expr(enter_expr(st, e), *start);
            lemma_anchored_expr(visit_expr_s(enter_expr(st, e), *start), *end);
        },
        Expr::Literal { .. } => {},
        Expr::Path { .. } => {},
    }
}

proof fn lemma_anchored_stmt(st: ReentrantStorage, s: Expr)
    requires
        st.has_invoke_contract_call ==> st.span is Some,
    ensures
        visit_stmt_s(st, s).has_invoke_contract_call ==> visit_stmt_s(st, s).span is Some,
    decreases s, 1int,
{
    if !(st.has_invoke_contract_call && st.allow_reentrancy_flag) {
        lemma_anchored_expr(st, s);
    }
}

proof fn lemma_anchored_stmts(st: ReentrantStorage, ss: Seq<Expr>)
    requires
        st.has_invoke_contract_call ==> st.span is Some,
    ensures
        visit_stmts_s(st, ss).has_invoke_contract_call ==> visit_stmts_s(st, ss).span is Some,
    decreases ss, 2int,
{
    if ss.len() > 0 {
        lemma_anchored_stmt(st, ss[0]);
        lemma_anchored_stmts(visit_stmt_s(st, ss[0]), ss.drop_first());
    }
}

proof fn lemma_anchored_exprs(st: ReentrantStorage, es: Seq<Expr>)
    requires
        st.has_invoke_contract_call ==> st.span is Some,
    ensures
        visit_exprs_s(st, es).has_invoke_contract_call ==> visit_exprs_s(st, es).span is Some,
    decreases es, 0int,
{
    if es.len() > 0 {
        lemma_anchored_expr(st, es[0]);
        lemma_anchored_exprs(visit_expr_s(st, es[0]), es.drop_first());
    }
}

/// Internal consistency: whenever the traversal has recorded an external
/// call, it has also recorded the call's location, so the detector emits a
/// diagnostic exactly when it reaches its terminal state — a missing anchor
/// cannot occur.
pub proof fn lemma_diagnostic_exactly_at_terminal(stmts: Seq<Expr>)
    ensures
        visit_stmts_s(initial_state(), stmts).has_invoke_contract_call ==> visit_stmts_s(
            initial_state(),
            stmts,
        ).span is Some,
        reentrancy_diags(stmts).len() == (if visit_stmts_s(initial_state(), stmts).has_invoke_contract_call
            && visit_stmts_s(initial_state(), stmts).allow_reentrancy_flag && visit_stmts_s(
            initial_state(),
            stmts,
        ).state_change {
            1int
        } else {
            0int
        }),
{
    lemma_anchored_stmts(initial_state(), stmts);
}


} // verus!
