use contract_lints::analyze;
use contract_lints::diagnostics::{DetectorKind, Diagnostic, Reporter};
use contract_lints::dos_unbounded::DosUnboundedOperation;
use contract_lints::ir::{BinOp, Expr, FunctionBody, Lit, Span};
use contract_lints::names::{name_contains, name_eq};
use contract_lints::reentrancy::Reentrancy;
use contract_lints::set_storage::SetStorageWarn;
use contract_lints::unexpected_revert::UnexpectedRevertWarn;

fn sp(n: u64) -> Span {
    Span { lo: n, hi: n + 1 }
}

fn path(segments: &[&str], n: u64) -> Expr {
    Expr::Path { segments: segments.iter().map(|s| s.to_string()).collect(), span: sp(n) }
}

fn method_call(receiver: Expr, method: &str, args: Vec<Expr>, n: u64) -> Expr {
    Expr::MethodCall {
        receiver: Box::new(receiver),
        method: method.to_string(),
        args,
        span: sp(n),
    }
}

fn call(callee: Expr, args: Vec<Expr>, n: u64) -> Expr {
    Expr::Call { callee: Box::new(callee), args, span: sp(n) }
}

fn field_access(base: Expr, field: &str, n: u64) -> Expr {
    Expr::FieldAccess { base: Box::new(base), field: field.to_string(), span: sp(n) }
}

fn assign(lhs: Expr, rhs: Expr, n: u64) -> Expr {
    Expr::Assign { lhs: Box::new(lhs), rhs: Box::new(rhs), span: sp(n) }
}

fn bool_lit(b: bool, n: u64) -> Expr {
    Expr::Literal { value: Lit::Bool(b), span: sp(n) }
}

fn int_lit(v: u128, n: u64) -> Expr {
    Expr::Literal { value: Lit::Int(v), span: sp(n) }
}

fn for_loop(iterable: Expr, body: Vec<Expr>, n: u64) -> Expr {
    Expr::ForLoop {
        binding: "i".to_string(),
        iterable: Box::new(iterable),
        body,
        span: sp(n),
    }
}

fn range(start: Expr, end: Expr, n: u64) -> Expr {
    Expr::Range { start: Box::new(start), end: Box::new(end), span: sp(n) }
}

fn collect(reporter: &Reporter) -> Vec<Diagnostic> {
    let mut out = Vec::new();
    let mut i = 0;
    while i < reporter.len() {
        out.push(reporter.get(i));
        i += 1;
    }
    out
}

/// The canonical vulnerable reentrancy shape: flag enabled with a literal
/// `true`, then an external call, then a write to the contract's own field.
fn vulnerable_reentrancy_body() -> FunctionBody {
    let enable_flag = method_call(
        path(&["builder"], 1),
        "set_allow_reentry",
        vec![bool_lit(true, 2)],
        3,
    );
    let external_call = method_call(path(&["builder"], 4), "invoke_contract", vec![], 5);
    let self_write = assign(
        field_access(path(&["self"], 6), "balance", 7),
        int_lit(0, 8),
        9,
    );
    FunctionBody { stmts: vec![enable_flag, external_call, self_write] }
}

#[test]
fn reentrancy_vulnerable_fixture_flagged_once_at_call() {
    let body = vulnerable_reentrancy_body();
    let mut reporter = Reporter::new();
    let detector = Reentrancy;
    detector.check_fn(&body, &mut reporter);
    let diags = collect(&reporter);
    assert_eq!(diags.len(), 1);
    assert_eq!(diags[0].detector, DetectorKind::Reentrancy);
    assert_eq!(diags[0].span, sp(5));
}

#[test]
fn reentrancy_remediated_without_flag_not_flagged() {
    let external_call = method_call(path(&["builder"], 1), "invoke_contract", vec![], 2);
    let self_write = assign(
        field_access(path(&["self"], 3), "balance", 4),
        int_lit(0, 5),
        6,
    );
    let body = FunctionBody { stmts: vec![external_call, self_write] };
    let mut reporter = Reporter::new();
    let detector = Reentrancy;
    detector.check_fn(&body, &mut reporter);
    assert_eq!(reporter.len(), 0);
}

#[test]
fn reentrancy_flag_set_false_not_flagged() {
    let disable_flag = method_call(
        path(&["builder"], 1),
        "set_allow_reentry",
        vec![bool_lit(false, 2)],
        3,
    );
    let external_call = method_call(path(&["builder"], 4), "invoke_contract", vec![], 5);
    let self_write = assign(
        field_access(path(&["self"], 6), "balance", 7),
        int_lit(0, 8),
        9,
    );
    let body = FunctionBody { stmts: vec![disable_flag, external_call, self_write] };
    let mut reporter = Reporter::new();
    let detector = Reentrancy;
    detector.check_fn(&body, &mut reporter);
    assert_eq!(reporter.len(), 0);
}

#[test]
fn reentrancy_no_external_call_not_flagged() {
    let enable_flag = method_call(
        path(&["builder"], 1),
        "set_allow_reentry",
        vec![bool_lit(true, 2)],
        3,
    );
    let self_write = assign(
        field_access(path(&["self"], 4), "balance", 5),
        int_lit(0, 6),
        7,
    );
    let body = FunctionBody { stmts: vec![enable_flag, self_write] };
    let mut reporter = Reporter::new();
    let detector = Reentrancy;
    detector.check_fn(&body, &mut reporter);
    assert_eq!(reporter.len(), 0);
}

#[test]
fn reentrancy_no_mutation_after_call_not_flagged() {
    let enable_flag = method_call(
        path(&["builder"], 1),
        "set_allow_reentry",
        vec![bool_lit(true, 2)],
        3,
    );
    let external_call = method_call(path(&["builder"], 4), "invoke_contract", vec![], 5);
    let body = FunctionBody { stmts: vec![enable_flag, external_call] };
    let mut reporter = Reporter::new();
    let detector = Reentrancy;
    detector.check_fn(&body, &mut reporter);
    assert_eq!(reporter.len(), 0);
}

#[test]
fn reentrancy_mutation_before_call_not_flagged() {
    let self_write = assign(
        field_access(path(&["self"], 1), "balance", 2),
        int_lit(0, 3),
        4,
    );
    let enable_flag = method_call(
        path(&["builder"], 5),
        "set_allow_reentry",
        vec![bool_lit(true, 6)],
        7,
    );
    let external_call = method_call(path(&["builder"], 8), "invoke_contract", vec![], 9);
    let body = FunctionBody { stmts: vec![self_write, enable_flag, external_call] };
    let mut reporter = Reporter::new();
    let detector = Reentrancy;
    detector.check_fn(&body, &mut reporter);
    assert_eq!(reporter.len(), 0);
}

#[test]
fn reentrancy_insert_into_storage_field_flagged() {
    let enable_flag = method_call(
        path(&["builder"], 1),
        "set_allow_reentry",
        vec![bool_lit(true, 2)],
        3,
    );
    let external_call = method_call(path(&["builder"], 4), "invoke_contract", vec![], 5);
    let insert_into_map = method_call(
        field_access(path(&["self"], 6), "balances", 7),
        "insert",
        vec![int_lit(1, 8), int_lit(2, 9)],
        10,
    );
    let body = FunctionBody { stmts: vec![enable_flag, external_call, insert_into_map] };
    let mut reporter = Reporter::new();
    let detector = Reentrancy;
    detector.check_fn(&body, &mut reporter);
    let diags = collect(&reporter);
    assert_eq!(diags.len(), 1);
    assert_eq!(diags[0].span, sp(5));
}

#[test]
fn dos_constant_bound_not_flagged() {
    let loop_over_constant = for_loop(
        range(int_lit(0, 1), int_lit(10, 2), 3),
        vec![method_call(path(&["self"], 4), "transfer", vec![], 5)],
        6,
    );
    let body = FunctionBody { stmts: vec![loop_over_constant] };
    let detector = DosUnboundedOperation;
    assert!(!detector.check_expr(&body.stmts[0]));
    let mut reporter = Reporter::new();
    detector.check_body(&body, &mut reporter);
    assert_eq!(reporter.len(), 0);
}

#[test]
fn dos_storage_bound_flagged() {
    let storage_bound = field_access(path(&["self"], 1), "next_payee_ix", 2);
    let loop_over_storage = for_loop(
        range(int_lit(0, 3), storage_bound, 4),
        vec![method_call(path(&["self"], 5), "transfer", vec![], 6)],
        7,
    );
    let body = FunctionBody { stmts: vec![loop_over_storage] };
    let detector = DosUnboundedOperation;
    assert!(detector.check_expr(&body.stmts[0]));
    let mut reporter = Reporter::new();
    detector.check_body(&body, &mut reporter);
    let diags = collect(&reporter);
    assert_eq!(diags.len(), 1);
    assert_eq!(diags[0].detector, DetectorKind::DosUnboundedOperation);
    assert_eq!(diags[0].span, sp(7));
}

#[test]
fn dos_storage_bound_flagged_with_empty_body() {
    let storage_bound = field_access(path(&["self"], 1), "counter", 2);
    let loop_over_storage = for_loop(range(int_lit(0, 3), storage_bound, 4), vec![], 5);
    let body = FunctionBody { stmts: vec![loop_over_storage] };
    let mut reporter = Reporter::new();
    let detector = DosUnboundedOperation;
    detector.check_body(&body, &mut reporter);
    assert_eq!(reporter.len(), 1);
    assert_eq!(reporter.get(0).span, sp(5));
}

#[test]
fn set_storage_every_occurrence_flagged() {
    let first = call(
        path(&["env", "set_contract_storage"], 1),
        vec![int_lit(5, 2), int_lit(7, 3)],
        4,
    );
    let harmless = method_call(path(&["self"], 5), "get", vec![], 6);
    let second = call(
        path(&["env", "set_contract_storage"], 7),
        vec![int_lit(9, 8), int_lit(11, 9)],
        10,
    );
    let body = FunctionBody { stmts: vec![first, harmless, second] };
    let mut reporter = Reporter::new();
    let detector = SetStorageWarn;
    detector.check_body(&body, &mut reporter);
    let diags = collect(&reporter);
    assert_eq!(diags.len(), 2);
    assert_eq!(diags[0].detector, DetectorKind::SetStorageWarn);
    assert_eq!(diags[0].span, sp(4));
    assert_eq!(diags[1].span, sp(10));
}

#[test]
fn set_storage_other_paths_not_flagged() {
    let three_segments = call(path(&["self", "env", "set_contract_storage"], 1), vec![], 2);
    let one_segment = call(path(&["set_contract_storage"], 3), vec![], 4);
    let as_method = method_call(path(&["env"], 5), "set_contract_storage", vec![], 6);
    let body = FunctionBody { stmts: vec![three_segments, one_segment, as_method] };
    let mut reporter = Reporter::new();
    let detector = SetStorageWarn;
    detector.check_body(&body, &mut reporter);
    assert_eq!(reporter.len(), 0);
}

#[test]
fn set_storage_flag_independent_of_arguments() {
    let detector = SetStorageWarn;
    let no_args = call(path(&["env", "set_contract_storage"], 1), vec![], 2);
    let with_args = call(
        path(&["env", "set_contract_storage"], 3),
        vec![int_lit(0, 4), bool_lit(true, 5)],
        6,
    );
    assert!(detector.check_expr(&no_args));
    assert!(detector.check_expr(&with_args));
}

#[test]
fn unexpected_revert_unprotected_push_flagged() {
    let push = method_call(
        field_access(path(&["self"], 1), "payees", 2),
        "push",
        vec![int_lit(1, 3)],
        4,
    );
    let body = FunctionBody { stmts: vec![push] };
    let mut reporter = Reporter::new();
    let detector = UnexpectedRevertWarn;
    detector.check_fn(&body, &mut reporter);
    let diags = collect(&reporter);
    assert_eq!(diags.len(), 1);
    assert_eq!(diags[0].detector, DetectorKind::UnexpectedRevertWarn);
    assert_eq!(diags[0].span, sp(4));
}

#[test]
fn unexpected_revert_owner_guarded_push_not_flagged() {
    let caller_check = Expr::Binary {
        op: BinOp::Eq,
        left: Box::new(method_call(path(&["self", "env"], 1), "caller", vec![], 2)),
        right: Box::new(field_access(path(&["self"], 3), "owner", 4)),
        span: sp(5),
    };
    let push = method_call(
        field_access(path(&["self"], 6), "payees", 7),
        "push",
        vec![int_lit(1, 8)],
        9,
    );
    let guarded = Expr::If {
        cond: Box::new(caller_check),
        then_branch: vec![push],
        span: sp(10),
    };
    let body = FunctionBody { stmts: vec![guarded] };
    let mut reporter = Reporter::new();
    let detector = UnexpectedRevertWarn;
    detector.check_fn(&body, &mut reporter);
    assert_eq!(reporter.len(), 0);
}

#[test]
fn unexpected_revert_no_push_not_flagged() {
    let harmless = method_call(path(&["self"], 1), "get", vec![], 2);
    let body = FunctionBody { stmts: vec![harmless] };
    let mut reporter = Reporter::new();
    let detector = UnexpectedRevertWarn;
    detector.check_fn(&body, &mut reporter);
    assert_eq!(reporter.len(), 0);
}

#[test]
fn analyze_combines_detectors_in_registration_order() {
    let storage_bound = field_access(path(&["self"], 1), "count", 2);
    let unbounded_loop = for_loop(range(int_lit(0, 3), storage_bound, 4), vec![], 5);
    let raw_write = call(path(&["env", "set_contract_storage"], 6), vec![], 7);
    let body = FunctionBody { stmts: vec![unbounded_loop, raw_write] };
    let mut reporter = Reporter::new();
    analyze(&body, &mut reporter);
    let diags = collect(&reporter);
    assert_eq!(diags.len(), 2);
    assert_eq!(diags[0].detector, DetectorKind::DosUnboundedOperation);
    assert_eq!(diags[0].span, sp(5));
    assert_eq!(diags[1].detector, DetectorKind::SetStorageWarn);
    assert_eq!(diags[1].span, sp(7));
}

#[test]
fn analyze_empty_body_reports_nothing() {
    let body = FunctionBody { stmts: vec![] };
    let mut reporter = Reporter::new();
    analyze(&body, &mut reporter);
    assert_eq!(reporter.len(), 0);
}

#[test]
fn analysis_is_deterministic_across_runs() {
    let body = vulnerable_reentrancy_body();
    let mut first = Reporter::new();
    analyze(&body, &mut first);
    let mut second = Reporter::new();
    analyze(&body, &mut second);
    let first_diags = collect(&first);
    let second_diags = collect(&second);
    assert_eq!(first_diags, second_diags);
    assert_eq!(first_diags.len(), 1);
}

#[test]
fn diagnostic_messages_and_help() {
    let d = Diagnostic { detector: DetectorKind::Reentrancy, span: sp(1) };
    assert_eq!(
        d.message(),
        "External calls could open the opportunity for a malicious contract to execute any arbitrary code"
    );
    assert_eq!(
        d.help(),
        "This statement seems to call another contract after the flag set_allow_reentry was enabled"
    );
    let d = Diagnostic { detector: DetectorKind::DosUnboundedOperation, span: sp(2) };
    assert_eq!(
        d.message(),
        "In order to prevent a single transaction from consuming all the gas in a block, unbounded operations must be avoided"
    );
    assert_eq!(d.severity(), "warn");
    assert_eq!(d.detector.name(), "DOS_UNBOUNDED_OPERATION");
    assert_eq!(DetectorKind::SetStorageWarn.name(), "SET_STORAGE_WARN");
    assert_eq!(DetectorKind::UnexpectedRevertWarn.name(), "UNEXPECTED_REVERT_WARN");
}

#[test]
fn name_helpers_match_expected_patterns() {
    assert!(name_eq("invoke_contract", "invoke_contract"));
    assert!(!name_eq("invoke_contract", "invoke_contracts"));
    assert!(name_contains("call_v1_set_allow_reentry_flag", "set_allow_reentry"));
    assert!(!name_contains("set_allow", "set_allow_reentry"));
    assert!(name_contains("anything", ""));
}

#[test]
fn dos_bound_from_other_object_not_flagged() {
    let foreign_bound = field_access(path(&["config"], 1), "limit", 2);
    let loop_over_foreign = for_loop(range(int_lit(0, 3), foreign_bound, 4), vec![], 5);
    let body = FunctionBody { stmts: vec![loop_over_foreign] };
    let mut reporter = Reporter::new();
    let detector = DosUnboundedOperation;
    detector.check_body(&body, &mut reporter);
    assert_eq!(reporter.len(), 0);
}

#[test]
fn dos_loop_nested_in_branch_still_found() {
    let storage_bound = field_access(path(&["self"], 1), "count", 2);
    let nested_loop = for_loop(range(int_lit(0, 3), storage_bound, 4), vec![], 5);
    let guarded = Expr::If {
        cond: Box::new(bool_lit(true, 6)),
        then_branch: vec![nested_loop],
        span: sp(7),
    };
    let body = FunctionBody { stmts: vec![guarded] };
    let mut reporter = Reporter::new();
    let detector = DosUnboundedOperation;
    detector.check_body(&body, &mut reporter);
    assert_eq!(reporter.len(), 1);
    assert_eq!(reporter.get(0).span, sp(5));
}

#[test]
fn reentrancy_flag_call_without_arguments_ignored() {
    let flag_without_args = method_call(path(&["builder"], 1), "set_allow_reentry", vec![], 2);
    let external_call = method_call(path(&["builder"], 3), "invoke_contract", vec![], 4);
    let self_write = assign(
        field_access(path(&["self"], 5), "balance", 6),
        int_lit(0, 7),
        8,
    );
    let body = FunctionBody { stmts: vec![flag_without_args, external_call, self_write] };
    let mut reporter = Reporter::new();
    let detector = Reentrancy;
    detector.check_fn(&body, &mut reporter);
    assert_eq!(reporter.len(), 0);
}
