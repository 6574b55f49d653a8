//! End-to-end tests of the pass: resolution, matching, classification and
//! the fail-fast configuration check, on concrete program trees.

use enforce_direct_access::ast::{
    Expr, MemberProp, MetaKind, Node, ObjectProp, Pat, Program, PropKey, Span, VarDeclarator,
};
use enforce_direct_access::detector::{
    run_pass, EnforceDirectAccessTransformer, PluginConfig, Violation, ViolationKind,
};

fn span(lo: u32, hi: u32) -> Span {
    Span { lo, hi }
}

fn ident(name: &str) -> Expr {
    Expr::Ident { name: name.to_string() }
}

fn member(obj: Expr, prop: &str) -> Expr {
    Expr::Member { obj: Box::new(obj), prop: MemberProp::Named { name: prop.to_string() } }
}

fn opt_member(obj: Expr, prop: &str, sp: Span) -> Expr {
    Expr::OptMember {
        obj: Box::new(obj),
        prop: MemberProp::Named { name: prop.to_string() },
        span: sp,
    }
}

fn computed_member(obj: Expr, index: Expr) -> Expr {
    Expr::Member { obj: Box::new(obj), prop: MemberProp::Computed { index: Box::new(index) } }
}

fn shorthand_destructuring(keys: &[&str], init: Expr, sp: Span) -> Node {
    let props = keys
        .iter()
        .map(|k| ObjectProp::Shorthand { name: k.to_string() })
        .collect();
    Node::Decl {
        decl: VarDeclarator { name: Pat::Object { props }, init: Some(init), span: sp },
    }
}

fn config(paths: &[&str]) -> PluginConfig {
    PluginConfig { paths: paths.iter().map(|p| p.to_string()).collect() }
}

fn run(paths: &[&str], body: Vec<Node>) -> Vec<Violation> {
    run_pass(config(paths), &Program { body }).expect("non-empty config must run")
}

#[test]
fn optional_chaining_on_watched_root() {
    // watch {"a"}, expression a?.b
    let body = vec![Node::Expr { expr: opt_member(ident("a"), "b", span(0, 4)) }];
    let violations = run(&["a"], body);
    assert_eq!(violations.len(), 1);
    assert_eq!(violations[0].kind, ViolationKind::OptionalChaining);
    assert_eq!(violations[0].matched_watch_path, "a");
    assert_eq!(violations[0].span, span(0, 4));
}

#[test]
fn mid_chain_optional_taints_whole_path() {
    // watch {"a.b"}, expression a.b?.c: the resolved path is "a.b.c" with the
    // optional taint set even though the operator is mid-chain.
    let expr = opt_member(member(ident("a"), "b"), "c", span(0, 6));
    let resolved = enforce_direct_access::path_resolver::build_expression_path(&expr)
        .expect("a.b?.c resolves");
    assert!(resolved.has_optional);
    assert_eq!(
        enforce_direct_access::path_resolver::join_dotted_path(&resolved.segments),
        "a.b.c"
    );

    let body = vec![Node::Expr { expr }];
    let violations = run(&["a.b"], body);
    assert_eq!(violations.len(), 1);
    assert_eq!(violations[0].kind, ViolationKind::OptionalChaining);
    assert_eq!(violations[0].matched_watch_path, "a.b");
}

#[test]
fn destructuring_watched_property() {
    // watch {"process.env"}, declaration const { env } = process
    let body = vec![shorthand_destructuring(&["env"], ident("process"), span(0, 25))];
    let violations = run(&["process.env"], body);
    assert_eq!(violations.len(), 1);
    assert_eq!(violations[0].kind, ViolationKind::Destructuring);
    assert_eq!(violations[0].matched_watch_path, "process.env");
    assert_eq!(violations[0].span, span(0, 25));
}

#[test]
fn tainted_initializer_not_matching_whole_path_is_conservative() {
    // watch {"process.env"}, declaration const { env } = process?.env_holder:
    // the tainted initializer is not exactly a watch path, and per-property
    // candidates are not examined on a tainted initializer. Zero violations.
    let init = opt_member(ident("process"), "env_holder", span(14, 33));
    let body = vec![shorthand_destructuring(&["env"], init, span(0, 33))];
    let violations = run(&["process.env"], body);
    assert_eq!(violations.len(), 0);
}

#[test]
fn computed_member_access_never_resolves() {
    // declaration const { x } = a["computed"]: computed member access does
    // not resolve, so even watch path "a.x" yields zero violations.
    let init = computed_member(ident("a"), ident("computed"));
    let body = vec![shorthand_destructuring(&["x"], init, span(0, 20))];
    let violations = run(&["a.x"], body);
    assert_eq!(violations.len(), 0);
}

#[test]
fn empty_configuration_fails_fast() {
    let body = vec![Node::Expr { expr: opt_member(ident("a"), "b", span(0, 4)) }];
    let result = run_pass(config(&[]), &Program { body });
    let message = result.expect_err("empty config must be rejected");
    assert_eq!(
        message,
        "'paths' cannot be empty. Please provide at least one path to check."
    );
}

#[test]
fn validate_rejects_only_empty_paths() {
    assert!(config(&[]).validate().is_err());
    assert!(config(&["process.env"]).validate().is_ok());
}

#[test]
fn pass_is_idempotent_on_clean_input() {
    // An input with zero violations yields the identical empty set when the
    // pass runs twice.
    let make_body = || {
        vec![
            Node::Expr { expr: member(ident("process"), "env") },
            Node::Expr { expr: opt_member(ident("other"), "field", span(0, 11)) },
        ]
    };
    let first = run(&["process.env"], make_body());
    let second = run(&["process.env"], make_body());
    assert_eq!(first.len(), 0);
    assert_eq!(second.len(), 0);
}

#[test]
fn pass_is_deterministic_on_violating_input() {
    let make_body = || vec![Node::Expr { expr: opt_member(ident("a"), "b", span(2, 6)) }];
    let first = run(&["a"], make_body());
    let second = run(&["a"], make_body());
    assert_eq!(first.len(), second.len());
    assert_eq!(first[0].kind, second[0].kind);
    assert_eq!(first[0].matched_watch_path, second[0].matched_watch_path);
    assert_eq!(first[0].span, second[0].span);
}

#[test]
fn destructuring_with_optional_on_exact_watch_path() {
    // watch {"process.env"}, declaration const { KEY } = process?.env: the
    // tainted initializer is exactly the watch path, and the traversal then
    // still descends into the initializer, whose optional-chaining node is
    // flagged on its own.
    let init = opt_member(ident("process"), "env", span(14, 26));
    let body = vec![shorthand_destructuring(&["KEY"], init, span(0, 26))];
    let violations = run(&["process.env"], body);
    assert_eq!(violations.len(), 2);
    assert_eq!(violations[0].kind, ViolationKind::DestructuringWithOptional);
    assert_eq!(violations[0].matched_watch_path, "process.env");
    assert_eq!(violations[0].span, span(0, 26));
    assert_eq!(violations[1].kind, ViolationKind::OptionalChaining);
    assert_eq!(violations[1].matched_watch_path, "process.env");
    assert_eq!(violations[1].span, span(14, 26));
}

#[test]
fn destructuring_reports_each_watched_property() {
    // const { env, argv, pid } = process with watch {"process.env",
    // "process.argv"}: one violation per matching property, in order.
    let body = vec![shorthand_destructuring(
        &["env", "argv", "pid"],
        ident("process"),
        span(0, 30),
    )];
    let violations = run(&["process.env", "process.argv"], body);
    assert_eq!(violations.len(), 2);
    assert_eq!(violations[0].kind, ViolationKind::Destructuring);
    assert_eq!(violations[0].matched_watch_path, "process.env");
    assert_eq!(violations[1].kind, ViolationKind::Destructuring);
    assert_eq!(violations[1].matched_watch_path, "process.argv");
}

#[test]
fn key_value_destructuring_uses_property_key() {
    // const { env: e } = process: the statically known key is "env", not the
    // bound name.
    let props = vec![ObjectProp::KeyValue { key: PropKey::Named { name: "env".to_string() } }];
    let body = vec![Node::Decl {
        decl: VarDeclarator {
            name: Pat::Object { props },
            init: Some(ident("process")),
            span: span(0, 24),
        },
    }];
    let violations = run(&["process.env"], body);
    assert_eq!(violations.len(), 1);
    assert_eq!(violations[0].kind, ViolationKind::Destructuring);
    assert_eq!(violations[0].matched_watch_path, "process.env");
}

#[test]
fn string_literal_keys_are_skipped() {
    // const { "env": e } = process: string-literal keys are not statically
    // analyzed, so no violation even though "process.env" is watched.
    let props = vec![ObjectProp::KeyValue { key: PropKey::Unsupported }];
    let body = vec![Node::Decl {
        decl: VarDeclarator {
            name: Pat::Object { props },
            init: Some(ident("process")),
            span: span(0, 26),
        },
    }];
    let violations = run(&["process.env"], body);
    assert_eq!(violations.len(), 0);
}

#[test]
fn optional_call_does_not_resolve() {
    // a?.(): an optional-chaining call is not a trackable path.
    let body = vec![Node::Expr {
        expr: Expr::OptCall { parts: vec![ident("a")], span: span(0, 5) },
    }];
    let violations = run(&["a"], body);
    assert_eq!(violations.len(), 0);
}

#[test]
fn traversal_reaches_nested_children() {
    // A watched optional access nested inside an unrecognized construct (for
    // example a call argument) is still found.
    let inner = opt_member(ident("process"), "env", span(10, 22));
    let body = vec![Node::Expr {
        expr: Expr::Other { children: vec![Node::Expr { expr: inner }] },
    }];
    let violations = run(&["process.env"], body);
    assert_eq!(violations.len(), 1);
    assert_eq!(violations[0].kind, ViolationKind::OptionalChaining);
    assert_eq!(violations[0].matched_watch_path, "process.env");
}

#[test]
fn traversal_reaches_computed_index_expressions() {
    // a[b?.c] with watch {"b"}: the computed access itself never resolves,
    // but the index expression is traversed and flagged.
    let index = opt_member(ident("b"), "c", span(2, 6));
    let body = vec![Node::Expr { expr: computed_member(ident("a"), index) }];
    let violations = run(&["b"], body);
    assert_eq!(violations.len(), 1);
    assert_eq!(violations[0].kind, ViolationKind::OptionalChaining);
    assert_eq!(violations[0].matched_watch_path, "b");
}

#[test]
fn nested_optional_chains_each_report() {
    // a?.b?.c with watch {"a"}: both optional-chaining nodes resolve to a
    // tainted watched path, so each reports.
    let inner = opt_member(ident("a"), "b", span(0, 4));
    let outer = opt_member(inner, "c", span(0, 7));
    let body = vec![Node::Expr { expr: outer }];
    let violations = run(&["a"], body);
    assert_eq!(violations.len(), 2);
    assert!(violations.iter().all(|v| v.kind == ViolationKind::OptionalChaining));
    assert!(violations.iter().all(|v| v.matched_watch_path == "a"));
}

#[test]
fn meta_property_resolves_to_two_segments() {
    // import.meta?.env with watch {"import.meta.env"}.
    let expr = opt_member(Expr::MetaProp { kind: MetaKind::ImportMeta }, "env", span(0, 16));
    let violations = run(&["import.meta.env"], vec![Node::Expr { expr }]);
    assert_eq!(violations.len(), 1);
    assert_eq!(violations[0].matched_watch_path, "import.meta.env");

    // new.target?.name with watch {"new.target"}.
    let expr = opt_member(Expr::MetaProp { kind: MetaKind::NewTarget }, "name", span(0, 16));
    let violations = run(&["new.target"], vec![Node::Expr { expr }]);
    assert_eq!(violations.len(), 1);
    assert_eq!(violations[0].matched_watch_path, "new.target");
}

#[test]
fn plain_member_access_is_never_flagged() {
    // process.env without optional chaining or destructuring is the pattern
    // the pass wants; zero violations.
    let body = vec![Node::Expr { expr: member(ident("process"), "env") }];
    let violations = run(&["process.env"], body);
    assert_eq!(violations.len(), 0);
}

#[test]
fn declarator_without_object_pattern_is_ignored() {
    // const env = process?.environment with watch {"process.env"}: no
    // destructuring, and the chain resolves to "process.environment", which
    // does not match "process.env" at a dot boundary.
    let init = opt_member(ident("process"), "environment", span(12, 33));
    let body = vec![Node::Decl {
        decl: VarDeclarator { name: Pat::Other, init: Some(init), span: span(0, 33) },
    }];
    let violations = run(&["process.env"], body);
    assert_eq!(violations.len(), 0);
}

#[test]
fn duplicate_watch_paths_report_once() {
    let body = vec![Node::Expr { expr: opt_member(ident("a"), "b", span(0, 4)) }];
    let violations = run(&["a", "a", "a"], body);
    assert_eq!(violations.len(), 1);
    assert_eq!(violations[0].matched_watch_path, "a");
}

#[test]
fn transformer_runs_without_validation_gate() {
    // The transformer itself can be built and run directly; an empty watch
    // set then simply never matches.
    let transformer = EnforceDirectAccessTransformer::new(config(&[]));
    let body = vec![Node::Expr { expr: opt_member(ident("a"), "b", span(0, 4)) }];
    let violations = transformer.run(&Program { body });
    assert_eq!(violations.len(), 0);
}
