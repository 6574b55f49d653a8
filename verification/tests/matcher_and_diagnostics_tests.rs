//! Tests of the string-level matching primitives and of the structured
//! diagnostics built for each violation kind.

use enforce_direct_access::ast::{Expr, MemberProp, Node, Program, Span};
use enforce_direct_access::detector::{run_pass, PluginConfig, Violation, ViolationKind};
use enforce_direct_access::diagnostics::{
    report_destructuring_error, report_destructuring_with_optional_error,
    report_optional_chaining_error, report_violation,
};
use enforce_direct_access::path_matcher::{contains_path, path_starts_with, str_equal};

#[test]
fn str_equal_compares_by_characters() {
    assert!(str_equal("process.env", "process.env"));
    assert!(!str_equal("process.env", "process.en"));
    assert!(!str_equal("", "a"));
    assert!(str_equal("", ""));
}

#[test]
fn prefix_match_requires_dot_boundary() {
    assert!(path_starts_with("process.env", "process.env"));
    assert!(path_starts_with("process.env.API_KEY", "process.env"));
    assert!(!path_starts_with("process.environment", "process.env"));
    assert!(!path_starts_with("process.env", "process.env.API_KEY"));
    assert!(!path_starts_with("process", "process.env"));
}

#[test]
fn contains_path_is_exact_membership() {
    let paths = vec!["process.env".to_string(), "import.meta.env".to_string()];
    assert!(contains_path(&paths, "process.env"));
    assert!(contains_path(&paths, "import.meta.env"));
    assert!(!contains_path(&paths, "process.env.API_KEY"));
    assert!(!contains_path(&paths, "process"));
}

#[test]
fn deep_chain_matches_watch_path_prefix() {
    // process.env.API?.KEY resolves to "process.env.API.KEY", a dot-boundary
    // extension of the watch path "process.env".
    let expr = Expr::OptMember {
        obj: Box::new(Expr::Member {
            obj: Box::new(Expr::Member {
                obj: Box::new(Expr::Ident { name: "process".to_string() }),
                prop: MemberProp::Named { name: "env".to_string() },
            }),
            prop: MemberProp::Named { name: "API".to_string() },
        }),
        prop: MemberProp::Named { name: "KEY".to_string() },
        span: Span { lo: 0, hi: 20 },
    };
    let config = PluginConfig { paths: vec!["process.env".to_string()] };
    let violations = run_pass(config, &Program { body: vec![Node::Expr { expr }] }).unwrap();
    assert_eq!(violations.len(), 1);
    assert_eq!(violations[0].kind, ViolationKind::OptionalChaining);
    assert_eq!(violations[0].matched_watch_path, "process.env");
}

#[test]
fn optional_chaining_diagnostic_text() {
    let d = report_optional_chaining_error("process.env", Span { lo: 3, hi: 9 });
    assert_eq!(d.message, "Optional chaining with 'process.env' is unsafe");
    assert_eq!(d.label, "remove the optional chaining operator ('?.')");
    assert_eq!(
        d.note,
        "Optional chaining prevents static analysis tools from correctly identifying \
         property accesses during build-time text replacement."
    );
    assert_eq!(
        d.help,
        "Access properties directly from 'process.env' instead:\n\
         - \u{2717} Bad:  process.env?.property\n\
         - \u{2713} Good: process.env.property"
    );
    assert_eq!(d.span, Span { lo: 3, hi: 9 });
}

#[test]
fn destructuring_with_optional_diagnostic_text() {
    let d = report_destructuring_with_optional_error("process.env", Span { lo: 0, hi: 5 });
    assert_eq!(
        d.message,
        "Destructuring with optional chaining on 'process.env' is unsafe"
    );
    assert_eq!(d.label, "remove both destructuring and optional chaining");
    assert_eq!(
        d.note,
        "The combination of destructuring and optional chaining makes it impossible \
         for static analysis tools to track property access patterns."
    );
    assert_eq!(
        d.help,
        "Access properties directly from 'process.env' instead:\n\
         - \u{2717} Bad:  const { prop } = process.env?.object;\n\
         - \u{2713} Good: process.env.object.prop"
    );
}

#[test]
fn destructuring_diagnostic_text() {
    let d = report_destructuring_error("process.env", Span { lo: 0, hi: 5 });
    assert_eq!(d.message, "Destructuring 'process.env' is unsafe");
    assert_eq!(d.label, "remove destructuring pattern");
    assert_eq!(
        d.note,
        "Destructuring breaks the static property access chain that build-time text \
         replacement tools rely on."
    );
    assert_eq!(
        d.help,
        "Access properties directly from 'process.env' instead:\n\
         - \u{2717} Bad:  const { prop } = parent;\n\
         - \u{2713} Good: process.env.prop"
    );
}

#[test]
fn report_violation_dispatches_on_kind() {
    let v = Violation {
        kind: ViolationKind::OptionalChaining,
        matched_watch_path: "a.b".to_string(),
        span: Span { lo: 1, hi: 2 },
    };
    let d = report_violation(&v);
    assert_eq!(d.message, "Optional chaining with 'a.b' is unsafe");
    assert_eq!(d.span, Span { lo: 1, hi: 2 });

    let v = Violation {
        kind: ViolationKind::DestructuringWithOptional,
        matched_watch_path: "a.b".to_string(),
        span: Span { lo: 1, hi: 2 },
    };
    assert_eq!(
        report_violation(&v).message,
        "Destructuring with optional chaining on 'a.b' is unsafe"
    );

    let v = Violation {
        kind: ViolationKind::Destructuring,
        matched_watch_path: "a.b".to_string(),
        span: Span { lo: 1, hi: 2 },
    };
    assert_eq!(report_violation(&v).message, "Destructuring 'a.b' is unsafe");
}
