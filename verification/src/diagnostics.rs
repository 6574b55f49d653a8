//! Building the structured diagnostic for a violation: a primary message
//! naming the violated watch path and the violation kind, a label pointing at
//! the offending span, a note on why the pattern breaks static path tracing,
//! and a remediation hint with a minimal bad and good rewrite. Rendering the
//! diagnostic into console or IDE output is the host's responsibility.

use crate::ast::Span;
use crate::detector::{SpecViolation, Violation, ViolationKind};
use vstd::prelude::*;

verus! {

/// A diagnostic ready for the host to render. Purely observational: producing
/// one never alters the tree or stops the traversal.
pub struct Diagnostic {
    /// The primary message, naming the matched watch path.
    pub message: String,
    /// A short label to attach at the offending span.
    pub label: String,
    /// Why the flagged pattern breaks static path tracing.
    pub note: String,
    /// A minimal bad and good rewrite around the matched watch path.
    pub help: String,
    /// The offending source region.
    pub span: Span,
}

/// The mathematical value of a diagnostic.
#[verifier::ext_equal]
pub struct SpecDiagnostic {
    pub message: Seq<char>,
    pub label: Seq<char>,
    pub note: Seq<char>,
    pub help: Seq<char>,
    pub span: Span,
}

impl View for Diagnostic {
    type V = SpecDiagnostic;

    open spec fn view(&self) -> SpecDiagnostic {
        SpecDiagnostic {
            message: self.message@,
            label: self.label@,
            note: self.note@,
            help: self.help@,
            span: self.span,
        }
    }
}

/// The diagnostic for an optional-chaining access of a watched path.
pub open spec fn optional_chaining_diagnostic(path: Seq<char>, span: Span) -> SpecDiagnostic {
    SpecDiagnostic {
        message: "Optional chaining with '"@ + path + "' is unsafe"@,
        label: "remove the optional chaining operator ('?.')"@,
        note:
            "Optional chaining prevents static analysis tools from correctly identifying property accesses during build-time text replacement."@,
        help: "Access properties directly from '"@ + path + "' instead:\n- \u{2717} Bad:  "@
            + path + "?.property\n- \u{2713} Good: "@ + path + ".property"@,
        span,
    }
}

/// The diagnostic for destructuring a watched path through optional chaining.
pub open spec fn destructuring_with_optional_diagnostic(path: Seq<char>, span: Span) -> SpecDiagnostic {
    SpecDiagnostic {
        message: "Destructuring with optional chaining on '"@ + path + "' is unsafe"@,
        label: "remove both destructuring and optional chaining"@,
        note:
            "The combination of destructuring and optional chaining makes it impossible for static analysis tools to track property access patterns."@,
        help: "Access properties directly from '"@ + path
            + "' instead:\n- \u{2717} Bad:  const { prop } = "@ + path
            + "?.object;\n- \u{2713} Good: "@ + path + ".object.prop"@,
        span,
    }
}

/// The diagnostic for plain destructuring of a watched path.
pub open spec fn destructuring_diagnostic(path: Seq<char>, span: Span) -> SpecDiagnostic {
    SpecDiagnostic {
        message: "Destructuring '"@ + path + "' is unsafe"@,
        label: "remove destructuring pattern"@,
        note:
            "Destructuring breaks the static property access chain that build-time text replacement tools rely on."@,
        help: "Access properties directly from '"@ + path
            + "' instead:\n- \u{2717} Bad:  const { prop } = parent;\n- \u{2713} Good: "@ + path
            + ".prop"@,
        span,
    }
}

/// The diagnostic a violation turns into, by its kind.
pub open spec fn violation_diagnostic(v: SpecViolation) -> SpecDiagnostic {
    match v.kind {
        ViolationKind::OptionalChaining => optional_chaining_diagnostic(
            v.matched_watch_path,
            v.span,
        ),
        ViolationKind::DestructuringWithOptional => destructuring_with_optional_diagnostic(
            v.matched_watch_path,
            v.span,
        ),
        ViolationKind::Destructuring => destructuring_diagnostic(v.matched_watch_path, v.span),
    }
}

/// Builds the diagnostic for an optional-chaining violation of `path`.
pub fn report_optional_chaining_error(path: &str, span: Span) -> (d: Diagnostic)
    ensures
        d@ == optional_chaining_diagnostic(path@, span),
{
    let mut message = String::from_str("Optional chaining with '");
    message.append(path);
    message.append("' is unsafe");
    let mut help = String::from_str("Access properties directly from '");
    help.append(path);
    help.append("' instead:\n- \u{2717} Bad:  ");
    help.append(path);
    help.append("?.property\n- \u{2713} Good: ");
    help.append(path);
    help.append(".property");
    let d = Diagnostic {
        message,
        label: String::from_str("remove the optional chaining operator ('?.')"),
        note: String::from_str(
            "Optional chaining prevents static analysis tools from correctly identifying property accesses during build-time text replacement.",
        ),
        help,
        span,
    };
    proof {
        assert(d@ =~= optional_chaining_diagnostic(path@, span));
    }
    d
}

/// Builds the diagnostic for a destructuring-with-optional-chaining violation
/// of `path`.
pub fn report_destructuring_with_optional_error(path: &str, span: Span) -> (d: Diagnostic)
    ensures
        d@ == destructuring_with_optional_diagnostic(path@, span),
{
    let mut message = String::from_str("Destructuring with optional chaining on '");
    message.append(path);
    message.append("' is unsafe");
    let mut help = String::from_str("Access properties directly from '");
    help.append(path);
    help.append("' instead:\n- \u{2717} Bad:  const { prop } = ");
    help.append(path);
    help.append("?.object;\n- \u{2713} Good: ");
    help.append(path);
    help.append(".object.prop");
    let d = Diagnostic {
        message,
        label: String::from_str("remove both destructuring and optional chaining"),
        note: String::from_str(
            "The combination of destructuring and optional chaining makes it impossible for static analysis tools to track property access patterns.",
        ),
        help,
        span,
    };
    proof {
        assert(d@ =~= destructuring_with_optional_diagnostic(path@, span));
    }
    d
}

/// Builds the diagnostic for a plain destructuring violation of `path`.
pub fn report_destructuring_error(path: &str, span: Span) -> (d: Diagnostic)
    ensures
        d@ == destructuring_diagnostic(path@, span),
{
    let mut message = String::from_str("Destructuring '");
    message.append(path);
    message.append("' is unsafe");
    let mut help = String::from_str("Access properties directly from '");
    help.append(path);
    help.append("' instead:\n- \u{2717} Bad:  const { prop } = parent;\n- \u{2713} Good: ");
    help.append(path);
    help.append(".prop");
    let d = Diagnostic {
        message,
        label: String::from_str("remove destructuring pattern"),
        note: String::from_str(
            "Destructuring breaks the static property access chain that build-time text replacement tools rely on.",
        ),
        help,
        span,
    };
    proof {
        assert(d@ =~= destructuring_diagnostic(path@, span));
    }
    d
}

/// Builds the diagnostic for a violation, by its kind.
pub fn report_violation(v: &Violation) -> (d: Diagnostic)
    ensures
        d@ == violation_diagnostic(v@),
{
    match v.kind {
        ViolationKind::OptionalChaining => report_optional_chaining_error(
            v.matched_watch_path.as_str(),
            v.span,
        ),
        ViolationKind::DestructuringWithOptional => report_destructuring_with_optional_error(
            v.matched_watch_path.as_str(),
            v.span,
        ),
        ViolationKind::Destructuring => report_destructuring_error(
            v.matched_watch_path.as_str(),
            v.span,
        ),
    }
}

} // verus!
