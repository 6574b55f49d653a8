//! The syntax-tree model the pass works on.
//!
//! The pass only has to distinguish the handful of node shapes that matter for
//! reconstructing dotted access paths: identifiers, static and computed member
//! accesses, optional-chaining accesses and calls, meta-properties, object
//! destructuring patterns, and variable declarators with an initializer.
//! Everything else is collapsed into an `Other` node that merely carries its
//! children, so that traversal still reaches every node of interest while the
//! resolver fails closed on anything it does not recognize.

use vstd::prelude::*;

verus! {

/// A source region, as byte offsets into the compilation unit.
#[derive(Clone, Copy, PartialEq, Eq, Structural, Debug)]
pub struct Span {
    pub lo: u32,
    pub hi: u32,
}

/// The two meta-property forms; each resolves to a fixed two-segment path.
#[derive(Clone, Copy, PartialEq, Eq, Structural, Debug)]
pub enum MetaKind {
    /// `import.meta`
    ImportMeta,
    /// `new.target`
    NewTarget,
}

/// The property position of a member access.
pub enum MemberProp {
    /// A statically known identifier property: `obj.name`.
    Named { name: String },
    /// A computed (bracket) property: `obj[index]`. Dynamic keys are not
    /// statically analyzable, so the resolver fails on these; the index
    /// expression is still traversed.
    Computed { index: Box<Expr> },
}

/// An expression, reduced to the shapes the pass can reason about.
pub enum Expr {
    /// A bare identifier: the terminal, leftmost segment of a path.
    Ident { name: String },
    /// A plain member access: `obj.prop` or `obj[index]`.
    Member { obj: Box<Expr>, prop: MemberProp },
    /// An optional-chaining member access: `obj?.prop` or `obj?.[index]`.
    /// Carries the span at which a violation on this chain is anchored.
    OptMember { obj: Box<Expr>, prop: MemberProp, span: Span },
    /// An optional-chaining call: `callee?.(args)`. Never resolves to a path;
    /// the callee and arguments, listed together, are still traversed.
    OptCall { parts: Vec<Expr>, span: Span },
    /// A meta-property: `import.meta` or `new.target`.
    MetaProp { kind: MetaKind },
    /// Any other expression or construct. Opaque to the resolver, transparent
    /// to the traversal: nested declarators and expressions inside it (call
    /// arguments, function bodies, and so on) are still visited.
    Other { children: Vec<Node> },
}

/// The key of one destructured property.
pub enum PropKey {
    /// A plain identifier key: `{ name: local }`.
    Named { name: String },
    /// A string-literal or computed key; silently skipped by the pass.
    Unsupported,
}

/// One property of an object destructuring pattern.
pub enum ObjectProp {
    /// Key-value form: `{ key: local }`.
    KeyValue { key: PropKey },
    /// Identifier shorthand, possibly with a default: `{ name }`.
    Shorthand { name: String },
    /// Rest elements and anything else; skipped.
    Other,
}

/// A binding pattern. Only plain object destructuring is examined.
pub enum Pat {
    Object { props: Vec<ObjectProp> },
    Other,
}

/// A variable declarator, e.g. one `name = init` arm of a `const` statement.
pub struct VarDeclarator {
    pub name: Pat,
    pub init: Option<Expr>,
    pub span: Span,
}

/// A tree node: either an expression or a variable declarator. Statements and
/// other constructs appear as `Expr::Other` wrappers around their children.
pub enum Node {
    Expr { expr: Expr },
    Decl { decl: VarDeclarator },
}

/// A whole compilation unit, as the list of its top-level nodes.
pub struct Program {
    pub body: Vec<Node>,
}

/// The views of a sequence of owned strings, as sequences of characters.
pub open spec fn seg_views(v: Seq<String>) -> Seq<Seq<char>> {
    v.map_values(|s: String| s@)
}

} // verus!
