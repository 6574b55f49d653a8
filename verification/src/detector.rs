//! The traversal driver: walks a program tree, resolves qualifying access
//! expressions, matches them against the configured watch paths, and
//! classifies the violations it finds. The traversal is read-only and always
//! continues into children; a detected violation never prunes its subtree.

use crate::ast::{seg_views, Expr, MemberProp, Node, ObjectProp, Pat, Program, PropKey, Span};
use crate::path_matcher::{
    contains_path, lemma_first_match_skip, match_result, path_matches, path_starts_with,
};
use crate::path_resolver::{
    build_expression_path, join_dotted, join_dotted_path, resolve_spec,
};
use vstd::prelude::*;

verus! {

/// The three ways an access pattern can violate the rule.
#[derive(Clone, Copy, PartialEq, Eq, Structural, Debug)]
pub enum ViolationKind {
    /// An optional-chaining access whose resolved path matches a watch path.
    OptionalChaining,
    /// A destructuring whose optional-tainted initializer is exactly a watch
    /// path.
    DestructuringWithOptional,
    /// A destructuring of an untainted initializer where initializer plus
    /// property key is exactly a watch path.
    Destructuring,
}

/// One detected violation, handed to the host for reporting.
#[derive(Clone, Debug)]
pub struct Violation {
    pub kind: ViolationKind,
    /// The configured watch path the access resolved to.
    pub matched_watch_path: String,
    /// Where in the source the offending access stands.
    pub span: Span,
}

/// The mathematical value of a violation: the same data with the watch path
/// as a character sequence.
pub struct SpecViolation {
    pub kind: ViolationKind,
    pub matched_watch_path: Seq<char>,
    pub span: Span,
}

impl View for Violation {
    type V = SpecViolation;

    open spec fn view(&self) -> SpecViolation {
        SpecViolation {
            kind: self.kind,
            matched_watch_path: self.matched_watch_path@,
            span: self.span,
        }
    }
}

/// The views of a sequence of violations.
pub open spec fn vio_views(s: Seq<Violation>) -> Seq<SpecViolation> {
    s.map_values(|v: Violation| v@)
}

/// The violation an optional-chaining node `e` produces: one
/// `OptionalChaining` violation when `e` resolves to a tainted path that
/// matches a watch path, nothing otherwise.
pub open spec fn opt_chain_violation(ws: Seq<Seq<char>>, e: Expr, span: Span) -> Seq<
    SpecViolation,
> {
    match resolve_spec(e) {
        Some(r) => if r.1 {
            match match_result(join_dotted(r.0), ws) {
                Some(w) => seq![
                    SpecViolation {
                        kind: ViolationKind::OptionalChaining,
                        matched_watch_path: w,
                        span,
                    },
                ],
                None => Seq::empty(),
            }
        } else {
            Seq::empty()
        },
        None => Seq::empty(),
    }
}

/// The statically known key of a destructured property, if it has one.
/// String-literal keys and rest elements have none and are skipped.
pub open spec fn prop_key_name(p: ObjectProp) -> Option<Seq<char>> {
    match p {
        ObjectProp::KeyValue { key } => match key {
            PropKey::Named { name } => Some(name@),
            PropKey::Unsupported => None,
        },
        ObjectProp::Shorthand { name } => Some(name@),
        ObjectProp::Other => None,
    }
}

/// The violation one destructured property produces: a `Destructuring`
/// violation when the initializer carries no optional taint and initializer
/// path plus `.` plus key is exactly a watch path.
pub open spec fn prop_violation(
    ws: Seq<Seq<char>>,
    init_path: Seq<char>,
    has_optional: bool,
    p: ObjectProp,
    span: Span,
) -> Seq<SpecViolation> {
    match prop_key_name(p) {
        Some(key) => {
            let candidate = init_path + seq!['.'] + key;
            if !has_optional && ws.contains(candidate) {
                seq![
                    SpecViolation {
                        kind: ViolationKind::Destructuring,
                        matched_watch_path: candidate,
                        span,
                    },
                ]
            } else {
                Seq::empty()
            }
        },
        None => Seq::empty(),
    }
}

/// The violations of all properties of a destructuring pattern, in order.
pub open spec fn props_violations(
    ws: Seq<Seq<char>>,
    init_path: Seq<char>,
    has_optional: bool,
    props: Seq<ObjectProp>,
    span: Span,
) -> Seq<SpecViolation>
    decreases props.len(),
{
    if props.len() == 0 {
        Seq::empty()
    } else {
        props_violations(ws, init_path, has_optional, props.drop_last(), span) + prop_violation(
            ws,
            init_path,
            has_optional,
            props.last(),
            span,
        )
    }
}

/// The violations a destructuring declarator produces. When the initializer
/// is optional-tainted and its whole path is exactly a watch path, a single
/// `DestructuringWithOptional` violation is produced and the individual
/// properties are not examined. Otherwise each property key is combined with
/// the initializer path and checked for an exact watch-path match; an
/// optional-tainted initializer whose whole path did not match produces no
/// per-property violations either — deliberately conservative behavior.
pub open spec fn destructuring_violations(
    ws: Seq<Seq<char>>,
    pat: Pat,
    init: Expr,
    span: Span,
) -> Seq<SpecViolation> {
    match pat {
        Pat::Object { props } => match resolve_spec(init) {
            Some(r) => {
                let init_path = join_dotted(r.0);
                if r.1 && ws.contains(init_path) {
                    seq![
                        SpecViolation {
                            kind: ViolationKind::DestructuringWithOptional,
                            matched_watch_path: init_path,
                            span,
                        },
                    ]
                } else {
                    props_violations(ws, init_path, r.1, props@, span)
                }
            },
            None => Seq::empty(),
        },
        Pat::Other => Seq::empty(),
    }
}

/// The violations of an expression subtree: the check at the node itself when
/// it is an optional-chaining node, followed by the violations of its
/// children, left to right.
pub open spec fn expr_violations(ws: Seq<Seq<char>>, e: Expr) -> Seq<SpecViolation>
    decreases e,
{
    match e {
        Expr::Ident { .. } => Seq::empty(),
        Expr::MetaProp { .. } => Seq::empty(),
        Expr::Member { obj, prop } => expr_violations(ws, *obj) + member_prop_violations(
            ws,
            prop,
        ),
        Expr::OptMember { obj, prop, span } => opt_chain_violation(ws, e, span) + expr_violations(
            ws,
            *obj,
        ) + member_prop_violations(ws, prop),
        Expr::OptCall { parts, span } => opt_chain_violation(ws, e, span) + exprs_violations(
            ws,
            parts@,
        ),
        Expr::Other { children } => nodes_violations(ws, children@),
    }
}

/// The violations under a member-access property: none for a named property,
/// the index expression's subtree for a computed one.
pub open spec fn member_prop_violations(ws: Seq<Seq<char>>, prop: MemberProp) -> Seq<
    SpecViolation,
>
    decreases prop,
{
    match prop {
        MemberProp::Named { .. } => Seq::empty(),
        MemberProp::Computed { index } => expr_violations(ws, *index),
    }
}

/// The violations of a list of expressions, in order.
pub open spec fn exprs_violations(ws: Seq<Seq<char>>, es: Seq<Expr>) -> Seq<SpecViolation>
    decreases es,
{
    if es.len() == 0 {
        Seq::empty()
    } else {
        exprs_violations(ws, es.drop_last()) + expr_violations(ws, es.last())
    }
}

/// The violations of one tree node. A declarator is first examined as a
/// destructuring, then its initializer subtree is traversed.
pub open spec fn node_violations(ws: Seq<Seq<char>>, n: Node) -> Seq<SpecViolation>
    decreases n,
{
    match n {
        Node::Expr { expr } => expr_violations(ws, expr),
        Node::Decl { decl } => match decl.init {
            Some(init) => destructuring_violations(ws, decl.name, init, decl.span)
                + expr_violations(ws, init),
            None => Seq::empty(),
        },
    }
}

/// The violations of a list of nodes, in order.
pub open spec fn nodes_violations(ws: Seq<Seq<char>>, ns: Seq<Node>) -> Seq<SpecViolation>
    decreases ns,
{
    if ns.len() == 0 {
        Seq::empty()
    } else {
        nodes_violations(ws, ns.drop_last()) + node_violations(ws, ns.last())
    }
}

/// The violations of a whole program: its top-level nodes, in order.
pub open spec fn program_violations(ws: Seq<Seq<char>>, p: Program) -> Seq<SpecViolation> {
    nodes_violations(ws, p.body@)
}

/// The watch-path sequence with every later duplicate removed: each path at
/// the position of its first occurrence.
pub open spec fn dedup_first(s: Seq<Seq<char>>) -> Seq<Seq<char>>
    decreases s.len(),
{
    if s.len() == 0 {
        Seq::empty()
    } else if s.drop_last().contains(s.last()) {
        dedup_first(s.drop_last())
    } else {
        dedup_first(s.drop_last()).push(s.last())
    }
}

/// Removing duplicates keeps membership unchanged.
pub proof fn lemma_dedup_first_contains(s: Seq<Seq<char>>, x: Seq<char>)
    ensures
        dedup_first(s).contains(x) <==> s.contains(x),
    decreases s.len(),
{
    if s.len() > 0 {
        lemma_dedup_first_contains(s.drop_last(), x);
        let d = dedup_first(s.drop_last());
        if s.contains(x) {
            let i = choose|i: int| 0 <= i < s.len() && s[i] == x;
            if i < s.len() - 1 {
                assert(s.drop_last()[i] == x);
            } else {
                assert(s.last() == x);
            }
        }
        if s.drop_last().contains(x) {
            let i = choose|i: int| 0 <= i < s.drop_last().len() && s.drop_last()[i] == x;
            assert(s[i] == x);
        }
        if s.last() == x {
            assert(s[s.len() - 1] == x);
        }
        if !s.drop_last().contains(s.last()) {
            if dedup_first(s).contains(x) {
                let i = choose|i: int| 0 <= i < dedup_first(s).len() && dedup_first(s)[i] == x;
                if i < d.len() {
                    assert(d[i] == x);
                } else {
                    assert(x == s.last());
                }
            }
            if d.contains(x) {
                let i = choose|i: int| 0 <= i < d.len() && d[i] == x;
                assert(dedup_first(s)[i] == x);
            }
            if s.last() == x {
                assert(dedup_first(s)[d.len() as int] == x);
            }
        }
    }
}

/// What is left after removing duplicates holds each path once.
pub proof fn lemma_dedup_first_no_duplicates(s: Seq<Seq<char>>)
    ensures
        dedup_first(s).no_duplicates(),
    decreases s.len(),
{
    if s.len() > 0 {
        lemma_dedup_first_no_duplicates(s.drop_last());
        if !s.drop_last().contains(s.last()) {
            lemma_dedup_first_contains(s.drop_last(), s.last());
            let d = dedup_first(s.drop_last());
            assert forall|i: int, j: int|
                0 <= i < d.push(s.last()).len() && 0 <= j < d.push(s.last()).len() && i
                    != j implies d.push(s.last())[i] != d.push(s.last())[j] by {
                if i < d.len() && j < d.len() {
                } else if i == d.len() {
                    assert(d.push(s.last())[j] == d[j]);
                    assert(!d.contains(s.last()));
                } else {
                    assert(d.push(s.last())[i] == d[i]);
                    assert(!d.contains(s.last()));
                }
            }
        }
    }
}

/// The message raised when the configuration holds no watch path at all.
pub open spec fn empty_paths_message() -> Seq<char> {
    "'paths' cannot be empty. Please provide at least one path to check."@
}

/// The pass configuration: the dotted paths to watch, e.g. `process.env`.
/// The list must be non-empty; an empty list is a fatal configuration error
/// raised before any traversal.
pub struct PluginConfig {
    pub paths: Vec<String>,
}

impl PluginConfig {
    /// Checks the configuration: rejects an empty watch-path list, and says
    /// so, before the pass ever runs.
    pub fn validate(&self) -> (r: Result<(), String>)
        ensures
            r is Ok <==> self.paths@.len() > 0,
            r matches Err(m) ==> m@ == empty_paths_message(),
    {
        if self.paths.is_empty() {
            return Err(
                String::from_str(
                    "'paths' cannot be empty. Please provide at least one path to check.",
                ),
            );
        }
        Ok(())
    }
}

/// The pass itself: holds the watch-path set, immutable once built, and walks
/// one program tree per invocation without altering it.
pub struct EnforceDirectAccessTransformer {
    config_paths: Vec<String>,
}

impl EnforceDirectAccessTransformer {
    /// The watch-path set, as character sequences.
    pub closed spec fn watch_set(&self) -> Seq<Seq<char>> {
        seg_views(self.config_paths@)
    }

    /// Builds the pass from its configuration. The configured paths form a
    /// set: later duplicates are dropped, order of first occurrences is kept.
    pub fn new(config: PluginConfig) -> (t: Self)
        ensures
            t.watch_set() == dedup_first(seg_views(config.paths@)),
            t.watch_set().no_duplicates(),
            forall|p: Seq<char>|
                t.watch_set().contains(p) <==> seg_views(config.paths@).contains(p),
    {
        let ghost all = seg_views(config.paths@);
        let mut config_paths: Vec<String> = Vec::new();
        let mut i: usize = 0;
        while i < config.paths.len()
            invariant
                all == seg_views(config.paths@),
                all.len() == config.paths@.len(),
                0 <= i <= config.paths@.len(),
                seg_views(config_paths@) == dedup_first(all.take(i as int)),
            decreases config.paths@.len() - i,
        {
            proof {
                assert(all.take(i + 1).drop_last() =~= all.take(i as int));
                assert(all.take(i + 1).last() == all[i as int]);
                assert(all[i as int] == config.paths@[i as int]@);
                lemma_dedup_first_contains(all.take(i as int), all[i as int]);
            }
            if !contains_path(&config_paths, config.paths[i].as_str()) {
                let ghost before = seg_views(config_paths@);
                config_paths.push(config.paths[i].clone());
                proof {
                    assert(seg_views(config_paths@) =~= before.push(all[i as int]));
                }
            }
            i += 1;
        }
        proof {
            assert(all.take(config.paths@.len() as int) =~= all);
            lemma_dedup_first_no_duplicates(all);
            assert forall|p: Seq<char>| #[trigger]
                dedup_first(all).contains(p) <==> all.contains(p) by {
                lemma_dedup_first_contains(all, p);
            }
        }
        EnforceDirectAccessTransformer { config_paths }
    }

    /// Matches a resolved path against the watch set: the path itself on
    /// exact membership, otherwise the first watch path it extends at a dot
    /// boundary.
    pub fn match_config_path(&self, expr_path: &String) -> (r: Option<String>)
        ensures
            match r {
                Some(w) => match_result(expr_path@, self.watch_set()) == Some(w@),
                None => match_result(expr_path@, self.watch_set()) is None,
            },
    {
        let ghost ws = self.watch_set();
        if contains_path(&self.config_paths, expr_path.as_str()) {
            return Some(expr_path.clone());
        }
        let mut i: usize = 0;
        while i < self.config_paths.len()
            invariant
                ws == self.watch_set(),
                ws.len() == self.config_paths@.len(),
                !ws.contains(expr_path@),
                0 <= i <= self.config_paths@.len(),
                forall|k: int| 0 <= k < i ==> !path_matches(expr_path@, #[trigger] ws[k]),
            decreases self.config_paths@.len() - i,
        {
            if path_starts_with(expr_path.as_str(), self.config_paths[i].as_str()) {
                proof {
                    lemma_first_match_skip(expr_path@, ws, i as int);
                    assert(ws.skip(i as int)[0] == ws[i as int]);
                }
                return Some(self.config_paths[i].clone());
            }
            i += 1;
        }
        proof {
            lemma_first_match_skip(expr_path@, ws, ws.len() as int);
            assert(ws.skip(ws.len() as int) =~= Seq::<Seq<char>>::empty());
        }
        None
    }

    /// Examines one optional-chaining node: resolves its path and, when the
    /// path is tainted and matches a watch path, produces the
    /// `OptionalChaining` violation anchored at the node's span.
    pub fn handle_optional_chain_expr(&self, expr: &Expr, span: Span) -> (r: Option<Violation>)
        ensures
            match r {
                Some(v) => opt_chain_violation(self.watch_set(), *expr, span) == seq![v@],
                None => opt_chain_violation(self.watch_set(), *expr, span) == Seq::<
                    SpecViolation,
                >::empty(),
            },
    {
        match build_expression_path(expr) {
            Some(rp) => {
                if rp.has_optional {
                    let expr_path = join_dotted_path(&rp.segments);
                    match self.match_config_path(&expr_path) {
                        Some(matched_path) => {
                            let v = Violation {
                                kind: ViolationKind::OptionalChaining,
                                matched_watch_path: matched_path,
                                span,
                            };
                            proof {
                                assert(opt_chain_violation(self.watch_set(), *expr, span) =~= seq![
                                    v@,
                                ]);
                            }
                            Some(v)
                        },
                        None => None,
                    }
                } else {
                    None
                }
            },
            None => None,
        }
    }

    /// Examines one variable declarator with an object destructuring pattern:
    /// produces the `DestructuringWithOptional` violation when the tainted
    /// initializer is exactly a watch path, else one `Destructuring`
    /// violation per property whose combined path is exactly a watch path on
    /// an untainted initializer.
    pub fn handle_destructuring(&self, pat: &Pat, init: &Expr, span: Span) -> (r: Vec<Violation>)
        ensures
            vio_views(r@) == destructuring_violations(self.watch_set(), *pat, *init, span),
    {
        let ghost ws = self.watch_set();
        let mut out: Vec<Violation> = Vec::new();
        match pat {
            Pat::Object { props } => {
                match build_expression_path(init) {
                    Some(rp) => {
                        let has_optional = rp.has_optional;
                        let init_path = join_dotted_path(&rp.segments);
                        if has_optional && contains_path(&self.config_paths, init_path.as_str()) {
                            let v = Violation {
                                kind: ViolationKind::DestructuringWithOptional,
                                matched_watch_path: init_path,
                                span,
                            };
                            let ghost sv = v@;
                            out.push(v);
                            proof {
                                assert(vio_views(out@) =~= seq![sv]);
                            }
                        } else {
                            let ghost ipath = init_path@;
                            let mut i: usize = 0;
                            while i < props.len()
                                invariant
                                    ws == self.watch_set(),
                                    ipath == init_path@,
                                    0 <= i <= props@.len(),
                                    vio_views(out@) == props_violations(
                                        ws,
                                        ipath,
                                        has_optional,
                                        props@.take(i as int),
                                        span,
                                    ),
                                decreases props@.len() - i,
                            {
                                proof {
                                    assert(props@.take(i + 1).drop_last() =~= props@.take(i as int));
                                    assert(props@.take(i + 1).last() == props@[i as int]);
                                }
                                let key: Option<&String> = match &props[i] {
                                    ObjectProp::KeyValue { key } => match key {
                                        PropKey::Named { name } => Some(name),
                                        PropKey::Unsupported => None,
                                    },
                                    ObjectProp::Shorthand { name } => Some(name),
                                    ObjectProp::Other => None,
                                };
                                match key {
                                    Some(property_name) => {
                                        let mut full_path = init_path.clone();
                                        full_path.append(".");
                                        full_path.append(property_name.as_str());
                                        proof {
                                            reveal_strlit(".");
                                            assert("."@ =~= seq!['.']);
                                            assert(full_path@ == ipath + seq!['.']
                                                + property_name@);
                                        }
                                        if !has_optional && contains_path(
                                            &self.config_paths,
                                            full_path.as_str(),
                                        ) {
                                            let v = Violation {
                                                kind: ViolationKind::Destructuring,
                                                matched_watch_path: full_path,
                                                span,
                                            };
                                            let ghost before = vio_views(out@);
                                            let ghost sv = v@;
                                            out.push(v);
                                            proof {
                                                assert(vio_views(out@) =~= before + seq![sv]);
                                            }
                                        } else {
                                            proof {
                                                assert(vio_views(out@) =~= vio_views(out@)
                                                    + Seq::<SpecViolation>::empty());
                                            }
                                        }
                                    },
                                    None => {
                                        proof {
                                            assert(vio_views(out@) =~= vio_views(out@) + Seq::<
                                                SpecViolation,
                                            >::empty());
                                        }
                                    },
                                }
                                i += 1;
                            }
                            proof {
                                assert(props@.take(props@.len() as int) =~= props@);
                            }
                        }
                    },
                    None => {
                        proof {
                            assert(vio_views(out@) =~= Seq::<SpecViolation>::empty());
                        }
                    },
                }
            },
            Pat::Other => {
                proof {
                    assert(vio_views(out@) =~= Seq::<SpecViolation>::empty());
                }
            },
        }
        out
    }

    /// Walks one expression subtree, collecting its violations in order.
    pub fn visit_expr(&self, expr: &Expr, out: &mut Vec<Violation>)
        ensures
            vio_views(final(out)@) == vio_views(old(out)@) + expr_violations(
                self.watch_set(),
                *expr,
            ),
        decreases *expr,
    {
        let ghost ws = self.watch_set();
        let ghost base = vio_views(out@);
        match expr {
            Expr::Ident { .. } => {
                proof {
                    assert(vio_views(out@) =~= base + expr_violations(ws, *expr));
                }
            },
            Expr::MetaProp { .. } => {
                proof {
                    assert(vio_views(out@) =~= base + expr_violations(ws, *expr));
                }
            },
            Expr::Member { obj, prop } => {
                self.visit_expr(&**obj, out);
                self.visit_member_prop(prop, out);
                proof {
                    assert(vio_views(out@) =~= base + expr_violations(ws, *expr));
                }
            },
            Expr::OptMember { obj, prop, span } => {
                match self.handle_optional_chain_expr(expr, *span) {
                    Some(v) => {
                        let ghost sv = v@;
                        out.push(v);
                        proof {
                            assert(vio_views(out@) =~= base + seq![sv]);
                        }
                    },
                    None => {},
                }
                self.visit_expr(&**obj, out);
                self.visit_member_prop(prop, out);
                proof {
                    assert(vio_views(out@) =~= base + expr_violations(ws, *expr));
                }
            },
            Expr::OptCall { parts, span } => {
                match self.handle_optional_chain_expr(expr, *span) {
                    Some(v) => {
                        let ghost sv = v@;
                        out.push(v);
                        proof {
                            assert(vio_views(out@) =~= base + seq![sv]);
                        }
                    },
                    None => {},
                }
                self.visit_exprs(parts, out);
                proof {
                    assert(vio_views(out@) =~= base + expr_violations(ws, *expr));
                }
            },
            Expr::Other { children } => {
                self.visit_nodes(children, out);
                proof {
                    assert(vio_views(out@) =~= base + expr_violations(ws, *expr));
                }
            },
        }
    }

    /// Walks the property position of a member access: only a computed
    /// property holds a child expression.
    pub fn visit_member_prop(&self, prop: &MemberProp, out: &mut Vec<Violation>)
        ensures
            vio_views(final(out)@) == vio_views(old(out)@) + member_prop_violations(
                self.watch_set(),
                *prop,
            ),
        decreases *prop,
    {
        let ghost ws = self.watch_set();
        let ghost base = vio_views(out@);
        match prop {
            MemberProp::Named { .. } => {
                proof {
                    assert(vio_views(out@) =~= base + member_prop_violations(ws, *prop));
                }
            },
            MemberProp::Computed { index } => {
                self.visit_expr(&**index, out);
            },
        }
    }

    /// Walks a list of expressions left to right.
    pub fn visit_exprs(&self, exprs: &Vec<Expr>, out: &mut Vec<Violation>)
        ensures
            vio_views(final(out)@) == vio_views(old(out)@) + exprs_violations(
                self.watch_set(),
                exprs@,
            ),
        decreases exprs@,
    {
        let ghost ws = self.watch_set();
        let ghost base = vio_views(out@);
        let mut i: usize = 0;
        while i < exprs.len()
            invariant
                ws == self.watch_set(),
                0 <= i <= exprs@.len(),
                vio_views(out@) == base + exprs_violations(ws, exprs@.take(i as int)),
            decreases exprs@.len() - i,
        {
            proof {
                assert(exprs@.take(i + 1).drop_last() =~= exprs@.take(i as int));
                assert(exprs@.take(i + 1).last() == exprs@[i as int]);
            }
            self.visit_expr(&exprs[i], out);
            proof {
                assert(vio_views(out@) =~= base + exprs_violations(ws, exprs@.take(i + 1)));
            }
            i += 1;
        }
        proof {
            assert(exprs@.take(exprs@.len() as int) =~= exprs@);
        }
    }

    /// Walks one node: a declarator is first examined as a destructuring,
    /// then its initializer subtree is traversed.
    pub fn visit_node(&self, node: &Node, out: &mut Vec<Violation>)
        ensures
            vio_views(final(out)@) == vio_views(old(out)@) + node_violations(
                self.watch_set(),
                *node,
            ),
        decreases *node,
    {
        let ghost ws = self.watch_set();
        let ghost base = vio_views(out@);
        match node {
            Node::Expr { expr } => {
                self.visit_expr(expr, out);
            },
            Node::Decl { decl } => {
                match &decl.init {
                    Some(init) => {
                        let mut found = self.handle_destructuring(&decl.name, init, decl.span);
                        let ghost dvs = vio_views(found@);
                        out.append(&mut found);
                        proof {
                            assert(vio_views(out@) =~= base + dvs);
                        }
                        self.visit_expr(init, out);
                        proof {
                            assert(vio_views(out@) =~= base + node_violations(ws, *node));
                        }
                    },
                    None => {
                        proof {
                            assert(vio_views(out@) =~= base + node_violations(ws, *node));
                        }
                    },
                }
            },
        }
    }

    /// Walks a list of nodes left to right.
    pub fn visit_nodes(&self, nodes: &Vec<Node>, out: &mut Vec<Violation>)
        ensures
            vio_views(final(out)@) == vio_views(old(out)@) + nodes_violations(
                self.watch_set(),
                nodes@,
            ),
        decreases nodes@,
    {
        let ghost ws = self.watch_set();
        let ghost base = vio_views(out@);
        let mut i: usize = 0;
        while i < nodes.len()
            invariant
                ws == self.watch_set(),
                0 <= i <= nodes@.len(),
                vio_views(out@) == base + nodes_violations(ws, nodes@.take(i as int)),
            decreases nodes@.len() - i,
        {
            proof {
                assert(nodes@.take(i + 1).drop_last() =~= nodes@.take(i as int));
                assert(nodes@.take(i + 1).last() == nodes@[i as int]);
            }
            self.visit_node(&nodes[i], out);
            proof {
                assert(vio_views(out@) =~= base + nodes_violations(ws, nodes@.take(i + 1)));
            }
            i += 1;
        }
        proof {
            assert(nodes@.take(nodes@.len() as int) =~= nodes@);
        }
    }

    /// Walks one whole program tree and returns every violation found, in
    /// traversal order. The tree is only read, never altered, and a found
    /// violation never stops the walk.
    pub fn run(&self, program: &Program) -> (r: Vec<Violation>)
        ensures
            vio_views(r@) == program_violations(self.watch_set(), *program),
    {
        let mut out: Vec<Violation> = Vec::new();
        proof {
            assert(vio_views(out@) =~= Seq::<SpecViolation>::empty());
        }
        self.visit_nodes(&program.body, &mut out);
        proof {
            assert(Seq::<SpecViolation>::empty() + nodes_violations(
                self.watch_set(),
                program.body@,
            ) =~= nodes_violations(self.watch_set(), program.body@));
        }
        out
    }
}

/// The whole pass over one program: validates the configuration, failing fast
/// on an empty watch-path list before any traversal, then walks the tree and
/// returns the violations found.
pub fn run_pass(config: PluginConfig, program: &Program) -> (r: Result<Vec<Violation>, String>)
    ensures
        r is Err <==> config.paths@.len() == 0,
        r matches Err(m) ==> m@ == empty_paths_message(),
        r matches Ok(vs) ==> vio_views(vs@) == program_violations(
            dedup_first(seg_views(config.paths@)),
            *program,
        ),
{
    match config.validate() {
        Err(m) => Err(m),
        Ok(()) => {
            let transformer = EnforceDirectAccessTransformer::new(config);
            Ok(transformer.run(program))
        },
    }
}

/// The pass is deterministic: two runs over the same watch set and program
/// yield identical violation sequences. In particular, an input that produced
/// no violations produces none again when the pass runs a second time.
pub proof fn lemma_pass_idempotent(
    ws: Seq<Seq<char>>,
    program: Program,
    first_run: Seq<SpecViolation>,
    second_run: Seq<SpecViolation>,
)
    requires
        first_run == program_violations(ws, program),
        second_run == program_violations(ws, program),
    ensures
        first_run == second_run,
        first_run.len() == 0 ==> second_run == Seq::<SpecViolation>::empty(),
{
    assert(first_run.len() == 0 ==> first_run =~= Seq::<SpecViolation>::empty());
}

} // verus!

