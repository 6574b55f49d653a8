//! Reconstructing a canonical dotted path from an access expression.
//!
//! Resolution unwinds the expression from its outermost access inward,
//! prepending each discovered segment until a terminal node (an identifier or
//! a meta-property) is reached. A single optional-chaining link anywhere in
//! the chain taints the whole resolved path. Computed properties,
//! optional-chaining calls and unrecognized node kinds fail resolution: they
//! are not statically trackable paths, which is a miss, not an error.

use crate::ast::{seg_views, Expr, MemberProp, MetaKind, Span};
use vstd::prelude::*;

verus! {

/// A canonical dotted path reconstructed from an access expression: the
/// ordered segments, never empty on success, plus whether any link in the
/// chain used optional chaining.
pub struct ResolvedPath {
    pub segments: Vec<String>,
    pub has_optional: bool,
}

impl ResolvedPath {
    /// The canonical string form: the segments joined by `.`.
    pub open spec fn joined(&self) -> Seq<char> {
        join_dotted(seg_views(self.segments@))
    }
}

/// The segments joined by a `.` between each adjacent pair.
pub open spec fn join_dotted(segs: Seq<Seq<char>>) -> Seq<char>
    decreases segs.len(),
{
    if segs.len() == 0 {
        Seq::empty()
    } else if segs.len() == 1 {
        segs[0]
    } else {
        join_dotted(segs.drop_last()) + seq!['.'] + segs.last()
    }
}

/// What resolution returns on an expression: the path segments and the
/// optional-chaining taint, or nothing when the expression is not a
/// statically trackable path.
pub open spec fn resolve_spec(e: Expr) -> Option<(Seq<Seq<char>>, bool)>
    decreases e,
{
    match e {
        Expr::Ident { name } => Some((seq![name@], false)),
        Expr::MetaProp { kind } => match kind {
            MetaKind::ImportMeta => Some((seq!["import"@, "meta"@], false)),
            MetaKind::NewTarget => Some((seq!["new"@, "target"@], false)),
        },
        Expr::Member { obj, prop } => match prop {
            MemberProp::Named { name } => match resolve_spec(*obj) {
                Some(r) => Some((r.0.push(name@), r.1)),
                None => None,
            },
            MemberProp::Computed { .. } => None,
        },
        Expr::OptMember { obj, prop, .. } => match prop {
            MemberProp::Named { name } => match resolve_spec(*obj) {
                Some(r) => Some((r.0.push(name@), true)),
                None => None,
            },
            MemberProp::Computed { .. } => None,
        },
        Expr::OptCall { .. } => None,
        Expr::Other { .. } => None,
    }
}

/// Resolution never returns an empty segment list.
pub proof fn lemma_resolve_nonempty(e: Expr)
    ensures
        resolve_spec(e) matches Some(r) ==> r.0.len() > 0,
    decreases e,
{
    match e {
        Expr::Member { obj, prop } => lemma_resolve_nonempty(*obj),
        Expr::OptMember { obj, prop, .. } => lemma_resolve_nonempty(*obj),
        _ => {},
    }
}

/// Wrapping a resolvable expression in a plain member access appends the
/// property segment and keeps the taint exactly as it was: a plain link never
/// clears an optional taint set further in.
pub proof fn lemma_member_keeps_taint(
    obj: Box<Expr>,
    name: String,
    segs: Seq<Seq<char>>,
    opt: bool,
)
    requires
        resolve_spec(*obj) == Some((segs, opt)),
    ensures
        resolve_spec(Expr::Member { obj, prop: MemberProp::Named { name } }) == Some(
            (segs.push(name@), opt),
        ),
{
}

/// Wrapping a resolvable expression in an optional-chaining member access
/// appends the property segment and taints the whole resolved path, wherever
/// in the chain the optional link stands.
pub proof fn lemma_opt_member_taints(
    obj: Box<Expr>,
    name: String,
    span: Span,
    segs: Seq<Seq<char>>,
    opt: bool,
)
    requires
        resolve_spec(*obj) == Some((segs, opt)),
    ensures
        resolve_spec(Expr::OptMember { obj, prop: MemberProp::Named { name }, span }) == Some(
            (segs.push(name@), true),
        ),
{
}

/// Builds the dotted path of an access expression, outermost access inward,
/// together with the optional-chaining taint. Returns nothing on computed
/// properties, optional-chaining calls and unrecognized expressions.
pub fn build_expression_path(expr: &Expr) -> (r: Option<ResolvedPath>)
    ensures
        match r {
            Some(rp) => resolve_spec(*expr) == Some((seg_views(rp.segments@), rp.has_optional)),
            None => resolve_spec(*expr) is None,
        },
    decreases *expr,
{
    match expr {
        Expr::Ident { name } => {
            let mut segments: Vec<String> = Vec::new();
            segments.push(name.clone());
            proof {
                assert(seg_views(segments@) =~= seq![name@]);
            }
            Some(ResolvedPath { segments, has_optional: false })
        },
        Expr::MetaProp { kind } => {
            let mut segments: Vec<String> = Vec::new();
            match kind {
                MetaKind::ImportMeta => {
                    segments.push(String::from_str("import"));
                    segments.push(String::from_str("meta"));
                    proof {
                        assert(seg_views(segments@) =~= seq!["import"@, "meta"@]);
                    }
                },
                MetaKind::NewTarget => {
                    segments.push(String::from_str("new"));
                    segments.push(String::from_str("target"));
                    proof {
                        assert(seg_views(segments@) =~= seq!["new"@, "target"@]);
                    }
                },
            }
            Some(ResolvedPath { segments, has_optional: false })
        },
        Expr::Member { obj, prop } => match prop {
            MemberProp::Named { name } => match build_expression_path(obj) {
                Some(mut rp) => {
                    let ghost old_segs = seg_views(rp.segments@);
                    rp.segments.push(name.clone());
                    proof {
                        assert(seg_views(rp.segments@) =~= old_segs.push(name@));
                    }
                    Some(rp)
                },
                None => None,
            },
            MemberProp::Computed { .. } => None,
        },
        Expr::OptMember { obj, prop, .. } => match prop {
            MemberProp::Named { name } => match build_expression_path(obj) {
                Some(mut rp) => {
                    let ghost old_segs = seg_views(rp.segments@);
                    rp.segments.push(name.clone());
                    rp.has_optional = true;
                    proof {
                        assert(seg_views(rp.segments@) =~= old_segs.push(name@));
                    }
                    Some(rp)
                },
                None => None,
            },
            MemberProp::Computed { .. } => None,
        },
        Expr::OptCall { .. } => None,
        Expr::Other { .. } => None,
    }
}

/// Joins path segments into the canonical dotted string.
pub fn join_dotted_path(segments: &Vec<String>) -> (r: String)
    ensures
        r@ == join_dotted(seg_views(segments@)),
{
    let ghost all = seg_views(segments@);
    let mut out = String::new();
    let mut i: usize = 0;
    while i < segments.len()
        invariant
            all == seg_views(segments@),
            all.len() == segments@.len(),
            0 <= i <= segments@.len(),
            out@ == join_dotted(all.take(i as int)),
        decreases segments@.len() - i,
    {
        proof {
            assert(all[i as int] == segments@[i as int]@);
            assert(all.take(i + 1).drop_last() =~= all.take(i as int));
            assert(all.take(i + 1).last() == all[i as int]);
        }
        if i > 0 {
            out.append(".");
            proof {
                reveal_strlit(".");
                assert("."@ =~= seq!['.']);
            }
        } else {
            proof {
                assert(all.take(1)[0] == all[0]);
            }
        }
        out.append(segments[i].as_str());
        i += 1;
    }
    proof {
        assert(all.take(segments@.len() as int) =~= all);
    }
    out
}

} // verus!
