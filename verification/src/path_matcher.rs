//! Matching a canonical dotted path against the configured watch paths.
//!
//! A path matches a watch path when it is equal to it, or extends it at a dot
//! boundary: `"process.env.API"` matches the watch path `"process.env"`, while
//! `"process.environment"` does not.

use crate::ast::seg_views;
use vstd::prelude::*;

verus! {

/// `path` extends `prefix` at a dot boundary: it is strictly longer, starts
/// with `prefix`, and the next character is a `.`.
pub open spec fn dot_prefixed(path: Seq<char>, prefix: Seq<char>) -> bool {
    &&& path.len() > prefix.len()
    &&& path.take(prefix.len() as int) == prefix
    &&& path[prefix.len() as int] == '.'
}

/// `path` is the watch path `w` itself or a dot-boundary extension of it.
pub open spec fn path_matches(path: Seq<char>, w: Seq<char>) -> bool {
    path == w || dot_prefixed(path, w)
}

/// The first watch path in `ws` that `path` matches, scanning in order.
pub open spec fn first_match(path: Seq<char>, ws: Seq<Seq<char>>) -> Option<Seq<char>>
    decreases ws.len(),
{
    if ws.len() == 0 {
        None::<Seq<char>>
    } else if path_matches(path, ws[0]) {
        Some(ws[0])
    } else {
        first_match(path, ws.drop_first())
    }
}

/// What matching `path` against the watch set `ws` returns: the path itself on
/// exact membership, otherwise the first watch path it extends at a dot
/// boundary. Which of several overlapping watch paths is returned in the
/// second case is an accepted ambiguity of the configuration; this spec fixes
/// it to scan order.
pub open spec fn match_result(path: Seq<char>, ws: Seq<Seq<char>>) -> Option<Seq<char>> {
    if ws.contains(path) {
        Some(path)
    } else {
        first_match(path, ws)
    }
}

/// A match exists exactly when some watch path is matched.
pub proof fn lemma_first_match_exists(path: Seq<char>, ws: Seq<Seq<char>>)
    ensures
        first_match(path, ws) is Some <==> exists|i: int|
            0 <= i < ws.len() && path_matches(path, ws[i]),
        first_match(path, ws) matches Some(w) ==> ws.contains(w) && path_matches(path, w),
    decreases ws.len(),
{
    if ws.len() > 0 {
        if path_matches(path, ws[0]) {
        } else {
            lemma_first_match_exists(path, ws.drop_first());
            if first_match(path, ws.drop_first()) is Some {
                let i = choose|i: int|
                    0 <= i < ws.drop_first().len() && path_matches(path, ws.drop_first()[i]);
                assert(ws[i + 1] == ws.drop_first()[i]);
            }
            if exists|i: int| 0 <= i < ws.len() && path_matches(path, ws[i]) {
                let i = choose|i: int| 0 <= i < ws.len() && path_matches(path, ws[i]);
                assert(ws.drop_first()[i - 1] == ws[i]);
            }
        }
    }
}

/// If nothing among the first `n` watch paths matches, the first match over
/// the whole sequence is the first match past `n`.
pub proof fn lemma_first_match_skip(path: Seq<char>, ws: Seq<Seq<char>>, n: int)
    requires
        0 <= n <= ws.len(),
        forall|k: int| 0 <= k < n ==> !path_matches(path, #[trigger] ws[k]),
    ensures
        first_match(path, ws) == first_match(path, ws.skip(n)),
    decreases n,
{
    if n == 0 {
        assert(ws.skip(0) =~= ws);
    } else {
        assert(!path_matches(path, ws[0]));
        assert forall|k: int| 0 <= k < n - 1 implies !path_matches(
            path,
            #[trigger] ws.drop_first()[k],
        ) by {
            assert(ws.drop_first()[k] == ws[k + 1]);
        }
        lemma_first_match_skip(path, ws.drop_first(), n - 1);
        assert(ws.drop_first().skip(n - 1) =~= ws.skip(n));
    }
}

/// Character-by-character string equality, specified over the string views.
pub fn str_equal(a: &str, b: &str) -> (r: bool)
    ensures
        r == (a@ == b@),
{
    let a_len = a.unicode_len();
    let b_len = b.unicode_len();
    if a_len != b_len {
        return false;
    }
    let mut i: usize = 0;
    while i < a_len
        invariant
            a_len == a@.len(),
            b_len == b@.len(),
            a_len == b_len,
            0 <= i <= a_len,
            forall|k: int| 0 <= k < i ==> a@[k] == b@[k],
        decreases a_len - i,
    {
        if a.get_char(i) != b.get_char(i) {
            return false;
        }
        i += 1;
    }
    proof {
        assert(a@ =~= b@);
    }
    true
}

/// Exact set membership of a path among the watch paths.
pub fn contains_path(paths: &Vec<String>, p: &str) -> (r: bool)
    ensures
        r == seg_views(paths@).contains(p@),
{
    let ghost ws = seg_views(paths@);
    let mut i: usize = 0;
    while i < paths.len()
        invariant
            ws == seg_views(paths@),
            ws.len() == paths@.len(),
            0 <= i <= paths@.len(),
            forall|k: int| 0 <= k < i ==> ws[k] != p@,
        decreases paths@.len() - i,
    {
        if str_equal(paths[i].as_str(), p) {
            proof {
                assert(ws[i as int] == p@);
            }
            return true;
        }
        i += 1;
    }
    proof {
        if ws.contains(p@) {
            let j = choose|j: int| 0 <= j < ws.len() && ws[j] == p@;
            assert(false);
        }
    }
    false
}

/// Whether `full_path` is `prefix` itself or extends it at a dot boundary.
pub fn path_starts_with(full_path: &str, prefix: &str) -> (r: bool)
    ensures
        r == path_matches(full_path@, prefix@),
{
    let full_len = full_path.unicode_len();
    let prefix_len = prefix.unicode_len();
    if full_len == prefix_len {
        return str_equal(full_path, prefix);
    }
    if full_len < prefix_len {
        return false;
    }
    let mut i: usize = 0;
    while i < prefix_len
        invariant
            full_len == full_path@.len(),
            prefix_len == prefix@.len(),
            prefix_len < full_len,
            0 <= i <= prefix_len,
            forall|k: int| 0 <= k < i ==> full_path@[k] == prefix@[k],
        decreases prefix_len - i,
    {
        if full_path.get_char(i) != prefix.get_char(i) {
            proof {
                assert(full_path@.take(prefix@.len() as int)[i as int] != prefix@[i as int]);
            }
            return false;
        }
        i += 1;
    }
    let dotted = full_path.get_char(prefix_len) == '.';
    proof {
        if dotted {
            assert(full_path@.take(prefix@.len() as int) =~= prefix@);
        } else {
            assert(full_path@ != prefix@);
        }
    }
    dotted
}

} // verus!
