//! The asset path resolver: turns an include string, together with the
//! including file's path, into the fully qualified path of the target.
//!
//! Three include forms, in priority order: `namespace::path` is an
//! absolute cross-namespace reference; `/path` is relative to the root of
//! the including file's namespace; anything else is relative to the
//! including file's directory, with `.` and `..` components collapsed.

use vstd::prelude::*;
use vstd::string::StrSliceExecFns;
use vstd::string::StringExecFns;

verus! {

broadcast use vstd::std_specs::vec::group_vec_axioms;

/// A fully qualified asset identifier: a namespace and a path inside it.
#[derive(Clone, Debug)]
pub struct AssetPath {
    pub crate_name: String,
    pub asset_name: String,
}

/// The first position at or after `i` where `::` occurs.
pub open spec fn find_sep_from(s: Seq<char>, i: int) -> Option<int>
    decreases s.len() - i,
{
    if i < 0 || i + 2 > s.len() {
        None
    } else if s[i] == ':' && s[i + 1] == ':' {
        Some(i)
    } else {
        find_sep_from(s, i + 1)
    }
}

/// The first position at or after `i` holding `/`.
pub open spec fn find_slash_from(s: Seq<char>, i: int) -> Option<int>
    decreases s.len() - i,
{
    if i < 0 || i >= s.len() {
        None
    } else if s[i] == '/' {
        Some(i)
    } else {
        find_slash_from(s, i + 1)
    }
}

/// The `/`-separated components of a path from position `i` on.
pub open spec fn split_from(s: Seq<char>, i: int) -> Seq<Seq<char>>
    decreases s.len() - i,
{
    if i < 0 || i > s.len() {
        Seq::empty()
    } else {
        match find_slash_from(s, i) {
            Some(j) => if i <= j < s.len() {
                seq![s.subrange(i, j)] + split_from(s, j + 1)
            } else {
                Seq::empty()
            },
            None => seq![s.subrange(i, s.len() as int)],
        }
    }
}


/// The `/`-separated components of a path; none for the empty path.
pub open spec fn split_components(s: Seq<char>) -> Seq<Seq<char>> {
    if s.len() == 0 {
        Seq::empty()
    } else {
        split_from(s, 0)
    }
}

/// One normalization step: empty and `.` components vanish; `..` removes
/// the component before it where one can be removed, and is kept where
/// nothing stands before it.
pub open spec fn normalize_step(acc: Seq<Seq<char>>, c: Seq<char>) -> Seq<Seq<char>> {
    if c.len() == 0 || c == "."@ {
        acc
    } else if c == ".."@ {
        if acc.len() > 0 && acc.last() != ".."@ {
            acc.drop_last()
        } else {
            acc.push(c)
        }
    } else {
        acc.push(c)
    }
}

/// Normalization of a component sequence, in order.
pub open spec fn normalize_components(cs: Seq<Seq<char>>) -> Seq<Seq<char>>
    decreases cs.len(),
{
    if cs.len() == 0 {
        Seq::empty()
    } else {
        normalize_step(normalize_components(cs.drop_last()), cs.last())
    }
}

/// Components joined back with `/`.
pub open spec fn join_components(cs: Seq<Seq<char>>) -> Seq<char>
    decreases cs.len(),
{
    if cs.len() == 0 {
        Seq::empty()
    } else if cs.len() == 1 {
        cs[0]
    } else {
        join_components(cs.drop_last()) + seq!['/'] + cs.last()
    }
}

/// The directory components of a path: its components without the last
/// one, the file name.
pub open spec fn dir_components(s: Seq<char>) -> Seq<Seq<char>> {
    if split_components(s).len() == 0 {
        Seq::empty()
    } else {
        split_components(s).drop_last()
    }
}

/// Where an include string leads, from the including file's namespace and
/// path: the namespace of the target and the target's path.
pub open spec fn resolve_include_spec(
    path: Seq<char>,
    ctx_crate: Seq<char>,
    ctx_asset: Seq<char>,
) -> (Seq<char>, Seq<char>) {
    match find_sep_from(path, 0) {
        Some(i) => (path.subrange(0, i), path.subrange(i + 2, path.len() as int)),
        None => {
            if path.len() > 0 && path[0] == '/' {
                (ctx_crate, path.subrange(1, path.len() as int))
            } else {
                (
                    ctx_crate,
                    join_components(
                        normalize_components(dir_components(ctx_asset) + split_components(path)),
                    ),
                )
            }
        },
    }
}

/// Finds the first `::` in `s`.
fn find_namespace_sep(s: &str) -> (r: Option<usize>)
    ensures
        match r {
            Some(i) => find_sep_from(s@, 0) == Some(i as int),
            None => find_sep_from(s@, 0) is None,
        },
{
    let n = s.unicode_len();
    if n < 2 {
        return None;
    }
    let mut i: usize = 0;
    while i < n - 1
        invariant
            0 <= i <= n - 1,
            2 <= n == s@.len(),
            find_sep_from(s@, i as int) == find_sep_from(s@, 0),
        decreases n - i,
    {
        if s.get_char(i) == ':' && s.get_char(i + 1) == ':' {
            return Some(i);
        }
        i = i + 1;
    }
    None
}

/// A found separator lies in range, with room for both colons.
pub proof fn lemma_find_sep_bounds(s: Seq<char>, i: int)
    ensures
        find_sep_from(s, i) matches Some(j) ==> i <= j && j + 2 <= s.len(),
    decreases s.len() - i,
{
    if !(i < 0 || i + 2 > s.len()) {
        lemma_find_sep_bounds(s, i + 1);
    }
}

pub open spec fn comps_model(cs: Seq<String>) -> Seq<Seq<char>> {
    cs.map_values(|c: String| c@)
}

/// Splits a path into its `/`-separated components.
fn split_path(s: &str) -> (r: Vec<String>)
    ensures
        comps_model(r@) == split_components(s@),
{
    let mut out: Vec<String> = Vec::new();
    let n = s.unicode_len();
    if n == 0 {
        proof {
            assert(comps_model(out@) =~= split_components(s@));
        }
        return out;
    }
    let mut start: usize = 0;
    let mut i: usize = 0;
    proof {
        assert(comps_model(out@) + split_from(s@, 0) =~= split_from(s@, 0));
    }
    while i < n
        invariant
            0 <= start <= i <= n,
            n == s@.len(),
            n > 0,
            comps_model(out@) + split_from(s@, start as int) == split_components(s@),
            find_slash_from(s@, start as int) == find_slash_from(s@, i as int),
        decreases n - i,
    {
        if s.get_char(i) == '/' {
            let ghost out0 = out@;
            let c = String::from_str(s.substring_char(start, i));
            out.push(c);
            proof {
                assert(find_slash_from(s@, i as int) == Some(i as int));
                assert(comps_model(out@) =~= comps_model(out0).push(s@.subrange(
                    start as int,
                    i as int,
                )));
                assert(comps_model(out@) + split_from(s@, i as int + 1) =~= comps_model(out0)
                    + split_from(s@, start as int));
            }
            start = i + 1;
        }
        i = i + 1;
    }
    let ghost out0 = out@;
    let c = String::from_str(s.substring_char(start, n));
    out.push(c);
    proof {
        assert(find_slash_from(s@, start as int) is None);
        assert(comps_model(out@) =~= comps_model(out0).push(s@.subrange(start as int, n as int)));
        assert(comps_model(out@) =~= comps_model(out0) + split_from(s@, start as int));
    }
    out
}

/// Collapses `.` and `..` components, in order.
fn normalize_stack(comps: &Vec<String>) -> (r: Vec<String>)
    ensures
        comps_model(r@) == normalize_components(comps_model(comps@)),
{
    let ghost cm = comps_model(comps@);
    let mut out: Vec<String> = Vec::new();
    let n = comps.len();
    let mut i: usize = 0;
    proof {
        assert(cm.take(0) =~= Seq::<Seq<char>>::empty());
        assert(comps_model(out@) =~= normalize_components(cm.take(0)));
    }
    while i < n
        invariant
            0 <= i <= n,
            n == comps.len(),
            cm == comps_model(comps@),
            comps_model(out@) == normalize_components(cm.take(i as int)),
        decreases n - i,
    {
        proof {
            assert(cm.take(i as int + 1).drop_last() =~= cm.take(i as int));
            assert(cm.take(i as int + 1).last() == cm[i as int]);
        }
        let c = &comps[i];
        let dot = String::from_str(".");
        let dotdot = String::from_str("..");
        let ghost out0 = out@;
        if c.as_str().is_empty() || *c == dot {
        } else if *c == dotdot {
            let len = out.len();
            let mut popped = false;
            if len > 0 {
                if !(out[len - 1] == dotdot) {
                    let _ = out.pop();
                    popped = true;
                }
            }
            if !popped {
                out.push(c.clone());
            }
            proof {
                if out0.len() > 0 && comps_model(out0).last() != ".."@ {
                    assert(comps_model(out@) =~= comps_model(out0).drop_last());
                } else {
                    assert(comps_model(out@) =~= comps_model(out0).push(cm[i as int]));
                }
            }
        } else {
            out.push(c.clone());
            proof {
                assert(comps_model(out@) =~= comps_model(out0).push(cm[i as int]));
            }
        }
        i = i + 1;
    }
    proof {
        assert(cm.take(n as int) =~= cm);
    }
    out
}

/// Joins components back with `/`.
fn join_stack(comps: &Vec<String>) -> (r: String)
    ensures
        r@ == join_components(comps_model(comps@)),
{
    let ghost cm = comps_model(comps@);
    let n = comps.len();
    if n == 0 {
        return String::new();
    }
    let mut r = comps[0].clone();
    let mut i: usize = 1;
    proof {
        assert(cm.take(1) =~= seq![cm[0]]);
        assert(r@ == join_components(cm.take(1)));
    }
    while i < n
        invariant
            1 <= i <= n,
            n == comps.len(),
            cm == comps_model(comps@),
            r@ == join_components(cm.take(i as int)),
        decreases n - i,
    {
        proof {
            assert(cm.take(i as int + 1).drop_last() =~= cm.take(i as int));
            assert(cm.take(i as int + 1).last() == cm[i as int]);
        }
        r.append("/");
        r.append(comps[i].as_str());
        proof {
            reveal_strlit("/");
            assert("/"@ =~= seq!['/']);
            assert(r@ =~= join_components(cm.take(i as int)) + seq!['/'] + cm[i as int]);
        }
        i = i + 1;
    }
    proof {
        assert(cm.take(n as int) =~= cm);
    }
    r
}

/// Resolves an include string against the including file's path.
pub fn resolve_include(path: &str, context: &AssetPath) -> (r: AssetPath)
    ensures
        r.crate_name@ == resolve_include_spec(path@, context.crate_name@, context.asset_name@).0,
        r.asset_name@ == resolve_include_spec(path@, context.crate_name@, context.asset_name@).1,
{
    proof {
        lemma_find_sep_bounds(path@, 0);
    }
    let n = path.unicode_len();
    match find_namespace_sep(path) {
        Some(i) => AssetPath {
            crate_name: String::from_str(path.substring_char(0, i)),
            asset_name: String::from_str(path.substring_char(i + 2, n)),
        },
        None => {
            if n > 0 && path.get_char(0) == '/' {
                AssetPath {
                    crate_name: context.crate_name.clone(),
                    asset_name: String::from_str(path.substring_char(1, n)),
                }
            } else {
                let mut comps = split_path(context.asset_name.as_str());
                let ghost split_ctx = comps_model(comps@);
                if comps.len() > 0 {
                    let _ = comps.pop();
                }
                proof {
                    assert(comps_model(comps@) =~= dir_components(context.asset_name@));
                }
                let mut pcs = split_path(path);
                let ghost dirm = comps_model(comps@);
                let ghost pm = comps_model(pcs@);
                comps.append(&mut pcs);
                proof {
                    assert(comps_model(comps@) =~= dirm + pm);
                }
                let stack = normalize_stack(&comps);
                let joined = join_stack(&stack);
                AssetPath { crate_name: context.crate_name.clone(), asset_name: joined }
            }
        },
    }
}

} // verus!
