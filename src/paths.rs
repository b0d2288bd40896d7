//! Path text: final segments, parents, and the report on a path that does
//! not resolve.
use vstd::prelude::*;
use vstd::string::*;

verus! {

/// The position just past the last non-`/` character among the first `k`
/// characters of `p` (0 when they are all slashes).
pub open spec fn slash_free_end(p: Seq<char>, k: nat) -> nat
    decreases k,
{
    if k > 0 && k <= p.len() && p[k - 1] == '/' {
        slash_free_end(p, (k - 1) as nat)
    } else {
        k
    }
}

/// The start of the run of non-`/` characters that ends at position `k`.
pub open spec fn segment_start(p: Seq<char>, k: nat) -> nat
    decreases k,
{
    if k > 0 && k <= p.len() && p[k - 1] != '/' {
        segment_start(p, (k - 1) as nat)
    } else {
        k
    }
}

/// The last segment of a path, trailing slashes ignored (empty for the root).
pub open spec fn final_segment(p: Seq<char>) -> Seq<char> {
    let e = slash_free_end(p, p.len());
    p.subrange(segment_start(p, e) as int, e as int)
}

proof fn lemma_slash_free_end_bound(p: Seq<char>, k: nat)
    requires
        k <= p.len(),
    ensures
        slash_free_end(p, k) <= k,
    decreases k,
{
    if k > 0 && p[k - 1] == '/' {
        lemma_slash_free_end_bound(p, (k - 1) as nat);
    }
}

proof fn lemma_segment_start_bound(p: Seq<char>, k: nat)
    requires
        k <= p.len(),
    ensures
        segment_start(p, k) <= k,
    decreases k,
{
    if k > 0 && p[k - 1] != '/' {
        lemma_segment_start_bound(p, (k - 1) as nat);
    }
}

/// Position past the last non-`/` character among the first `k` of `p`.
fn find_slash_free_end(p: &str, k: usize) -> (r: usize)
    requires
        k <= p@.len(),
    ensures
        r == slash_free_end(p@, k as nat),
{
    let mut e = k;
    while e > 0 && p.get_char(e - 1) == '/'
        invariant
            e <= k <= p@.len(),
            slash_free_end(p@, e as nat) == slash_free_end(p@, k as nat),
        decreases e,
    {
        e = e - 1;
    }
    e
}

/// Start of the run of non-`/` characters that ends at position `k` of `p`.
fn find_segment_start(p: &str, k: usize) -> (r: usize)
    requires
        k <= p@.len(),
    ensures
        r == segment_start(p@, k as nat),
{
    let mut s = k;
    while s > 0 && p.get_char(s - 1) != '/'
        invariant
            s <= k <= p@.len(),
            segment_start(p@, s as nat) == segment_start(p@, k as nat),
        decreases s,
    {
        s = s - 1;
    }
    s
}

/// The last segment of the path `p`.
pub fn final_segment_of(p: &str) -> (r: &str)
    ensures
        r@ == final_segment(p@),
{
    let n = p.unicode_len();
    let e = find_slash_free_end(p, n);
    proof {
        lemma_slash_free_end_bound(p@, n as nat);
    }
    let s = find_segment_start(p, e);
    proof {
        lemma_segment_start_bound(p@, e as nat);
    }
    p.substring_char(s, e)
}

proof fn lemma_slash_free_end_last(p: Seq<char>, k: nat)
    requires
        k <= p.len(),
        slash_free_end(p, k) > 0,
    ensures
        p[slash_free_end(p, k) - 1] != '/',
    decreases k,
{
    if k > 0 && p[k - 1] == '/' {
        lemma_slash_free_end_last(p, (k - 1) as nat);
    }
}

/// The parent of a path: the path without its last segment. The root, and
/// a relative path of a single segment, have none.
pub open spec fn parent_path(p: Seq<char>) -> Option<Seq<char>> {
    let e = slash_free_end(p, p.len());
    let s = segment_start(p, e);
    let pe = slash_free_end(p, s);
    if e == 0 {
        None
    } else if pe > 0 {
        Some(p.subrange(0, pe as int))
    } else if s > 0 {
        Some(seq!['/'])
    } else {
        None
    }
}

/// A parent is shorter than its child.
pub proof fn lemma_parent_shorter(p: Seq<char>)
    ensures
        parent_path(p) matches Some(q) ==> q.len() < p.len(),
{
    let e = slash_free_end(p, p.len());
    lemma_slash_free_end_bound(p, p.len());
    if e > 0 {
        lemma_slash_free_end_last(p, p.len());
        lemma_segment_start_bound(p, (e - 1) as nat);
        let s = segment_start(p, e);
        lemma_slash_free_end_bound(p, s);
    }
}

#[via_fn]
proof fn ancestors_decreases(p: Seq<char>) {
    lemma_parent_shorter(p);
}

/// The ancestors of a path, its parent first and the root (if any) last.
pub open spec fn ancestors(p: Seq<char>) -> Seq<Seq<char>>
    decreases p.len(),
    via ancestors_decreases
{
    match parent_path(p) {
        Some(q) => seq![q] + ancestors(q),
        None => Seq::empty(),
    }
}

/// The parent of the path `p`, if it has one.
pub fn parent_of(p: &str) -> (r: Option<String>)
    ensures
        r matches Some(q) ==> parent_path(p@) == Some(q@),
        r is None ==> parent_path(p@) is None,
{
    let n = p.unicode_len();
    let e = find_slash_free_end(p, n);
    proof {
        lemma_slash_free_end_bound(p@, n as nat);
    }
    let s = find_segment_start(p, e);
    proof {
        lemma_segment_start_bound(p@, e as nat);
    }
    let pe = find_slash_free_end(p, s);
    proof {
        lemma_slash_free_end_bound(p@, s as nat);
    }
    if e == 0 {
        None
    } else if pe > 0 {
        Some(p.substring_char(0, pe).to_owned())
    } else if s > 0 {
        let root = String::from_str("/");
        proof {
            reveal_strlit("/");
        }
        assert(root@ =~= seq!['/']);
        Some(root)
    } else {
        None
    }
}

/// The ancestors of the path `p`, its parent first.
pub fn ancestors_of(p: &str) -> (r: Vec<String>)
    ensures
        r@.map_values(|a: String| a@) == ancestors(p@),
{
    let mut out: Vec<String> = Vec::new();
    let mut cur: String = p.to_owned();
    loop
        invariant
            out@.map_values(|a: String| a@) + ancestors(cur@) == ancestors(p@),
        decreases cur@.len(),
    {
        match parent_of(cur.as_str()) {
            Some(q) => {
                proof {
                    lemma_parent_shorter(cur@);
                }
                let ghost before = out@.map_values(|a: String| a@);
                assert(ancestors(cur@) == seq![q@] + ancestors(q@));
                out.push(q.clone());
                assert(out@.map_values(|a: String| a@) =~= before.push(q@));
                assert(before.push(q@) + ancestors(q@) =~= before + (seq![q@] + ancestors(q@)));
                cur = q;
            },
            None => {
                assert(ancestors(cur@) =~= Seq::<Seq<char>>::empty());
                assert(out@.map_values(|a: String| a@) + ancestors(cur@) =~= out@.map_values(
                    |a: String| a@,
                ));
                return out;
            },
        }
    }
}

/// A path typed by the user, anchored at the working directory `cwd` unless
/// it is absolute.
pub open spec fn anchored(cwd: Seq<char>, input: Seq<char>) -> Seq<char> {
    if input.len() > 0 && input[0] == '/' {
        input
    } else if cwd.len() > 0 && cwd.last() == '/' {
        cwd + input
    } else {
        cwd + seq!['/'] + input
    }
}

/// Anchors the path `input` at the working directory `cwd`.
pub fn anchor_path(cwd: &str, input: &str) -> (r: String)
    ensures
        r@ == anchored(cwd@, input@),
{
    if input.unicode_len() > 0 && input.get_char(0) == '/' {
        input.to_owned()
    } else {
        let mut r = cwd.to_owned();
        let n = cwd.unicode_len();
        if n == 0 || cwd.get_char(n - 1) != '/' {
            r.append("/");
            proof {
                reveal_strlit("/");
            }
        }
        r.append(input);
        r
    }
}

/// What is reported for a path that does not resolve: the first of its
/// `ancestors` (deepest first) that exists, or the path itself when none does.
pub open spec fn valid_up_to(path: Seq<char>, ancestors: Seq<Seq<char>>, exists: Seq<bool>) -> Seq<
    char,
>
    decreases ancestors.len(),
{
    if ancestors.len() == 0 || exists.len() == 0 {
        path
    } else if exists[0] {
        ancestors[0]
    } else {
        valid_up_to(path, ancestors.drop_first(), exists.drop_first())
    }
}

/// The deepest existing ancestor of `path`, given for each of its `ancestors`
/// (deepest first) whether it exists; `path` itself when none does.
pub fn valid_up_to_of(path: &str, ancestors: &Vec<String>, exists: &Vec<bool>) -> (r: String)
    requires
        ancestors@.len() == exists@.len(),
    ensures
        r@ == valid_up_to(path@, ancestors@.map_values(|a: String| a@), exists@),
{
    let ghost anc = ancestors@.map_values(|a: String| a@);
    let mut i: usize = 0;
    assert(anc.subrange(0, anc.len() as int) =~= anc);
    assert(exists@.subrange(0, exists@.len() as int) =~= exists@);
    while i < ancestors.len()
        invariant
            i <= ancestors@.len() == exists@.len(),
            anc == ancestors@.map_values(|a: String| a@),
            valid_up_to(path@, anc, exists@) == valid_up_to(
                path@,
                anc.subrange(i as int, anc.len() as int),
                exists@.subrange(i as int, exists@.len() as int),
            ),
        decreases ancestors@.len() - i,
    {
        let ghost rest_a = anc.subrange(i as int, anc.len() as int);
        let ghost rest_e = exists@.subrange(i as int, exists@.len() as int);
        if exists[i] {
            return ancestors[i].clone();
        }
        assert(rest_a.drop_first() =~= anc.subrange(i + 1, anc.len() as int));
        assert(rest_e.drop_first() =~= exists@.subrange(i + 1, exists@.len() as int));
        i = i + 1;
    }
    path.to_owned()
}

} // verus!
