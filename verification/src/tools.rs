//! What the tool runner decides before it touches the disk: which paths stay inside the
//! working folder, and how a call's arguments are summarised in the chat.
use vstd::prelude::*;
use crate::text::{string_from_chars, strip_prefix, strip_prefix_spec, to_chars};
use crate::voice::{decode_string_member, json_string_member};

verus! {

// ---------------------------------------------------------------------------
// Paths
// ---------------------------------------------------------------------------

/// The index of the first `/` at or after `i`, or the length of `p` when there is none.
pub open spec fn next_slash(p: Seq<char>, i: int) -> int
    decreases p.len() - i,
{
    if i >= p.len() {
        p.len() as int
    } else if p[i] == '/' {
        i
    } else {
        next_slash(p, i + 1)
    }
}

pub proof fn lemma_next_slash(p: Seq<char>, i: int)
    requires
        0 <= i <= p.len(),
    ensures
        i <= next_slash(p, i) <= p.len(),
        next_slash(p, i) < p.len() ==> p[next_slash(p, i)] == '/',
        forall|k: int| i <= k < next_slash(p, i) ==> p[k] != '/',
    decreases p.len() - i,
{
    if i < p.len() && p[i] != '/' {
        lemma_next_slash(p, i + 1);
    }
}

/// The `/`-separated parts of `p` from index `s` on.
pub open spec fn segments_from(p: Seq<char>, s: int) -> Seq<Seq<char>>
    decreases p.len() + 1 - s,
{
    if s < 0 || s > p.len() {
        seq![]
    } else {
        let j = next_slash(p, s);
        proof {
            lemma_next_slash(p, s);
        }
        seq![p.subrange(s, j)] + segments_from(p, j + 1)
    }
}

/// The `/`-separated parts of `p`, empty parts included.
pub open spec fn path_segments(p: Seq<char>) -> Seq<Seq<char>> {
    segments_from(p, 0)
}

/// Whether `p` is absolute (starts at the root).
pub open spec fn is_absolute_path(p: Seq<char>) -> bool {
    p.len() > 0 && p[0] == '/'
}

/// A path the tools accept: relative, and without a `..` part.
pub open spec fn path_confined(p: Seq<char>) -> bool {
    &&& !is_absolute_path(p)
    &&& forall|k: int| 0 <= k < path_segments(p).len() ==> #[trigger] path_segments(p)[k] != ".."@
}

/// How many folders below the starting one a walk along `segs` ends: a name goes one
/// down, `..` one up, `.` and an empty part stay.
pub open spec fn depth_after(segs: Seq<Seq<char>>) -> int
    decreases segs.len(),
{
    if segs.len() == 0 {
        0
    } else {
        let d = depth_after(segs.drop_last());
        let s = segs.last();
        if s == ".."@ {
            d - 1
        } else if s == "."@ || s.len() == 0 {
            d
        } else {
            d + 1
        }
    }
}

/// Whether the part `p[s..j]` is `..`.
fn is_parent_part(v: &Vec<char>, s: usize, j: usize) -> (r: bool)
    requires
        s <= j <= v.len(),
    ensures
        r == (v@.subrange(s as int, j as int) == ".."@),
{
    proof {
        reveal_strlit("..");
    }
    if j - s == 2 && v[s] == '.' && v[s + 1] == '.' {
        assert(v@.subrange(s as int, j as int) =~= ".."@);
        true
    } else {
        proof {
            if v@.subrange(s as int, j as int) == ".."@ {
                assert(v@.subrange(s as int, j as int).len() == 2);
                assert(v@.subrange(s as int, j as int)[0] == '.');
                assert(v@.subrange(s as int, j as int)[1] == '.');
            }
        }
        false
    }
}

/// Whether some part of `p` from index `s` on is `..`.
pub open spec fn parent_part_from(p: Seq<char>, s: int) -> bool {
    exists|k: int| 0 <= k < segments_from(p, s).len() && #[trigger] segments_from(p, s)[k] == ".."@
}

proof fn lemma_parent_part_step(p: Seq<char>, s: int)
    requires
        0 <= s <= p.len(),
    ensures
        parent_part_from(p, s) == (p.subrange(s, next_slash(p, s)) == ".."@ || parent_part_from(
            p,
            next_slash(p, s) + 1,
        )),
{
    let j = next_slash(p, s);
    lemma_next_slash(p, s);
    let tail = segments_from(p, j + 1);
    assert(segments_from(p, s) == seq![p.subrange(s, j)] + tail);
    if parent_part_from(p, s) {
        let k = choose|k: int|
            0 <= k < segments_from(p, s).len() && #[trigger] segments_from(p, s)[k] == ".."@;
        if k > 0 {
            assert(tail[k - 1] == ".."@);
        }
    }
    if parent_part_from(p, j + 1) {
        let k = choose|k: int| 0 <= k < tail.len() && #[trigger] tail[k] == ".."@;
        assert(segments_from(p, s)[k + 1] == ".."@);
    }
    if p.subrange(s, j) == ".."@ {
        assert(segments_from(p, s)[0] == ".."@);
    }
}

/// Whether the tools may use `path`: it is relative and no part of it is `..`, so it
/// names something inside the working folder.
pub fn stays_inside(path: &str) -> (r: bool)
    ensures
        r == path_confined(path@),
{
    let v = to_chars(path);
    let n = v.len();
    if n > 0 && v[0] == '/' {
        return false;
    }
    let mut s: usize = 0;
    loop
        invariant
            n == v.len(),
            v@ == path@,
            s <= n,
            !is_absolute_path(path@),
            !parent_part_from(path@, 0) == !parent_part_from(path@, s as int),
        decreases n - s,
    {
        let mut j: usize = s;
        while j < n && v[j] != '/'
            invariant
                n == v.len(),
                v@ == path@,
                s <= j <= n,
                next_slash(path@, s as int) == next_slash(path@, j as int),
            decreases n - j,
        {
            j = j + 1;
        }
        proof {
            lemma_next_slash(path@, s as int);
            lemma_parent_part_step(path@, s as int);
        }
        if is_parent_part(&v, s, j) {
            proof {
                assert(parent_part_from(path@, 0));
                assert(path_segments(path@) == segments_from(path@, 0));
            }
            return false;
        }
        if j == n {
            assert(segments_from(path@, n + 1) =~= Seq::<Seq<char>>::empty());
            assert(path_segments(path@) == segments_from(path@, 0));
            return true;
        }
        s = j + 1;
    }
}

proof fn lemma_depth_nonnegative(segs: Seq<Seq<char>>)
    requires
        forall|k: int| 0 <= k < segs.len() ==> #[trigger] segs[k] != ".."@,
    ensures
        depth_after(segs) >= 0,
    decreases segs.len(),
{
    if segs.len() > 0 {
        let pre = segs.drop_last();
        assert forall|k: int| 0 <= k < pre.len() implies #[trigger] pre[k] != ".."@ by {
            assert(pre[k] == segs[k]);
        }
        lemma_depth_nonnegative(pre);
        assert(segs.last() == segs[segs.len() - 1]);
    }
}

/// Law: a path the tools accept never leaves the working folder: walking its parts from
/// the working folder, no step goes above it.
pub proof fn law_confined_path_stays_inside(p: Seq<char>)
    requires
        path_confined(p),
    ensures
        forall|k: int|
            0 <= k <= path_segments(p).len() ==> #[trigger] depth_after(path_segments(p).take(k))
                >= 0,
{
    let segs = path_segments(p);
    assert forall|k: int| 0 <= k <= segs.len() implies #[trigger] depth_after(segs.take(k)) >= 0 by {
        let pre = segs.take(k);
        assert forall|i: int| 0 <= i < pre.len() implies #[trigger] pre[i] != ".."@ by {
            assert(pre[i] == segs[i]);
        }
        lemma_depth_nonnegative(pre);
    }
}

/// Whether `path` is the folder `root` or lies below it, both written out in full (as
/// `std::fs::canonicalize` gives them, links resolved).
pub open spec fn within_root(root: Seq<char>, path: Seq<char>) -> bool {
    match strip_prefix_spec(path, root) {
        Some(rest) => rest.len() == 0 || rest[0] == '/' || (root.len() > 0 && root.last() == '/'),
        None => false,
    }
}

/// Whether the resolved `path` lies in the resolved working folder `root` (see
/// `within_root`); this catches a link that leads out of the folder.
pub fn is_within_root(root: &str, path: &str) -> (r: bool)
    ensures
        r == within_root(root@, path@),
{
    match strip_prefix(path, root) {
        Some(rest) => {
            let v = to_chars(rest.as_str());
            let w = to_chars(root);
            v.len() == 0 || v[0] == '/' || (w.len() > 0 && w[w.len() - 1] == '/')
        },
        None => false,
    }
}

// ---------------------------------------------------------------------------
// The chat line of a tool call
// ---------------------------------------------------------------------------

/// At most the first `n` characters of `s`.
pub open spec fn first_chars(s: Seq<char>, n: nat) -> Seq<char> {
    if s.len() <= n {
        s
    } else {
        s.take(n as int)
    }
}

/// What the chat shows of a call's arguments: the first 80 characters of its `path`,
/// else of its `pattern`, else of its `command` string member; nothing when the
/// arguments have none of them (or are not a JSON object).
pub open spec fn summary_of(arguments: Seq<char>) -> Seq<char> {
    match json_string_member(arguments, "path"@) {
        Some(s) => first_chars(s, 80),
        None => match json_string_member(arguments, "pattern"@) {
            Some(s) => first_chars(s, 80),
            None => match json_string_member(arguments, "command"@) {
                Some(s) => first_chars(s, 80),
                None => Seq::empty(),
            },
        },
    }
}

fn first_80(s: &str) -> (r: String)
    ensures
        r@ == first_chars(s@, 80),
{
    let v = to_chars(s);
    let n = if v.len() <= 80 {
        v.len()
    } else {
        80
    };
    let r = string_from_chars(&v, 0, n);
    assert(v.len() <= 80 ==> r@ =~= s@);
    assert(v.len() > 80 ==> r@ =~= s@.take(80));
    r
}

/// The short form of a tool call's arguments shown in the chat (see `summary_of`).
pub fn summarize_args(arguments: &str) -> (r: String)
    ensures
        r@ == summary_of(arguments@),
{
    match decode_string_member(arguments, "path") {
        Some(s) => first_80(s.as_str()),
        None => match decode_string_member(arguments, "pattern") {
            Some(s) => first_80(s.as_str()),
            None => match decode_string_member(arguments, "command") {
                Some(s) => first_80(s.as_str()),
                None => String::new(),
            },
        },
    }
}

} // verus!
