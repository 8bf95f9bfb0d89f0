//! The speech sidecar: the JSON lines exchanged with it, and where its Python package is
//! looked for.
use vstd::prelude::*;
use crate::text::{owned, trim, trim_str};

verus! {

// ---------------------------------------------------------------------------
// The line protocol
// ---------------------------------------------------------------------------

/// The JSON text of an object whose members are `pairs` (keys to strings), as
/// `serde_json` writes it.
pub uninterp spec fn json_object_text(pairs: Seq<(Seq<char>, Seq<char>)>) -> Seq<char>;

/// The string member `key` of the JSON object written in `line`, as `serde_json` reads it:
/// none when `line` is not JSON, not an object, or has no string member `key`.
pub uninterp spec fn json_string_member(line: Seq<char>, key: Seq<char>) -> Option<Seq<char>>;

/// Calls `serde_json::Value::to_string` on an object built from `pairs`, each value a JSON
/// string. Claimed: the text is a function of the pairs, named `json_object_text`.
#[verifier::external_body]
fn encode_object(pairs: &Vec<(String, String)>) -> (r: String)
    ensures
        r@ == json_object_text(pairs@.map_values(|p: (String, String)| (p.0@, p.1@))),
{
    let map: serde_json::Map<String, serde_json::Value> = pairs.iter().map(
        |p| (p.0.clone(), serde_json::Value::String(p.1.clone())),
    ).collect();
    serde_json::Value::Object(map).to_string()
}

/// Calls `serde_json::from_str` on `line` and reads the member `key` with
/// `serde_json::Value::get` and `as_str`. Claimed: the result is a function of `line` and
/// `key`, named `json_string_member`.
#[verifier::external_body]
pub(crate) fn decode_string_member(line: &str, key: &str) -> (r: Option<String>)
    ensures
        match r {
            Some(s) => json_string_member(line@, key@) == Some(s@),
            None => json_string_member(line@, key@) is None,
        },
{
    match serde_json::from_str::<serde_json::Value>(line) {
        Ok(v) => match v.get(key) {
            Some(serde_json::Value::String(s)) => Some(s.clone()),
            _ => None,
        },
        Err(_) => None,
    }
}

/// The boolean member `key` of the JSON object written in `line`, as `serde_json` reads it:
/// none when `line` is not JSON, not an object, or has no boolean member `key`.
pub uninterp spec fn json_bool_member(line: Seq<char>, key: Seq<char>) -> Option<bool>;

/// Calls `serde_json::from_str` on `line` and reads the member `key` with
/// `serde_json::Value::get`, keeping it when it is a boolean. Claimed: the result is a
/// function of `line` and `key`, named `json_bool_member`.
#[verifier::external_body]
fn decode_bool_member(line: &str, key: &str) -> (r: Option<bool>)
    ensures
        r == json_bool_member(line@, key@),
{
    match serde_json::from_str::<serde_json::Value>(line) {
        Ok(v) => match v.get(key) {
            Some(serde_json::Value::Bool(b)) => Some(*b),
            _ => None,
        },
        Err(_) => None,
    }
}

/// The line the sidecar writes once it is ready: `{"ready":true}` (surrounding whitespace
/// aside).
pub open spec fn ready_line(line: Seq<char>) -> bool {
    json_bool_member(trim(line), "ready"@) == Some(true)
}

/// Whether a line from the sidecar says that it is ready (see `ready_line`).
pub fn is_ready(line: &str) -> (r: bool)
    ensures
        r == ready_line(line@),
{
    let t = trim_str(line);
    match decode_bool_member(t.as_str(), "ready") {
        Some(b) => b,
        None => false,
    }
}

/// The request that makes the sidecar speak `text` in `lang`.
pub open spec fn speak_request_text(text: Seq<char>, lang: Seq<char>) -> Seq<char> {
    json_object_text(seq![("cmd"@, "speak"@), ("text"@, text), ("lang"@, lang)])
}

/// The request that makes the sidecar record speech in `lang` and transcribe it.
pub open spec fn listen_request_text(lang: Seq<char>) -> Seq<char> {
    json_object_text(seq![("cmd"@, "listen"@), ("lang"@, lang)])
}

fn pair(k: &str, v: &str) -> (p: (String, String))
    ensures
        (p.0@, p.1@) == (k@, v@),
{
    (owned(k), owned(v))
}

/// The JSON line (without its line break) asking the sidecar to speak `text` in `lang`.
pub fn speak_request(text: &str, lang: &str) -> (r: String)
    ensures
        r@ == speak_request_text(text@, lang@),
{
    let mut pairs: Vec<(String, String)> = Vec::new();
    pairs.push(pair("cmd", "speak"));
    pairs.push(pair("text", text));
    pairs.push(pair("lang", lang));
    assert(pairs@.map_values(|p: (String, String)| (p.0@, p.1@)) =~= seq![
        ("cmd"@, "speak"@),
        ("text"@, text@),
        ("lang"@, lang@),
    ]);
    encode_object(&pairs)
}

/// The JSON line (without its line break) asking the sidecar to listen in `lang`.
pub fn listen_request(lang: &str) -> (r: String)
    ensures
        r@ == listen_request_text(lang@),
{
    let mut pairs: Vec<(String, String)> = Vec::new();
    pairs.push(pair("cmd", "listen"));
    pairs.push(pair("lang", lang));
    assert(pairs@.map_values(|p: (String, String)| (p.0@, p.1@)) =~= seq![
        ("cmd"@, "listen"@),
        ("lang"@, lang@),
    ]);
    encode_object(&pairs)
}

/// What was heard, from the sidecar's reply line: its `text` member, or nothing when there
/// was no reply, the reply is not JSON, or it has no text.
pub open spec fn transcript_of(reply: Option<Seq<char>>) -> Seq<char> {
    match reply {
        Some(line) => match json_string_member(trim(line), "text"@) {
            Some(t) => t,
            None => Seq::empty(),
        },
        None => Seq::empty(),
    }
}

/// The transcript in the sidecar's reply to a listen request (empty when none).
pub fn transcript(reply: Option<String>) -> (r: String)
    ensures
        r@ == transcript_of(match reply {
            Some(l) => Some(l@),
            None => None,
        }),
{
    match reply {
        Some(line) => {
            let t = trim_str(line.as_str());
            match decode_string_member(t.as_str(), "text") {
                Some(s) => s,
                None => String::new(),
            }
        },
        None => String::new(),
    }
}

// ---------------------------------------------------------------------------
// Finding the sidecar's package
// ---------------------------------------------------------------------------

/// The parent of a path, as `std::path::Path::parent` finds it: none for a root, a prefix
/// or an empty path.
pub uninterp spec fn path_parent(p: Seq<char>) -> Option<Seq<char>>;

/// Calls `std::path::Path::parent` on `p`. Claimed: the result is a function of `p`,
/// named `path_parent`. (A parent of a valid string is a prefix of it, so the conversion
/// back to text loses nothing.)
#[verifier::external_body]
fn parent_of(p: &str) -> (r: Option<String>)
    ensures
        match r {
            Some(q) => path_parent(p@) == Some(q@),
            None => path_parent(p@) is None,
        },
{
    match std::path::Path::new(p).parent() {
        Some(q) => Some(q.to_string_lossy().into_owned()),
        None => None,
    }
}

/// The directories searched for the package, nearest first: `dir` and its ancestors, at
/// most `n` of them.
pub open spec fn search_dirs(dir: Seq<char>, n: nat) -> Seq<Seq<char>>
    decreases n,
{
    if n == 0 {
        seq![]
    } else {
        seq![dir] + match path_parent(dir) {
            Some(p) => search_dirs(p, (n - 1) as nat),
            None => seq![],
        }
    }
}

/// How many levels up the package is looked for.
pub open spec fn search_depth() -> nat {
    5
}

/// The directories in which to look for the sidecar's package, `start` first and then
/// its ancestors, five at most.
pub fn voca_root_candidates(start: &str) -> (r: Vec<String>)
    ensures
        r@.map_values(|s: String| s@) == search_dirs(start@, search_depth()),
{
    let mut r: Vec<String> = Vec::new();
    let mut dir = owned(start);
    let mut k: usize = 0;
    let ghost mut rest_n: nat = 5;
    assert(r@.map_values(|s: String| s@) + search_dirs(start@, 5) =~= search_dirs(start@, 5));
    while k < 5
        invariant
            k <= 5,
            rest_n == 5 - k,
            r@.map_values(|s: String| s@) + search_dirs(dir@, rest_n) == search_dirs(start@, 5),
        decreases 5 - k,
    {
        let next = parent_of(dir.as_str());
        let ghost d = dir@;
        let ghost before = r@;
        r.push(dir);
        proof {
            assert(r@.map_values(|s: String| s@) =~= before.map_values(|s: String| s@).push(d));
        }
        match next {
            Some(p) => {
                proof {
                    assert(search_dirs(d, rest_n) =~= seq![d] + search_dirs(p@, (rest_n - 1) as nat));
                    assert(r@.map_values(|s: String| s@) + search_dirs(p@, (rest_n - 1) as nat)
                        =~= before.map_values(|s: String| s@) + search_dirs(d, rest_n));
                    rest_n = (rest_n - 1) as nat;
                }
                dir = p;
            },
            None => {
                proof {
                    assert(search_dirs(d, rest_n) =~= seq![d]);
                    assert(r@.map_values(|s: String| s@) =~= before.map_values(|s: String| s@) + search_dirs(d, rest_n));
                }
                return r;
            },
        }
        k = k + 1;
    }
    assert(search_dirs(dir@, 0) =~= Seq::<Seq<char>>::empty());
    assert(r@.map_values(|s: String| s@) =~= search_dirs(start@, 5));
    r
}

/// The first of `dirs` whose flag in `has_package` is set (a missing flag counts as
/// unset).
pub open spec fn first_flagged(dirs: Seq<Seq<char>>, has_package: Seq<bool>, i: int) -> Option<Seq<char>>
    decreases dirs.len() - i,
{
    if i < 0 || i >= dirs.len() {
        None
    } else if i < has_package.len() && has_package[i] {
        Some(dirs[i])
    } else {
        first_flagged(dirs, has_package, i + 1)
    }
}

/// The nearest directory, among `start` and its ancestors (five at most), that holds the
/// sidecar's package. `has_package[i]` tells whether the `i`-th directory of
/// `voca_root_candidates(start)` holds `voca/__init__.py`.
pub fn find_voca_root(start: &str, has_package: &Vec<bool>) -> (r: Option<String>)
    ensures
        match r {
            Some(d) => first_flagged(search_dirs(start@, search_depth()), has_package@, 0) == Some(d@),
            None => first_flagged(search_dirs(start@, search_depth()), has_package@, 0) is None,
        },
{
    let dirs = voca_root_candidates(start);
    let ghost ds = dirs@.map_values(|s: String| s@);
    let mut i: usize = 0;
    while i < dirs.len()
        invariant
            i <= dirs.len(),
            ds == dirs@.map_values(|s: String| s@),
            ds == search_dirs(start@, search_depth()),
            first_flagged(ds, has_package@, 0) == first_flagged(ds, has_package@, i as int),
        decreases dirs.len() - i,
    {
        if i < has_package.len() && has_package[i] {
            let d = dirs[i].clone();
            assert(ds[i as int] == dirs@[i as int]@);
            assert(first_flagged(ds, has_package@, i as int) == Some(ds[i as int]));
            assert(d@ == ds[i as int]);
            return Some(d);
        }
        i = i + 1;
    }
    None
}

/// Law: the package is found in the nearest directory that holds it: no directory closer
/// to `start` holds it.
pub proof fn law_nearest_root(dirs: Seq<Seq<char>>, has_package: Seq<bool>, i: int)
    requires
        0 <= i,
    ensures
        first_flagged(dirs, has_package, i) matches Some(d) ==> exists|k: int|
            i <= k < dirs.len() && k < has_package.len() && has_package[k] && dirs[k] == d && forall|
                j: int,
            |
                i <= j < k ==> !(j < has_package.len() && #[trigger] has_package[j]),
    decreases dirs.len() - i,
{
    if 0 <= i < dirs.len() && !(i < has_package.len() && has_package[i]) {
        law_nearest_root(dirs, has_package, i + 1);
        if first_flagged(dirs, has_package, i + 1) is Some {
            let k = choose|k: int|
                i + 1 <= k < dirs.len() && k < has_package.len() && has_package[k] && dirs[k]
                    == first_flagged(dirs, has_package, i + 1)->0 && forall|j: int|
                    i + 1 <= j < k ==> !(j < has_package.len() && #[trigger] has_package[j]);
            assert(forall|j: int| i <= j < k ==> !(j < has_package.len() && #[trigger] has_package[j]));
        }
    } else if 0 <= i < dirs.len() {
        assert(forall|j: int| i <= j < i ==> !(j < has_package.len() && #[trigger] has_package[j]));
    }
}

} // verus!
