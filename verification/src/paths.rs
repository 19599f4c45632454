//! Unix paths held as text: joining, the last component, the parent, the
//! stem of a file name, and the nearest ancestor with a given name.

use crate::text::{chars_of, concat2, concat3, str_eq, string_of};
use vstd::prelude::*;
use vstd::string::*;

verus! {

/// What `Path::file_name` gives for the path written `p`.
pub uninterp spec fn spec_path_file_name(p: Seq<char>) -> Option<Seq<char>>;

/// What `Path::parent` gives for the path written `p`.
pub uninterp spec fn spec_path_parent(p: Seq<char>) -> Option<Seq<char>>;

/// `Path::file_name`: the final component of `p` when it is a normal name.
#[verifier::external_body]
pub(crate) fn path_file_name(p: &str) -> (r: Option<String>)
    ensures
        r.deep_view() == spec_path_file_name(p@),
{
    match std::path::Path::new(p).file_name() {
        Some(n) => Some(n.to_string_lossy().into_owned()),
        None => None,
    }
}

/// `Path::parent`: `p` without its final component, when it has one.  What
/// comes back is a proper prefix of `p`, so it is shorter; the empty path
/// and the root have none, and a path that ends in a file name has one.
#[verifier::external_body]
pub(crate) fn path_parent(p: &str) -> (r: Option<String>)
    ensures
        r.deep_view() == spec_path_parent(p@),
        r matches Some(q) ==> q@.len() < p@.len(),
        p@.len() == 0 || p@ == seq!['/'] ==> r is None,
        spec_path_file_name(p@) is Some ==> r is Some,
{
    match std::path::Path::new(p).parent() {
        Some(q) => Some(q.to_string_lossy().into_owned()),
        None => None,
    }
}

/// `base` joined with `rel` as `PathBuf::join` does on Unix: an absolute
/// `rel` replaces `base`; otherwise a `/` goes between them unless `base` is
/// empty or already ends with one.
pub open spec fn join_spec(base: Seq<char>, rel: Seq<char>) -> Seq<char> {
    if rel.len() > 0 && rel[0] == '/' {
        rel
    } else if base.len() > 0 && base.last() != '/' {
        base + seq!['/'] + rel
    } else {
        base + rel
    }
}

/// Joins two paths.
pub fn path_join(base: &str, rel: &str) -> (r: String)
    ensures
        r@ == join_spec(base@, rel@),
{
    let rn = rel.unicode_len();
    if rn > 0 && rel.get_char(0) == '/' {
        return String::from_str(rel);
    }
    let bn = base.unicode_len();
    proof {
        reveal_strlit("/");
    }
    if bn > 0 && base.get_char(bn - 1) != '/' {
        concat3(base, "/", rel)
    } else {
        concat2(base, rel)
    }
}

/// The index of the last occurrence of `c` in `s`, or -1.
pub open spec fn last_index_of(s: Seq<char>, c: char) -> int
    decreases s.len(),
{
    if s.len() == 0 {
        -1
    } else if s.last() == c {
        s.len() - 1
    } else {
        last_index_of(s.drop_last(), c)
    }
}

/// The stem of a file name as `Path::file_stem` forms it: the part before the
/// last `.`, or the whole name when it has no `.` or its only `.` leads it.
pub open spec fn stem_of_name(name: Seq<char>) -> Seq<char> {
    let k = last_index_of(name, '.');
    if k <= 0 {
        name
    } else {
        name.take(k)
    }
}

/// What `Path::file_stem` gives for the path written `p`.
pub open spec fn file_stem_spec(p: Seq<char>) -> Option<Seq<char>> {
    match spec_path_file_name(p) {
        Some(name) => Some(stem_of_name(name)),
        None => None,
    }
}

proof fn lemma_last_index_bounds(s: Seq<char>, c: char)
    ensures
        -1 <= last_index_of(s, c) < s.len(),
        last_index_of(s, c) >= 0 ==> s[last_index_of(s, c)] == c,
        forall|j: int| last_index_of(s, c) < j < s.len() ==> s[j] != c,
    decreases s.len(),
{
    if s.len() > 0 && s.last() != c {
        lemma_last_index_bounds(s.drop_last(), c);
        assert forall|j: int| last_index_of(s, c) < j < s.len() implies s[j] != c by {
            if j < s.len() - 1 {
                assert(s.drop_last()[j] == s[j]);
            }
        }
    }
}

/// The stem of a file name.
pub fn stem_of(name: &str) -> (r: String)
    ensures
        r@ == stem_of_name(name@),
{
    let cs = chars_of(name);
    let n = cs.len();
    let mut i: usize = n;
    proof {
        lemma_last_index_bounds(name@, '.');
    }
    while i > 0 && cs[i - 1] != '.'
        invariant
            i <= n,
            n == cs@.len(),
            cs@ == name@,
            forall|j: int| i <= j < n ==> cs@[j] != '.',
        decreases i,
    {
        i -= 1;
    }
    proof {
        lemma_last_index_bounds(name@, '.');
    }
    let ghost k = last_index_of(name@, '.');
    if i <= 1 {
        assert(k <= 0) by {
            if k > 0 {
                assert(cs@[k] == '.');
            }
        }
        return String::from_str(name);
    }
    assert(cs@[i - 1] == '.');
    assert(k == i - 1) by {
        if k < i - 1 {
            assert(cs@[i - 1] != '.');
        }
    }
    let mut stem: Vec<char> = Vec::new();
    let mut j: usize = 0;
    while j < i - 1
        invariant
            j <= i - 1,
            i <= n,
            n == cs@.len(),
            stem@ == cs@.take(j as int),
        decreases i - 1 - j,
    {
        stem.push(cs[j]);
        j += 1;
        assert(stem@ =~= cs@.take(j as int));
    }
    string_of(&stem)
}

/// `Path::file_stem` for the path written `p`.
pub fn file_stem(p: &str) -> (r: Option<String>)
    ensures
        r.deep_view() == file_stem_spec(p@),
{
    match path_file_name(p) {
        Some(name) => Some(stem_of(&name)),
        None => None,
    }
}

/// The nearest of `p` and its ancestors whose final component is `name`.
pub open spec fn ancestor_named(p: Seq<char>, name: Seq<char>) -> Option<Seq<char>>
    decreases p.len(),
{
    if spec_path_file_name(p) == Some(name) {
        Some(p)
    } else {
        match spec_path_parent(p) {
            Some(q) => if q.len() < p.len() {
                ancestor_named(q, name)
            } else {
                None
            },
            None => None,
        }
    }
}

/// Walks up from `p` to the first directory whose final component is `name`.
pub fn find_ancestor_named(p: &str, name: &str) -> (r: Option<String>)
    ensures
        r.deep_view() == ancestor_named(p@, name@),
{
    let mut cur = String::from_str(p);
    loop
        invariant
            ancestor_named(cur@, name@) == ancestor_named(p@, name@),
        decreases cur@.len(),
    {
        let matched = match path_file_name(cur.as_str()) {
            Some(n) => str_eq(n.as_str(), name),
            None => false,
        };
        if matched {
            return Some(cur);
        }
        match path_parent(cur.as_str()) {
            Some(q) => {
                cur = q;
            },
            None => {
                return None;
            },
        }
    }
}

} // verus!
