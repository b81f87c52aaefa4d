//! The List screen's two filters: local files by their path under the working directory,
//! gist files by their description or file name. Both ignore case, and an empty query
//! passes everything.

use vstd::prelude::*;
use crate::domain::GistFile;
use crate::text::{chars_of, contains_ci, contains_ci_spec, string_of_range};

verus! {

/// `path` as shown relative to `cwd`: the part after `cwd` and one `/` when the path lies
/// under `cwd`, else the whole path. A file's name is the tail of this relative path.
pub open spec fn relative_to(path: Seq<char>, cwd: Seq<char>) -> Seq<char> {
    let prefix = cwd.push('/');
    if prefix.len() <= path.len() && path.subrange(0, prefix.len() as int) == prefix {
        path.subrange(prefix.len() as int, path.len() as int)
    } else {
        path
    }
}

/// A local file passes `query` when the query, ignoring case, occurs in its path relative
/// to `cwd` (and so also when it occurs in its file name).
pub open spec fn local_matches(path: Seq<char>, cwd: Seq<char>, query: Seq<char>) -> bool {
    query.len() == 0 || contains_ci_spec(relative_to(path, cwd), query)
}

/// A gist file passes `query` when the query, ignoring case, occurs in its gist's
/// description or in its file name.
pub open spec fn gist_matches(g: GistFile, query: Seq<char>) -> bool {
    query.len() == 0 || contains_ci_spec(g.description@, query) || contains_ci_spec(
        g.filename@,
        query,
    )
}

/// The indices, in order, of the local paths among the first `n` that pass `query`.
pub open spec fn visible_locals_spec(
    paths: Seq<String>,
    cwd: Seq<char>,
    query: Seq<char>,
    n: nat,
) -> Seq<usize>
    decreases n,
{
    if n == 0 {
        Seq::empty()
    } else {
        let before = visible_locals_spec(paths, cwd, query, (n - 1) as nat);
        if local_matches(paths[n - 1]@, cwd, query) {
            before.push((n - 1) as usize)
        } else {
            before
        }
    }
}

/// The indices, in order, of the gist files among the first `n` that pass `query`.
pub open spec fn matching_gists_spec(gists: Seq<GistFile>, query: Seq<char>, n: nat) -> Seq<usize>
    decreases n,
{
    if n == 0 {
        Seq::empty()
    } else {
        let before = matching_gists_spec(gists, query, (n - 1) as nat);
        if gist_matches(gists[n - 1], query) {
            before.push((n - 1) as usize)
        } else {
            before
        }
    }
}

/// `path` relative to `cwd` (see [`relative_to`]).
pub fn relative_path(path: &str, cwd: &str) -> (r: String)
    ensures
        r@ == relative_to(path@, cwd@),
{
    let p = chars_of(path);
    let c = chars_of(cwd);
    let n = c.len();
    if n >= p.len() {
        return string_of_range(p.as_slice(), 0, p.len());
    }
    // Here `cwd` is strictly shorter than `path`: compare it and the `/` after it.
    let mut i: usize = 0;
    while i < n
        invariant
            n == c@.len(),
            n < p@.len(),
            i <= n,
            c@ == cwd@,
            p@ == path@,
            forall|k: int| 0 <= k < i ==> p@[k] == c@[k],
        decreases n - i,
    {
        if p[i] != c[i] {
            assert(path@.subrange(0, n + 1) != cwd@.push('/')) by {
                assert(path@.subrange(0, n + 1)[i as int] != cwd@.push('/')[i as int]);
            }
            return string_of_range(p.as_slice(), 0, p.len());
        }
        i = i + 1;
    }
    if p[n] != '/' {
        assert(path@.subrange(0, n + 1) != cwd@.push('/')) by {
            assert(path@.subrange(0, n + 1)[n as int] != cwd@.push('/')[n as int]);
        }
        return string_of_range(p.as_slice(), 0, p.len());
    }
    assert(path@.subrange(0, n + 1) =~= cwd@.push('/'));
    string_of_range(p.as_slice(), n + 1, p.len())
}

/// Whether the local file at `path` passes `query` (see [`local_matches`]).
pub fn local_matches_query(path: &str, cwd: &str, query: &str) -> (r: bool)
    ensures
        r == local_matches(path@, cwd@, query@),
{
    if query.unicode_len() == 0 {
        return true;
    }
    let rel = relative_path(path, cwd);
    contains_ci(rel.as_str(), query)
}

/// Whether gist file `g` passes `query` (see [`gist_matches`]).
pub fn gist_matches_query(g: &GistFile, query: &str) -> (r: bool)
    ensures
        r == gist_matches(*g, query@),
{
    query.unicode_len() == 0 || contains_ci(g.description.as_str(), query) || contains_ci(
        g.filename.as_str(),
        query,
    )
}

/// The indices of the local files that the local filter `query` shows, in list order.
pub fn visible_local_indices(paths: &[String], cwd: &str, query: &str) -> (v: Vec<usize>)
    ensures
        v@ == visible_locals_spec(paths@, cwd@, query@, paths@.len()),
{
    let mut v: Vec<usize> = Vec::new();
    let mut i: usize = 0;
    while i < paths.len()
        invariant
            i <= paths@.len(),
            v@ == visible_locals_spec(paths@, cwd@, query@, i as nat),
        decreases paths@.len() - i,
    {
        if local_matches_query(paths[i].as_str(), cwd, query) {
            v.push(i);
        }
        i = i + 1;
    }
    v
}

/// The indices of the gist files that the gist filter `query` keeps, in list order.
pub fn matching_gist_indices(gists: &[GistFile], query: &str) -> (v: Vec<usize>)
    ensures
        v@ == matching_gists_spec(gists@, query@, gists@.len()),
{
    let mut v: Vec<usize> = Vec::new();
    let mut i: usize = 0;
    while i < gists.len()
        invariant
            i <= gists@.len(),
            v@ == matching_gists_spec(gists@, query@, i as nat),
        decreases gists@.len() - i,
    {
        if gist_matches_query(&gists[i], query) {
            v.push(i);
        }
        i = i + 1;
    }
    v
}

/// Every index the filter shows is a file that passes it, and is in range.
pub proof fn law_filtered_locals_pass(paths: Seq<String>, cwd: Seq<char>, query: Seq<char>, n: nat)
    requires
        n <= paths.len() <= usize::MAX,
    ensures
        forall|k: int|
            0 <= k < visible_locals_spec(paths, cwd, query, n).len() ==> {
                let i = #[trigger] visible_locals_spec(paths, cwd, query, n)[k];
                &&& i < n
                &&& local_matches(paths[i as int]@, cwd, query)
            },
    decreases n,
{
    if n > 0 {
        law_filtered_locals_pass(paths, cwd, query, (n - 1) as nat);
        let before = visible_locals_spec(paths, cwd, query, (n - 1) as nat);
        let now = visible_locals_spec(paths, cwd, query, n);
        assert forall|k: int| 0 <= k < now.len() implies ({
            let i = #[trigger] now[k];
            &&& i < n
            &&& local_matches(paths[i as int]@, cwd, query)
        }) by {
            if k < before.len() {
                assert(now[k] == before[k]);
            }
        }
    }
}

/// An empty query shows every local file.
pub proof fn law_empty_query_shows_every_local(paths: Seq<String>, cwd: Seq<char>, n: nat)
    requires
        n <= paths.len(),
    ensures
        visible_locals_spec(paths, cwd, Seq::empty(), n) == Seq::new(n, |i: int| i as usize),
    decreases n,
{
    if n > 0 {
        law_empty_query_shows_every_local(paths, cwd, (n - 1) as nat);
        assert(visible_locals_spec(paths, cwd, Seq::empty(), n) =~= Seq::new(
            n,
            |i: int| i as usize,
        ));
    } else {
        assert(visible_locals_spec(paths, cwd, Seq::empty(), n) =~= Seq::new(
            n,
            |i: int| i as usize,
        ));
    }
}

} // verus!
