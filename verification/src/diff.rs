//! Unified diffs of a local file against a gist file, and the content comparison that
//! decides whether there is anything to sync.

use vstd::prelude::*;
use crate::text::{chars_of, string_of_range};

verus! {

/// The text `similar::TextDiff::from_lines(old, new).unified_diff().header(old_label,
/// new_label).to_string()` produces: a `--- old_label` / `+++ new_label` header, then hunks
/// with three lines of context; nothing when the two texts have no differing line.
pub uninterp spec fn unified_diff_of(
    old_label: Seq<char>,
    old: Seq<char>,
    new_label: Seq<char>,
    new: Seq<char>,
) -> Seq<char>;

/// The header a unified diff of two differing texts starts with.
pub open spec fn diff_header(old_label: Seq<char>, new_label: Seq<char>) -> Seq<char> {
    "--- "@ + old_label + seq!['\n'] + "+++ "@ + new_label + seq!['\n']
}

/// Unified line diff with `similar`'s default settings (Myers, three lines of context, the
/// missing-newline hint on). The contract names the result [`unified_diff_of`] of the four
/// texts; the one fact it states beyond that is the header that `similar` writes before the
/// first hunk, which exists whenever the texts differ.
#[verifier::external_body]
fn similar_unified_diff(old_label: &str, old: &str, new_label: &str, new: &str) -> (r: String)
    ensures
        r@ == unified_diff_of(old_label@, old@, new_label@, new@),
        old@ != new@ ==> r@.len() >= diff_header(old_label@, new_label@).len() && r@.take(
            diff_header(old_label@, new_label@).len() as int,
        ) == diff_header(old_label@, new_label@),
{
    similar::TextDiff::from_lines(old, new).unified_diff().header(old_label, new_label).to_string()
}

/// `t` without its trailing newlines.
pub open spec fn strip_newlines(t: Seq<char>) -> Seq<char>
    decreases t.len(),
{
    if t.len() > 0 && t.last() == '\n' {
        strip_newlines(t.drop_last())
    } else {
        t
    }
}

/// The text a comparison sees: as is, or — when trailing newlines are ignored — ending in
/// exactly one newline (an empty text stays empty).
pub open spec fn normalized(t: Seq<char>, ignore_trailing_newline: bool) -> Seq<char> {
    if !ignore_trailing_newline {
        t
    } else if strip_newlines(t).len() == 0 {
        Seq::empty()
    } else {
        strip_newlines(t).push('\n')
    }
}

proof fn lemma_strip_newlines_prefix(t: Seq<char>)
    ensures
        strip_newlines(t).len() <= t.len(),
        strip_newlines(t) == t.take(strip_newlines(t).len() as int),
        strip_newlines(t).len() == 0 || strip_newlines(t).last() != '\n',
        forall|k: int| strip_newlines(t).len() <= k < t.len() ==> t[k] == '\n',
    decreases t.len(),
{
    if t.len() > 0 && t.last() == '\n' {
        lemma_strip_newlines_prefix(t.drop_last());
        assert(t.drop_last().take(strip_newlines(t).len() as int) =~= t.take(
            strip_newlines(t).len() as int,
        ));
        assert forall|k: int| strip_newlines(t).len() <= k < t.len() implies t[k] == '\n' by {
            if k < t.len() - 1 {
                assert(t.drop_last()[k] == t[k]);
            }
        }
    } else {
        assert(t.take(t.len() as int) =~= t);
    }
}

/// Length of `v` without its trailing newlines.
fn stripped_len(v: &[char]) -> (n: usize)
    ensures
        n <= v@.len(),
        n == strip_newlines(v@).len(),
        v@.take(n as int) == strip_newlines(v@),
{
    proof {
        lemma_strip_newlines_prefix(v@);
    }
    assert(v@.take(v@.len() as int) =~= v@);
    let mut n = v.len();
    while n > 0 && v[n - 1] == '\n'
        invariant
            n <= v@.len(),
            strip_newlines(v@) == strip_newlines(v@.take(n as int)),
        decreases n,
    {
        assert(v@.take(n as int).drop_last() =~= v@.take(n - 1));
        n = n - 1;
    }
    proof {
        lemma_strip_newlines_prefix(v@.take(n as int));
    }
    n
}

/// The text a comparison sees, per [`normalized`].
pub fn normalize(t: &str, ignore_trailing_newline: bool) -> (r: String)
    ensures
        r@ == normalized(t@, ignore_trailing_newline),
{
    let v = chars_of(t);
    if !ignore_trailing_newline {
        let s = string_of_range(v.as_slice(), 0, v.len());
        assert(v@.subrange(0, v@.len() as int) =~= v@);
        return s;
    }
    let n = stripped_len(v.as_slice());
    if n == 0 {
        return String::new();
    }
    let mut s = string_of_range(v.as_slice(), 0, n);
    assert(v@.subrange(0, n as int) =~= v@.take(n as int));
    crate::text::push_char(&mut s, '\n');
    s
}

/// Unified diff of `old` against `new` under the given labels, trailing newlines compared
/// as the setting says.
pub fn unified_diff(
    old_label: &str,
    old: &str,
    new_label: &str,
    new: &str,
    ignore_trailing_newline: bool,
) -> (r: String)
    ensures
        r@ == unified_diff_of(
            old_label@,
            normalized(old@, ignore_trailing_newline),
            new_label@,
            normalized(new@, ignore_trailing_newline),
        ),
        normalized(old@, ignore_trailing_newline) != normalized(new@, ignore_trailing_newline)
            ==> r@.len() >= diff_header(old_label@, new_label@).len() && r@.take(
            diff_header(old_label@, new_label@).len() as int,
        ) == diff_header(old_label@, new_label@),
{
    let a = normalize(old, ignore_trailing_newline);
    let b = normalize(new, ignore_trailing_newline);
    similar_unified_diff(old_label, a.as_str(), new_label, b.as_str())
}

/// Whether the two contents are the same, trailing newlines compared as the setting says.
pub fn content_eq(a: &str, b: &str, ignore_trailing_newline: bool) -> (r: bool)
    ensures
        r == (normalized(a@, ignore_trailing_newline) == normalized(b@, ignore_trailing_newline)),
{
    let x = normalize(a, ignore_trailing_newline);
    let y = normalize(b, ignore_trailing_newline);
    crate::text::str_eq(x.as_str(), y.as_str())
}

/// The diff the `Enter` preview shows, oriented by the focused pane: the gist pane frames it
/// as a download (old = local, new = gist), the local pane as an upload (old = gist, new =
/// local).
pub fn preview_diff_text(
    upload_orientation: bool,
    local_label: &str,
    local_content: &str,
    gist_label: &str,
    remote: &str,
    ignore_trailing_newline: bool,
) -> (r: String)
    ensures
        upload_orientation ==> r@ == unified_diff_of(
            gist_label@,
            normalized(remote@, ignore_trailing_newline),
            local_label@,
            normalized(local_content@, ignore_trailing_newline),
        ),
        !upload_orientation ==> r@ == unified_diff_of(
            local_label@,
            normalized(local_content@, ignore_trailing_newline),
            gist_label@,
            normalized(remote@, ignore_trailing_newline),
        ),
{
    if upload_orientation {
        unified_diff(gist_label, remote, local_label, local_content, ignore_trailing_newline)
    } else {
        unified_diff(local_label, local_content, gist_label, remote, ignore_trailing_newline)
    }
}

} // verus!
