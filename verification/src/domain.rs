//! Gist-side data the screens read — gists and their files, pins, comments, revisions — and
//! the timestamp arithmetic their labels need.

use vstd::prelude::*;
use crate::text::{chars_of, dec, owned, push_dec, push_str};

verus! {

/// A local file paired with one file of a gist.
#[derive(Debug, Clone, PartialEq, Eq)]
pub struct PinnedMapping {
    pub local_path: String,
    pub gist_id: String,
    pub gist_filename: String,
}

impl PinnedMapping {
    /// A pin of `local_path` to `gist_id`'s `gist_filename`.
    pub fn fixture(local_path: &str, gist_id: &str, gist_filename: &str) -> (p: PinnedMapping)
        ensures
            p.local_path@ == local_path@,
            p.gist_id@ == gist_id@,
            p.gist_filename@ == gist_filename@,
    {
        PinnedMapping {
            local_path: owned(local_path),
            gist_id: owned(gist_id),
            gist_filename: owned(gist_filename),
        }
    }
}

/// One gist, as the Gist manager lists it.
#[derive(Debug, Clone, PartialEq, Eq)]
pub struct GistGroup {
    pub id: String,
    pub description: String,
    pub public: bool,
    pub updated_at: String,
    pub created_at: String,
    pub file_count: usize,
    pub owner_login: String,
    pub fork_of_id: Option<String>,
}

/// One file of one gist, by the gist's id and the file's name, with the URL its raw
/// content is fetched from when that is known.
#[derive(Debug, Clone, PartialEq, Eq)]
pub struct GistFileRef {
    pub gist_id: String,
    pub filename: String,
    pub raw_url: Option<String>,
}

/// One file of a gist, with the gist's metadata.
#[derive(Debug, Clone, PartialEq, Eq)]
pub struct GistFile {
    pub gist_id: String,
    pub filename: String,
    pub description: String,
    pub public: bool,
    pub updated_at: String,
    pub created_at: String,
    pub owner_login: String,
    pub fork_of_id: Option<String>,
    pub raw_url: Option<String>,
}

impl GistFile {
    /// A file `filename` of gist `gist_id` with empty metadata.
    pub fn fixture(gist_id: &str, filename: &str) -> (f: GistFile)
        ensures
            f.gist_id@ == gist_id@,
            f.filename@ == filename@,
            f.description@.len() == 0,
            !f.public,
            f.updated_at@.len() == 0,
            f.created_at@.len() == 0,
            f.owner_login@.len() == 0,
            f.fork_of_id.is_none(),
            f.raw_url.is_none(),
    {
        GistFile {
            gist_id: owned(gist_id),
            filename: owned(filename),
            description: String::new(),
            public: false,
            updated_at: String::new(),
            created_at: String::new(),
            owner_login: String::new(),
            fork_of_id: None,
            raw_url: None,
        }
    }

    /// Whether the gist this file belongs to is a fork.
    pub fn is_fork(&self) -> (r: bool)
        ensures
            r == self.fork_of_id.is_some(),
    {
        self.fork_of_id.is_some()
    }
}

/// How a gist file ranks against the focused local file.
#[derive(Debug, Clone, Copy, PartialEq, Eq, Structural)]
pub enum MatchMark {
    Pinned,
    ExactFilename,
    NoMatch,
}

/// A gist file with its rank mark.
#[derive(Debug, Clone, PartialEq, Eq)]
pub struct RankedGistFile {
    pub file: GistFile,
    pub mark: MatchMark,
}

/// How the List screen names a gist file.
#[derive(Debug, Clone, Copy, PartialEq, Eq, Structural)]
pub enum GistView {
    Description,
    Id,
}

/// Which timestamp the Gist manager orders by.
#[derive(Debug, Clone, Copy, PartialEq, Eq, Structural)]
pub enum GistGroupSort {
    Updated,
    Created,
}

/// One comment on a gist.
#[derive(Debug, Clone, PartialEq, Eq)]
pub struct GistComment {
    pub author: String,
    pub created_at: String,
    pub body: String,
}

/// Line counts a revision changed.
#[derive(Debug, Clone, Copy, PartialEq, Eq)]
pub struct GistRevisionChangeStatus {
    pub total: u32,
    pub additions: u32,
    pub deletions: u32,
}

/// One revision in a gist's history.
#[derive(Debug, Clone, PartialEq, Eq)]
pub struct GistRevision {
    pub version: String,
    pub committed_at: String,
    pub user: String,
    pub change_status: GistRevisionChangeStatus,
}

// ---------------------------------------------------------------------------------------------
// Timestamps
// ---------------------------------------------------------------------------------------------

/// Whether `c` is an ASCII digit.
pub open spec fn is_digit(c: char) -> bool {
    '0' <= c <= '9'
}

/// The value of the `n` ASCII digits of `s` starting at `i`.
pub open spec fn digits_value(s: Seq<char>, i: int, n: int) -> int
    decreases n,
{
    if n <= 0 {
        0
    } else {
        digits_value(s, i, n - 1) * 10 + (s[i + n - 1] as u32 - '0' as u32)
    }
}

/// Whether `s[i..i + n]` are all ASCII digits.
pub open spec fn all_digits(s: Seq<char>, i: int, n: int) -> bool {
    forall|k: int| i <= k < i + n ==> is_digit(#[trigger] s[k])
}

/// Day count since 1970-01-01 of the civil date `y`-`m`-`d` (proleptic Gregorian),
/// for `y >= 1`.
pub open spec fn days_from_civil(y: int, m: int, d: int) -> int {
    let yy = if m <= 2 {
        y - 1
    } else {
        y
    };
    let era = yy / 400;
    let yoe = yy - era * 400;
    let mp = if m > 2 {
        m - 3
    } else {
        m + 9
    };
    let doy = (153 * mp + 2) / 5 + d - 1;
    let doe = yoe * 365 + yoe / 4 - yoe / 100 + doy;
    era * 146097 + doe - 719468
}

/// The fields of a `YYYY-MM-DDTHH:MM:SSZ` timestamp are well formed and in range, with a year
/// of 1970 or later.
pub open spec fn rfc3339_well_formed(s: Seq<char>) -> bool {
    &&& s.len() == 20
    &&& all_digits(s, 0, 4)
    &&& s[4] == '-'
    &&& all_digits(s, 5, 2)
    &&& s[7] == '-'
    &&& all_digits(s, 8, 2)
    &&& s[10] == 'T'
    &&& all_digits(s, 11, 2)
    &&& s[13] == ':'
    &&& all_digits(s, 14, 2)
    &&& s[16] == ':'
    &&& all_digits(s, 17, 2)
    &&& s[19] == 'Z'
    &&& digits_value(s, 0, 4) >= 1970
    &&& 1 <= digits_value(s, 5, 2) <= 12
    &&& 1 <= digits_value(s, 8, 2) <= 31
    &&& digits_value(s, 11, 2) <= 23
    &&& digits_value(s, 14, 2) <= 59
    &&& digits_value(s, 17, 2) <= 60
}

/// The day count of a date from 1970 through 9999 is non-negative and small.
pub proof fn lemma_days_from_civil_range(y: int, m: int, d: int)
    requires
        1970 <= y <= 9999,
        1 <= m <= 12,
        1 <= d <= 31,
    ensures
        0 <= days_from_civil(y, m, d) <= 3_000_000,
        ({
            let yy = if m <= 2 {
                y - 1
            } else {
                y
            };
            let era = yy / 400;
            let yoe = yy - era * 400;
            let mp = if m > 2 {
                m - 3
            } else {
                m + 9
            };
            let doy = (153 * mp + 2) / 5 + d - 1;
            let doe = yoe * 365 + yoe / 4 - yoe / 100 + doy;
            &&& 4 <= era <= 24
            &&& 0 <= yoe < 400
            &&& 0 <= doy <= 400
            &&& 0 <= doe <= 146096 + 400
            &&& era * 146097 + doe >= 719468
        }),
{
    let yy = if m <= 2 {
        y - 1
    } else {
        y
    };
    let era = yy / 400;
    let yoe = yy - era * 400;
    assert(4 <= era <= 24);
    assert(0 <= yoe < 400);
    let mp = if m > 2 {
        m - 3
    } else {
        m + 9
    };
    assert(0 <= mp <= 11);
    let doy = (153 * mp + 2) / 5 + d - 1;
    assert(0 <= doy <= 400);
    assert(0 <= yoe * 365 <= 399 * 365) by (nonlinear_arith)
        requires
            0 <= yoe < 400,
    ;
    let doe = yoe * 365 + yoe / 4 - yoe / 100 + doy;
    assert(era * 146097 >= 4 * 146097 && era * 146097 <= 24 * 146097) by (nonlinear_arith)
        requires
            4 <= era <= 24,
    ;
    if era == 4 {
        assert(yoe == yy - 1600);
        if m <= 2 {
            assert(mp >= 10);
            assert(doy >= 306);
        } else {
            assert(yoe >= 370);
        }
        assert(yoe * 365 >= 369 * 365) by (nonlinear_arith)
            requires
                yoe >= 369,
        ;
    }
}

/// Unix seconds of a well-formed timestamp.
pub open spec fn rfc3339_seconds(s: Seq<char>) -> int {
    days_from_civil(digits_value(s, 0, 4), digits_value(s, 5, 2), digits_value(s, 8, 2)) * 86400
        + digits_value(s, 11, 2) * 3600 + digits_value(s, 14, 2) * 60 + digits_value(s, 17, 2)
}

/// The seconds of a well-formed timestamp are non-negative and well inside `i64`.
pub proof fn lemma_rfc3339_seconds_range(s: Seq<char>)
    requires
        rfc3339_well_formed(s),
    ensures
        0 <= rfc3339_seconds(s) <= 3_000_000 * 86400 + 86400,
{
    lemma_digits_value_bound(s, 0, 4);
    lemma_days_from_civil_range(digits_value(s, 0, 4), digits_value(s, 5, 2), digits_value(s, 8, 2));
    let days = days_from_civil(digits_value(s, 0, 4), digits_value(s, 5, 2), digits_value(s, 8, 2));
    let h = digits_value(s, 11, 2);
    let mi = digits_value(s, 14, 2);
    let sec = digits_value(s, 17, 2);
    lemma_digits_value_bound(s, 11, 2);
    lemma_digits_value_bound(s, 14, 2);
    lemma_digits_value_bound(s, 17, 2);
    assert(0 <= days * 86400 + h * 3600 + mi * 60 + sec <= 3_000_000 * 86400 + 86400) by (nonlinear_arith)
        requires
            0 <= days <= 3_000_000,
            0 <= h <= 23,
            0 <= mi <= 59,
            0 <= sec <= 60,
    ;
}

/// `n` digits are worth less than `10^n` (for up to four digits).
pub proof fn lemma_digits_value_bound(s: Seq<char>, i: int, n: int)
    requires
        0 <= n <= 4,
        0 <= i,
        i + n <= s.len(),
        all_digits(s, i, n),
    ensures
        0 <= digits_value(s, i, n),
        n <= 1 ==> digits_value(s, i, n) <= 9,
        n <= 2 ==> digits_value(s, i, n) <= 99,
        n <= 3 ==> digits_value(s, i, n) <= 999,
        digits_value(s, i, n) <= 9999,
    decreases n,
{
    if n > 0 {
        lemma_digits_value_bound(s, i, n - 1);
        assert(is_digit(s[i + n - 1]));
    }
}

fn digits_at(s: &[char], i: usize, n: usize) -> (r: Option<u64>)
    requires
        i + n <= s@.len(),
        n <= 4,
    ensures
        match r {
            Some(v) => all_digits(s@, i as int, n as int) && v == digits_value(
                s@,
                i as int,
                n as int,
            ),
            None => !all_digits(s@, i as int, n as int),
        },
        r matches Some(v) ==> v <= 9999,
{
    let total = s.len();
    assert(s@.len() == total);
    let mut v: u64 = 0;
    let mut k: usize = 0;
    while k < n
        invariant
            i + n <= s@.len(),
            s@.len() <= usize::MAX,
            n <= 4,
            k <= n,
            all_digits(s@, i as int, k as int),
            v == digits_value(s@, i as int, k as int),
            k == 0 ==> v == 0,
            k <= 1 ==> v <= 9,
            k <= 2 ==> v <= 99,
            k <= 3 ==> v <= 999,
            v <= 9999,
        decreases n - k,
    {
        let c = s[i + k];
        if !('0' <= c && c <= '9') {
            return None;
        }
        v = v * 10 + (c as u64 - '0' as u64);
        k = k + 1;
    }
    Some(v)
}

/// Unix seconds of an RFC 3339 timestamp in the form the GitHub API writes
/// (`2026-06-08T11:06:18Z`); `None` for anything else or for a year before 1970.
pub fn parse_rfc3339_to_unix(text: &str) -> (r: Option<u64>)
    ensures
        match r {
            Some(t) => rfc3339_well_formed(text@) && t == rfc3339_seconds(text@),
            None => !rfc3339_well_formed(text@),
        },
{
    let s = chars_of(text);
    if s.len() != 20 {
        return None;
    }
    if s[4] != '-' || s[7] != '-' || s[10] != 'T' || s[13] != ':' || s[16] != ':' || s[19]
        != 'Z' {
        return None;
    }
    let y = match digits_at(s.as_slice(), 0, 4) {
        Some(v) => v,
        None => return None,
    };
    let m = match digits_at(s.as_slice(), 5, 2) {
        Some(v) => v,
        None => return None,
    };
    let d = match digits_at(s.as_slice(), 8, 2) {
        Some(v) => v,
        None => return None,
    };
    let hh = match digits_at(s.as_slice(), 11, 2) {
        Some(v) => v,
        None => return None,
    };
    let mm = match digits_at(s.as_slice(), 14, 2) {
        Some(v) => v,
        None => return None,
    };
    let ss = match digits_at(s.as_slice(), 17, 2) {
        Some(v) => v,
        None => return None,
    };
    if y < 1970 || m < 1 || m > 12 || d < 1 || d > 31 || hh > 23 || mm > 59 || ss > 60 {
        return None;
    }
    let yy = if m <= 2 {
        y - 1
    } else {
        y
    };
    let era = yy / 400;
    let yoe = yy - era * 400;
    let mp = if m > 2 {
        m - 3
    } else {
        m + 9
    };
    let doy = (153 * mp + 2) / 5 + d - 1;
    let doe = yoe * 365 + yoe / 4 - yoe / 100 + doy;
    proof {
        lemma_days_from_civil_range(y as int, m as int, d as int);
    }
    let days = era * 146097 + doe - 719468;
    Some(days * 86400 + hh * 3600 + mm * 60 + ss)
}

/// A relative age, in its largest whole unit: seconds, minutes, hours, days, weeks, months
/// (30 days), years (365 days). A negative age (a clock ahead of now) reads as `0s`.
pub open spec fn humanize_age_spec(secs: int) -> Seq<char> {
    let s = if secs < 0 {
        0
    } else {
        secs
    };
    if s < 60 {
        dec(s as nat) + "s"@
    } else if s < 3600 {
        dec((s / 60) as nat) + "m"@
    } else if s < 86400 {
        dec((s / 3600) as nat) + "h"@
    } else if s < 604800 {
        dec((s / 86400) as nat) + "d"@
    } else if s < 2592000 {
        dec((s / 604800) as nat) + "w"@
    } else if s < 31536000 {
        dec((s / 2592000) as nat) + "mo"@
    } else {
        dec((s / 31536000) as nat) + "y"@
    }
}

/// The age `secs` as a short label (`5m`, `1d`, `1w`).
pub fn humanize_age(secs: i64) -> (r: String)
    ensures
        r@ == humanize_age_spec(secs as int),
{
    let s: u64 = if secs < 0 {
        0
    } else {
        secs as u64
    };
    let mut out = String::new();
    if s < 60 {
        push_dec(&mut out, s);
        push_str(&mut out, "s");
    } else if s < 3600 {
        push_dec(&mut out, s / 60);
        push_str(&mut out, "m");
    } else if s < 86400 {
        push_dec(&mut out, s / 3600);
        push_str(&mut out, "h");
    } else if s < 604800 {
        push_dec(&mut out, s / 86400);
        push_str(&mut out, "d");
    } else if s < 2592000 {
        push_dec(&mut out, s / 604800);
        push_str(&mut out, "w");
    } else if s < 31536000 {
        push_dec(&mut out, s / 2592000);
        push_str(&mut out, "mo");
    } else {
        push_dec(&mut out, s / 31536000);
        push_str(&mut out, "y");
    }
    out
}

} // verus!
