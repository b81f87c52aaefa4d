//! Gist, row, and time labels.
//!
//! The marks below are the whole vocabulary the row labels may draw from. Every one is
//! single-width on purpose: a double-width glyph misaligns the columns beside it. A meaning that
//! would need an emoji gets a short word instead (`3 files`), never a picture.

use vstd::prelude::*;
use crate::domain::{
    days_from_civil, humanize_age, humanize_age_spec, parse_rfc3339_to_unix, rfc3339_seconds,
    rfc3339_well_formed, GistFile, GistGroup, GistGroupSort, GistView, MatchMark,
    RankedGistFile,
};
use crate::text::{
    chars_of, dec, dec_pad, is_blank, occurs_at, occurs_in, owned, push_char, push_dec,
    push_dec_pad, push_str, string_of, trim,
};

verus! {

/// You starred this gist.
pub const MARK_STARRED: char = '★';

/// Stargazer count that follows.
pub const MARK_STARGAZERS: char = '☆';

/// This gist is a fork, or the fork count that follows.
pub const MARK_FORK: char = '⑂';

/// This local file and gist file are a pinned pair.
pub const MARK_PINNED: char = '↔';

/// Width of the abbreviated-id column.
pub const SHORT_ID_WIDTH: usize = 7;

/// `N files` / `1 file`.
pub open spec fn file_count_text(count: nat) -> Seq<char> {
    if count == 1 {
        "1 file"@
    } else {
        dec(count) + " files"@
    }
}

/// `N comments` / `1 comment`.
pub open spec fn comment_count_text(count: nat) -> Seq<char> {
    if count == 1 {
        "1 comment"@
    } else {
        dec(count) + " comments"@
    }
}

/// `(N)` normally, `(shown/total)` when a filter has narrowed the list.
pub open spec fn count_text(shown: nat, total: nat) -> Seq<char> {
    if shown < total {
        "("@ + dec(shown) + "/"@ + dec(total) + ")"@
    } else {
        "("@ + dec(total) + ")"@
    }
}

/// `★ ` when starred, then `⑂ ` when forked.
pub open spec fn badge_text(starred: bool, forked: bool) -> Seq<char> {
    (if starred {
        seq!['★', ' ']
    } else {
        seq![]
    }) + (if forked {
        seq!['⑂', ' ']
    } else {
        seq![]
    })
}

/// The fixed three-cell badge column of a Gist manager row.
pub open spec fn manager_badge_text(starred: bool, forked: bool) -> Seq<char> {
    seq![
        if starred {
            '★'
        } else {
            ' '
        },
        if forked {
            '⑂'
        } else {
            ' '
        },
        ' ',
    ]
}

/// `n` spaces.
pub open spec fn spaces(n: nat) -> Seq<char> {
    Seq::new(n, |_i: int| ' ')
}

/// The first seven characters of `id`, left-aligned in a seven-character column.
pub open spec fn short_id_text(id: Seq<char>) -> Seq<char> {
    if id.len() >= 7 {
        id.take(7)
    } else {
        id + spaces((7 - id.len()) as nat)
    }
}

/// `@owner  ` for a gist someone else owns; nothing for one's own or an unknown owner.
pub open spec fn owner_prefix_text(login: Seq<char>, current_user: Option<Seq<char>>) -> Seq<
    char,
> {
    if login.len() == 0 || current_user == Some(login) {
        seq![]
    } else {
        "@"@ + login + "  "@
    }
}

/// The age of `timestamp` at `now`, or `?` when the timestamp does not parse.
pub open spec fn age_text(timestamp: Seq<char>, now: u64) -> Seq<char> {
    if rfc3339_well_formed(timestamp) {
        humanize_age_spec(now - rfc3339_seconds(timestamp))
    } else {
        "?"@
    }
}

/// `  <mark> N` when `n` is non-zero.
pub open spec fn mark_count_seg(mark: char, n: nat) -> Seq<char> {
    if n > 0 {
        seq![' ', ' ', mark, ' '] + dec(n)
    } else {
        seq![]
    }
}

/// The Gist manager row for `g`.
pub open spec fn group_row_text(
    g: GistGroup,
    now: u64,
    sort: GistGroupSort,
    counts: (u32, u32, u32),
    starred: bool,
    current_user: Option<Seq<char>>,
) -> Seq<char> {
    let (comments, stars, forks) = counts;
    let desc = if trim(g.description@).len() == 0 {
        "(no description)"@
    } else {
        g.description@
    };
    let timestamp = match sort {
        GistGroupSort::Updated => g.updated_at@,
        GistGroupSort::Created => g.created_at@,
    };
    let comments_seg = if comments > 0 {
        "  "@ + comment_count_text(comments as nat)
    } else {
        seq![]
    };
    manager_badge_text(starred, g.fork_of_id.is_some()) + owner_prefix_text(
        g.owner_login@,
        current_user,
    ) + desc + "  #"@ + short_id_text(g.id@) + "  "@ + file_count_text(g.file_count as nat)
        + mark_count_seg('☆', stars as nat) + mark_count_seg('⑂', forks as nat) + comments_seg
        + "  "@ + age_text(timestamp, now)
}

/// The non-zero counts of a detail info line, joined with ` · ` and closed by one.
pub open spec fn counts_seg_text(comments: nat, stars: nat, forks: nat) -> Seq<char> {
    let parts = (if stars > 0 {
        seq![seq!['☆', ' '] + dec(stars)]
    } else {
        seq![]
    }) + (if forks > 0 {
        seq![seq!['⑂', ' '] + dec(forks)]
    } else {
        seq![]
    }) + (if comments > 0 {
        seq![comment_count_text(comments)]
    } else {
        seq![]
    });
    if parts.len() == 0 {
        seq![]
    } else {
        crate::text_fit::join_with(parts, " · "@) + " · "@
    }
}

/// The one-line info summary of the detail header.
pub open spec fn info_line_text(
    g: GistGroup,
    now: u64,
    current_user: Option<Seq<char>>,
    starred: bool,
    counts: (u32, u32, u32),
) -> Seq<char> {
    let (comments, stars, forks) = counts;
    let star_seg = if starred {
        seq!['★'] + " starred · "@
    } else {
        seq![]
    };
    let vis = if g.public {
        "public"@
    } else {
        "secret"@
    };
    let fork_seg = match g.fork_of_id {
        Some(id) => "fork of "@ + id@ + " · "@,
        None => seq![],
    };
    star_seg + owner_prefix_text(g.owner_login@, current_user) + vis + " · "@ + counts_seg_text(
        comments as nat,
        stars as nat,
        forks as nat,
    ) + "created "@ + age_text(g.created_at@, now) + " · updated "@ + age_text(
        g.updated_at@,
        now,
    ) + " · "@ + fork_seg + g.id@
}

/// The detail header calls a public gist "public" and a secret one "secret": the info lines
/// of a gist made public and of the same gist made secret are one text around the
/// visibility word, and each line holds its own word followed by ` · `.
#[verifier::spinoff_prover]
#[verifier::rlimit(60)]
pub proof fn law_info_line_names_the_visibility(
    g: GistGroup,
    now: u64,
    current_user: Option<Seq<char>>,
    starred: bool,
    counts: (u32, u32, u32),
)
    ensures
        exists|a: Seq<char>, b: Seq<char>|
            info_line_text((GistGroup { public: true, ..g }), now, current_user, starred, counts)
                == a + "public · "@ + b && info_line_text(
                (GistGroup { public: false, ..g }),
                now,
                current_user,
                starred,
                counts,
            ) == a + "secret · "@ + b,
        g.public ==> occurs_in(info_line_text(g, now, current_user, starred, counts), "public · "@),
        !g.public ==> occurs_in(info_line_text(g, now, current_user, starred, counts), "secret · "@),
{
    let (comments, stars, forks) = counts;
    let star_seg = if starred {
        seq!['★'] + " starred · "@
    } else {
        seq![]
    };
    let fork_seg = match g.fork_of_id {
        Some(id) => "fork of "@ + id@ + " · "@,
        None => seq![],
    };
    let a = star_seg + owner_prefix_text(g.owner_login@, current_user);
    let b = counts_seg_text(comments as nat, stars as nat, forks as nat) + "created "@ + age_text(
        g.created_at@,
        now,
    ) + " · updated "@ + age_text(g.updated_at@, now) + " · "@ + fork_seg + g.id@;
    reveal_strlit("public");
    reveal_strlit("secret");
    reveal_strlit(" · ");
    reveal_strlit("public · ");
    reveal_strlit("secret · ");
    assert("public · "@ =~= "public"@ + " · "@);
    assert("secret · "@ =~= "secret"@ + " · "@);
    let gp = GistGroup { public: true, ..g };
    let gs = GistGroup { public: false, ..g };
    let lp = info_line_text(gp, now, current_user, starred, counts);
    let ls = info_line_text(gs, now, current_user, starred, counts);
    assert(lp == a + "public"@ + " · "@ + b);
    assert(lp =~= a + "public · "@ + b);
    assert(ls == a + "secret"@ + " · "@ + b);
    assert(ls =~= a + "secret · "@ + b);
    let word = if g.public {
        "public · "@
    } else {
        "secret · "@
    };
    let line = info_line_text(g, now, current_user, starred, counts);
    assert(line == if g.public { lp } else { ls });
    assert(line =~= a + word + b);
    assert(line.subrange(a.len() as int, (a.len() + word.len()) as int) =~= word);
    assert(occurs_at(line, word, a.len() as int));
}

/// The character view of an optional string slice.
pub open spec fn opt_str_view(o: Option<&str>) -> Option<Seq<char>> {
    match o {
        Some(s) => Some(s@),
        None => None,
    }
}

/// `N files` / `1 file` — a count the user reads, in place of a file glyph.
pub fn file_count_label(count: usize) -> (s: String)
    ensures
        s@ == file_count_text(count as nat),
{
    if count == 1 {
        owned("1 file")
    } else {
        let mut s = String::new();
        push_dec(&mut s, count as u64);
        push_str(&mut s, " files");
        s
    }
}

/// `N comments` / `1 comment`, for the rows and info lines that surface a non-zero count.
pub fn comment_count_label(count: u32) -> (s: String)
    ensures
        s@ == comment_count_text(count as nat),
{
    if count == 1 {
        owned("1 comment")
    } else {
        let mut s = String::new();
        push_dec(&mut s, count as u64);
        push_str(&mut s, " comments");
        s
    }
}

/// A count suffix for a list title: `(N)` normally, or `(shown/total)` when a filter has
/// narrowed the list (`shown < total`).
pub fn count_label(shown: usize, total: usize) -> (s: String)
    ensures
        s@ == count_text(shown as nat, total as nat),
{
    let mut s = owned("(");
    if shown < total {
        push_dec(&mut s, shown as u64);
        push_str(&mut s, "/");
    }
    push_dec(&mut s, total as u64);
    push_str(&mut s, ")");
    s
}

/// Variable-width badge prefix: `★ ` when starred, then `⑂ ` when forked.
pub fn gist_badge_prefix(starred: bool, forked: bool) -> (s: String)
    ensures
        s@ == badge_text(starred, forked),
{
    let mut prefix = String::new();
    if starred {
        push_char(&mut prefix, MARK_STARRED);
        push_char(&mut prefix, ' ');
    }
    let ghost mid = prefix@;
    if forked {
        push_char(&mut prefix, MARK_FORK);
        push_char(&mut prefix, ' ');
    }
    assert(prefix@ =~= badge_text(starred, forked));
    prefix
}

/// Fixed-width badge column (★ starred, ⑂ forked, or blank) for the Gist manager row, so the
/// segment that follows starts at the same column whether or not a row carries a badge.
pub fn gist_manager_badge_prefix(starred: bool, forked: bool) -> (s: String)
    ensures
        s@ == manager_badge_text(starred, forked),
{
    let mut s = String::new();
    push_char(
        &mut s,
        if starred {
            MARK_STARRED
        } else {
            ' '
        },
    );
    push_char(
        &mut s,
        if forked {
            MARK_FORK
        } else {
            ' '
        },
    );
    push_char(&mut s, ' ');
    assert(s@ =~= manager_badge_text(starred, forked));
    s
}

/// A fixed-width, left-aligned abbreviation of a gist id.
pub fn short_gist_id(id: &str) -> (s: String)
    ensures
        s@ == short_id_text(id@),
{
    let v = chars_of(id);
    let n = if v.len() < SHORT_ID_WIDTH {
        v.len()
    } else {
        SHORT_ID_WIDTH
    };
    let mut s = crate::text::string_of_range(v.as_slice(), 0, n);
    let mut k = n;
    while k < SHORT_ID_WIDTH
        invariant
            n <= k <= SHORT_ID_WIDTH,
            s@ == v@.take(n as int) + spaces((k - n) as nat),
        decreases SHORT_ID_WIDTH - k,
    {
        push_char(&mut s, ' ');
        k = k + 1;
        assert(s@ =~= v@.take(n as int) + spaces((k - n) as nat));
    }
    proof {
        if v@.len() < 7 {
            assert(v@.take(n as int) =~= v@);
        } else {
            assert(spaces(0) =~= Seq::<char>::empty());
            assert(s@ =~= v@.take(7));
        }
    }
    s
}

/// `@owner  ` for a gist owned by someone other than the signed-in user.
pub fn gist_owner_prefix(group: &GistGroup, current_user: Option<&str>) -> (s: String)
    ensures
        s@ == owner_prefix_text(group.owner_login@, opt_str_view(current_user)),
{
    if group.owner_login.as_str().unicode_len() == 0 {
        return String::new();
    }
    match current_user {
        Some(user) => {
            if crate::text::str_eq(user, group.owner_login.as_str()) {
                return String::new();
            }
        },
        None => {},
    }
    let mut s = owned("@");
    push_str(&mut s, group.owner_login.as_str());
    push_str(&mut s, "  ");
    s
}

/// The age label of `timestamp` at `now`.
fn age_label(timestamp: &str, now: u64) -> (s: String)
    requires
        now <= i64::MAX,
    ensures
        s@ == age_text(timestamp@, now),
{
    match parse_rfc3339_to_unix(timestamp) {
        Some(t) => {
            proof {
                crate::domain::lemma_rfc3339_seconds_range(timestamp@);
            }
            humanize_age(now as i64 - t as i64)
        },
        None => owned("?"),
    }
}

/// Appends `  <mark> N` when `n` is non-zero.
fn push_mark_count(s: &mut String, mark: char, n: u32)
    ensures
        final(s)@ == old(s)@ + mark_count_seg(mark, n as nat),
{
    if n > 0 {
        push_char(s, ' ');
        push_char(s, ' ');
        push_char(s, mark);
        push_char(s, ' ');
        push_dec(s, n as u64);
        assert(final(s)@ =~= old(s)@ + mark_count_seg(mark, n as nat));
    } else {
        assert(s@ =~= old(s)@ + mark_count_seg(mark, n as nat));
    }
}

/// The Gist manager row: badge column, owner, description, short id, file count, the non-zero
/// counts, and the age of the timestamp the rows are sorted by.
pub fn gist_group_row_label(
    g: &GistGroup,
    now: u64,
    sort: GistGroupSort,
    counts: (u32, u32, u32),
    starred: bool,
    current_user: Option<&str>,
) -> (s: String)
    requires
        now <= i64::MAX,
    ensures
        s@ == group_row_text(*g, now, sort, counts, starred, opt_str_view(current_user)),
{
    let (comments, stars, forks) = counts;
    let mut s = gist_manager_badge_prefix(starred, g.fork_of_id.is_some());
    let owner = gist_owner_prefix(g, current_user);
    push_str(&mut s, owner.as_str());
    if is_blank(g.description.as_str()) {
        push_str(&mut s, "(no description)");
    } else {
        push_str(&mut s, g.description.as_str());
    }
    push_str(&mut s, "  #");
    let short = short_gist_id(g.id.as_str());
    push_str(&mut s, short.as_str());
    push_str(&mut s, "  ");
    let files = file_count_label(g.file_count);
    push_str(&mut s, files.as_str());
    push_mark_count(&mut s, MARK_STARGAZERS, stars);
    push_mark_count(&mut s, MARK_FORK, forks);
    if comments > 0 {
        push_str(&mut s, "  ");
        let c = comment_count_label(comments);
        push_str(&mut s, c.as_str());
    }
    push_str(&mut s, "  ");
    let timestamp = match sort {
        GistGroupSort::Updated => g.updated_at.as_str(),
        GistGroupSort::Created => g.created_at.as_str(),
    };
    let age = age_label(timestamp, now);
    push_str(&mut s, age.as_str());
    assert(s@ =~= group_row_text(*g, now, sort, counts, starred, opt_str_view(current_user)));
    s
}

/// The non-zero counts of a detail info line, ` · `-joined and closed by ` · `.
pub fn gist_info_counts_seg(comments: u32, stars: u32, forks: u32) -> (s: String)
    ensures
        s@ == counts_seg_text(comments as nat, stars as nat, forks as nat),
{
    let ghost sep = " · "@;
    let ghost star_part = seq!['☆', ' '] + dec(stars as nat);
    let ghost fork_part = seq!['⑂', ' '] + dec(forks as nat);
    let ghost comment_part = comment_count_text(comments as nat);
    let ghost parts = (if stars > 0 {
        seq![star_part]
    } else {
        seq![]
    }) + (if forks > 0 {
        seq![fork_part]
    } else {
        seq![]
    }) + (if comments > 0 {
        seq![comment_part]
    } else {
        seq![]
    });
    let mut s = String::new();
    let mut any = false;
    let ghost mut done: Seq<Seq<char>> = seq![];
    if stars > 0 {
        push_char(&mut s, MARK_STARGAZERS);
        push_char(&mut s, ' ');
        push_dec(&mut s, stars as u64);
        any = true;
        proof {
            done = seq![star_part];
            assert(s@ =~= crate::text_fit::join_with(done, sep));
        }
    }
    assert(s@ == crate::text_fit::join_with(done, sep) && any == (done.len() > 0));
    if forks > 0 {
        let ghost before = s@;
        if any {
            push_str(&mut s, " · ");
        }
        push_char(&mut s, MARK_FORK);
        push_char(&mut s, ' ');
        push_dec(&mut s, forks as u64);
        any = true;
        proof {
            let nd = done.push(fork_part);
            assert(nd.drop_last() =~= done);
            if done.len() == 0 {
                assert(s@ =~= fork_part);
            } else {
                assert(s@ =~= before + sep + fork_part);
            }
            done = nd;
        }
    }
    assert(s@ == crate::text_fit::join_with(done, sep) && any == (done.len() > 0));
    if comments > 0 {
        let ghost before = s@;
        if any {
            push_str(&mut s, " · ");
        }
        let c = comment_count_label(comments);
        push_str(&mut s, c.as_str());
        any = true;
        proof {
            let nd = done.push(comment_part);
            assert(nd.drop_last() =~= done);
            if done.len() == 0 {
                assert(s@ =~= comment_part);
            } else {
                assert(s@ =~= before + sep + comment_part);
            }
            done = nd;
        }
    }
    proof {
        assert(done =~= parts);
        assert(any == (parts.len() > 0));
        assert(s@ == crate::text_fit::join_with(parts, sep));
    }
    if any {
        push_str(&mut s, " · ");
    }
    s
}

/// One-line info summary for the detail header.
pub fn gist_info_line(
    group: &GistGroup,
    now: u64,
    current_user: Option<&str>,
    starred: bool,
    counts: (u32, u32, u32),
) -> (s: String)
    requires
        now <= i64::MAX,
    ensures
        s@ == info_line_text(*group, now, opt_str_view(current_user), starred, counts),
{
    let (comments, stars, forks) = counts;
    let mut s = String::new();
    if starred {
        push_char(&mut s, MARK_STARRED);
        push_str(&mut s, " starred · ");
    }
    let owner = gist_owner_prefix(group, current_user);
    push_str(&mut s, owner.as_str());
    push_str(
        &mut s,
        if group.public {
            "public"
        } else {
            "secret"
        },
    );
    push_str(&mut s, " · ");
    let counts_seg = gist_info_counts_seg(comments, stars, forks);
    push_str(&mut s, counts_seg.as_str());
    push_str(&mut s, "created ");
    let created = age_label(group.created_at.as_str(), now);
    push_str(&mut s, created.as_str());
    push_str(&mut s, " · updated ");
    let updated = age_label(group.updated_at.as_str(), now);
    push_str(&mut s, updated.as_str());
    push_str(&mut s, " · ");
    match &group.fork_of_id {
        Some(id) => {
            push_str(&mut s, "fork of ");
            push_str(&mut s, id.as_str());
            push_str(&mut s, " · ");
        },
        None => {},
    }
    push_str(&mut s, group.id.as_str());
    assert(s@ =~= info_line_text(*group, now, opt_str_view(current_user), starred, counts));
    s
}

/// First visible file index so `cursor` stays within a `visible_rows`-high window over
/// `count` files. Returns 0 when everything fits or `visible_rows == 0`.
pub fn file_list_scroll(cursor: usize, visible_rows: usize, count: usize) -> (offset: usize)
    ensures
        offset == (if visible_rows == 0 || count <= visible_rows || cursor < visible_rows {
            0
        } else {
            cursor + 1 - visible_rows
        }),
        visible_rows > 0 && cursor < count ==> offset <= cursor && cursor < offset + visible_rows,
{
    if visible_rows == 0 || count <= visible_rows || cursor < visible_rows {
        return 0;
    }
    cursor - visible_rows + 1
}

/// The full list-row string, with the pin mark when the row is a pinned pair.
pub open spec fn marked_row_spec(base: Seq<char>, mark: MatchMark) -> Seq<char> {
    match mark {
        MatchMark::Pinned => seq!['↔', ' '] + base,
        _ => base,
    }
}

/// Compose the full list-row string (including pin mark) that paint and hscroll max share.
pub fn marked_row_text(base: String, mark: MatchMark) -> (s: String)
    ensures
        s@ == marked_row_spec(base@, mark),
{
    match mark {
        MatchMark::Pinned => {
            let mut s = String::new();
            push_char(&mut s, MARK_PINNED);
            push_char(&mut s, ' ');
            push_str(&mut s, base.as_str());
            assert(s@ =~= marked_row_spec(base@, mark));
            s
        },
        MatchMark::ExactFilename | MatchMark::NoMatch => base,
    }
}

/// The List screen's gist row: fork badge, then the file name with the description (or the
/// gist id, in id view).
pub open spec fn gist_row_spec(f: GistFile, view: GistView) -> Seq<char> {
    let base = match view {
        GistView::Description => if trim(f.description@).len() == 0 {
            f.filename@
        } else {
            f.filename@ + " — "@ + f.description@
        },
        GistView::Id => f.gist_id@ + " / "@ + f.filename@,
    };
    badge_text(false, f.fork_of_id.is_some()) + base
}

/// Gist file-list row without the live star mark (fork badge still applied).
pub fn gist_row_label(g: &RankedGistFile, view: GistView) -> (s: String)
    ensures
        s@ == gist_row_spec(g.file, view),
{
    let mut s = gist_badge_prefix(false, g.file.is_fork());
    match view {
        GistView::Description => {
            push_str(&mut s, g.file.filename.as_str());
            if !is_blank(g.file.description.as_str()) {
                push_str(&mut s, " — ");
                push_str(&mut s, g.file.description.as_str());
            }
        },
        GistView::Id => {
            push_str(&mut s, g.file.gist_id.as_str());
            push_str(&mut s, " / ");
            push_str(&mut s, g.file.filename.as_str());
        },
    }
    assert(s@ =~= gist_row_spec(g.file, view));
    s
}

// ---------------------------------------------------------------------------------------------
// Dates and times
// ---------------------------------------------------------------------------------------------

/// Civil date (year, month, day) of day `z` since the Unix epoch — Howard Hinnant's algorithm
/// (proleptic Gregorian, UTC). Divisions are floor divisions.
pub open spec fn civil_spec(z: int) -> (int, int, int) {
    let zs = z + 719468;
    let era = zs / 146097;
    let doe = zs - era * 146097;
    let yoe = (doe - doe / 1460 + doe / 36524 - doe / 146096) / 365;
    let y = yoe + era * 400;
    let doy = doe - (365 * yoe + yoe / 4 - yoe / 100);
    let mp = (5 * doy + 2) / 153;
    let d = doy - (153 * mp + 2) / 5 + 1;
    let m = if mp < 10 {
        mp + 3
    } else {
        mp - 9
    };
    (if m <= 2 {
        y + 1
    } else {
        y
    }, m, d)
}

/// Civil date (year, month, day) from a day count since the Unix epoch.
#[verifier::spinoff_prover]
#[verifier::rlimit(40)]
pub fn civil_from_days(z: i64) -> (r: (i64, u32, u32))
    requires
        z <= i64::MAX - 719468,
    ensures
        r.0 == civil_spec(z as int).0,
        r.1 == civil_spec(z as int).1 as u32,
        r.2 == civil_spec(z as int).2 as u32,
        1 <= r.1 <= 12,
        1 <= r.2 <= days_in_month(r.0 as int, r.1 as int),
        days_from_civil(r.0 as int, r.1 as int, r.2 as int) == z,
{
    proof {
        law_civil_date_is_valid_and_round_trips(z as int);
    }
    let zs = z + 719468;
    let era = if zs >= 0 {
        zs / 146097
    } else {
        -((-(zs + 1)) / 146097) - 1
    };
    assert(era == zs as int / 146097) by (nonlinear_arith)
        requires
            zs >= 0 ==> era == zs as int / 146097,
            zs < 0 ==> era == -((-(zs + 1)) / 146097) - 1,
    ;
    let doe = zs - era * 146097;
    let yoe = (doe - doe / 1460 + doe / 36524 - doe / 146096) / 365;
    let y = yoe + era * 400;
    let doy = doe - (365 * yoe + yoe / 4 - yoe / 100);
    let mp = (5 * doy + 2) / 153;
    let d = (doy - (153 * mp + 2) / 5 + 1) as u32;
    let m = (if mp < 10 {
        mp + 3
    } else {
        mp - 9
    }) as u32;
    (if m <= 2 {
        y + 1
    } else {
        y
    }, m, d)
}

/// Year `y` of the proleptic Gregorian calendar is a leap year.
pub open spec fn is_leap_year(y: int) -> bool {
    y % 4 == 0 && (y % 100 != 0 || y % 400 == 0)
}

/// Days in month `m` (1 to 12) of year `y`.
pub open spec fn days_in_month(y: int, m: int) -> int {
    if m == 2 {
        if is_leap_year(y) {
            29
        } else {
            28
        }
    } else if m == 4 || m == 6 || m == 9 || m == 11 {
        30
    } else {
        31
    }
}

/// Splitting a day of a March-based year (`doy`, 0 to 365 in a year whose February has a 29th,
/// to 364 otherwise) into a month index from March and a day: the day is within that month.
#[verifier::spinoff_prover]
proof fn lemma_month_split(doy: int, leap: bool)
    requires
        0 <= doy <= (if leap {
            365int
        } else {
            364int
        }),
    ensures
        ({
            let mp = (5 * doy + 2) / 153;
            let d = doy - (153 * mp + 2) / 5 + 1;
            let m = if mp < 10 {
                mp + 3
            } else {
                mp - 9
            };
            &&& 0 <= mp <= 11
            &&& 1 <= d
            &&& m == 2 ==> d <= (if leap {
                29int
            } else {
                28int
            })
            &&& m != 2 ==> d <= days_in_month(0, m)
        }),
{
}

/// Splitting a day of a 400-year era (`doe`, 0 to 146096) into a year of the era (counted
/// from March) and a day of that year: the year is within the era, and the day within the
/// year, which has a 366th day exactly when the February it ends with has a 29th.
#[verifier::spinoff_prover]
#[verifier::rlimit(100)]
proof fn lemma_year_split(doe: int)
    requires
        0 <= doe <= 146096,
    ensures
        ({
            let yoe = (doe - doe / 1460 + doe / 36524 - doe / 146096) / 365;
            let doy = doe - (365 * yoe + yoe / 4 - yoe / 100);
            &&& 0 <= yoe <= 399
            &&& 0 <= doy <= (if is_leap_year(yoe + 1) {
                365int
            } else {
                364int
            })
        }),
{
}

/// A month index from March and a day within that month give back the same month and day
/// when the day of the year they make is split again.
#[verifier::spinoff_prover]
proof fn lemma_month_unsplit(mp: int, d: int, leap: bool)
    requires
        0 <= mp <= 11,
        1 <= d,
        mp == 11 ==> d <= (if leap {
            29int
        } else {
            28int
        }),
        mp != 11 ==> d <= days_in_month(0, if mp < 10 {
            mp + 3
        } else {
            mp - 9
        }),
    ensures
        ({
            let doy = (153 * mp + 2) / 5 + d - 1;
            &&& 0 <= doy <= (if leap {
                365int
            } else {
                364int
            })
            &&& (5 * doy + 2) / 153 == mp
        }),
{
}

/// A year of the era and a day within that year give back the same year when the day of
/// the era they make is split again.
#[verifier::spinoff_prover]
#[verifier::rlimit(100)]
proof fn lemma_year_unsplit(yoe: int, doy: int)
    requires
        0 <= yoe <= 399,
        0 <= doy <= (if is_leap_year(yoe + 1) {
            365int
        } else {
            364int
        }),
    ensures
        ({
            let doe = 365 * yoe + yoe / 4 - yoe / 100 + doy;
            &&& 0 <= doe <= 146096
            &&& (doe - doe / 1460 + doe / 36524 - doe / 146096) / 365 == yoe
        }),
{
}

/// Shifting a year by whole 400-year eras keeps it leap or not.
proof fn lemma_leap_shift(y: int, era: int)
    ensures
        is_leap_year(y + era * 400) == is_leap_year(y),
{
    assert((y + era * 400) % 4 == y % 4) by (nonlinear_arith);
    assert((y + era * 400) % 100 == y % 100) by (nonlinear_arith);
    assert((y + era * 400) % 400 == y % 400) by (nonlinear_arith);
}

/// Every day count names a real calendar date: the month is 1 to 12, the day is within
/// that month of that year, and counting the days back from that date gives the day count
/// again.
#[verifier::spinoff_prover]
pub proof fn law_civil_date_is_valid_and_round_trips(z: int)
    ensures
        ({
            let (y, m, d) = civil_spec(z);
            &&& 1 <= m <= 12
            &&& 1 <= d <= days_in_month(y, m)
            &&& days_from_civil(y, m, d) == z
        }),
{
    let zs = z + 719468;
    let era = zs / 146097;
    let doe = zs - era * 146097;
    assert(0 <= doe <= 146096);
    lemma_year_split(doe);
    let yoe = (doe - doe / 1460 + doe / 36524 - doe / 146096) / 365;
    let doy = doe - (365 * yoe + yoe / 4 - yoe / 100);
    let leap = is_leap_year(yoe + 1);
    lemma_month_split(doy, leap);
    let mp = (5 * doy + 2) / 153;
    let d = doy - (153 * mp + 2) / 5 + 1;
    let m = if mp < 10 {
        mp + 3
    } else {
        mp - 9
    };
    let y = yoe + era * 400;
    let cy = if m <= 2 {
        y + 1
    } else {
        y
    };
    assert(civil_spec(z) == (cy, m, d));
    lemma_leap_shift(yoe + 1, era);
    assert(m == 2 ==> is_leap_year(cy) == leap);
    // Counting back: the March-based year and era come back whole.
    let yy = if m <= 2 {
        cy - 1
    } else {
        cy
    };
    assert(yy == y);
    assert(yy / 400 == era) by (nonlinear_arith)
        requires
            yy == yoe + era * 400,
            0 <= yoe <= 399,
    ;
    assert(yy - (yy / 400) * 400 == yoe);
    let mp2 = if m > 2 {
        m - 3
    } else {
        m + 9
    };
    assert(mp2 == mp);
}

/// Counting the days of a real calendar date and naming the day count again gives back that
/// date.
#[verifier::spinoff_prover]
#[verifier::rlimit(60)]
pub proof fn law_date_round_trips_through_its_day_count(y: int, m: int, d: int)
    requires
        1 <= m <= 12,
        1 <= d <= days_in_month(y, m),
    ensures
        civil_spec(days_from_civil(y, m, d)) == (y, m, d),
{
    let yy = if m <= 2 {
        y - 1
    } else {
        y
    };
    let era = yy / 400;
    let yoe = yy - era * 400;
    assert(0 <= yoe <= 399);
    let mp = if m > 2 {
        m - 3
    } else {
        m + 9
    };
    let leap = is_leap_year(yoe + 1);
    lemma_leap_shift(yoe + 1, era);
    assert(m == 2 ==> y == yoe + 1 + era * 400);
    lemma_month_unsplit(mp, d, leap);
    let doy = (153 * mp + 2) / 5 + d - 1;
    lemma_year_unsplit(yoe, doy);
    let doe = 365 * yoe + yoe / 4 - yoe / 100 + doy;
    let z = days_from_civil(y, m, d);
    assert(z == era * 146097 + doe - 719468);
    let zs = z + 719468;
    assert(zs / 146097 == era) by (nonlinear_arith)
        requires
            zs == era * 146097 + doe,
            0 <= doe <= 146096,
    ;
    assert(zs - era * 146097 == doe);
}

/// Formatting the instant of a calendar date and a time of day writes that date and time:
/// the year, the month and the day as given, then the hour and minute.
#[verifier::spinoff_prover]
pub proof fn law_format_writes_the_date_and_time(y: int, m: int, d: int, h: int, mi: int, sec: int)
    requires
        1 <= m <= 12,
        1 <= d <= days_in_month(y, m),
        0 <= h < 24,
        0 <= mi < 60,
        0 <= sec < 60,
    ensures
        unix_utc_text(days_from_civil(y, m, d) * 86400 + h * 3600 + mi * 60 + sec) == year_text(y)
            + "-"@ + dec_pad(m as nat, 2) + "-"@ + dec_pad(d as nat, 2) + " "@ + dec_pad(h as nat, 2)
            + ":"@ + dec_pad(mi as nat, 2) + " UTC"@,
{
    law_date_round_trips_through_its_day_count(y, m, d);
    let z = days_from_civil(y, m, d);
    let rem = h * 3600 + mi * 60 + sec;
    let secs = z * 86400 + rem;
    assert(secs / 86400 == z && secs % 86400 == rem) by (nonlinear_arith)
        requires
            secs == z * 86400 + rem,
            0 <= rem < 86400,
    ;
    assert(rem / 3600 == h && rem % 3600 / 60 == mi) by (nonlinear_arith)
        requires
            rem == h * 3600 + mi * 60 + sec,
            0 <= h < 24,
            0 <= mi < 60,
            0 <= sec < 60,
    ;
    assert((m as u32) as nat == m);
    assert((d as u32) as nat == d);
}

/// A year as `{y:04}` writes it: zero-padded to four places, a sign taking one of them.
pub open spec fn year_text(y: int) -> Seq<char> {
    if y >= 0 {
        dec_pad(y as nat, 4)
    } else {
        "-"@ + dec_pad((-y) as nat, 3)
    }
}

/// `YYYY-MM-DD HH:MM UTC` for Unix seconds `secs`.
pub open spec fn unix_utc_text(secs: int) -> Seq<char> {
    let c = civil_spec(secs / 86400);
    let rem = secs % 86400;
    year_text(c.0) + "-"@ + dec_pad((c.1 as u32) as nat, 2) + "-"@ + dec_pad(
        (c.2 as u32) as nat,
        2,
    ) + " "@ + dec_pad((rem / 3600) as nat, 2) + ":"@ + dec_pad((rem % 3600 / 60) as nat, 2)
        + " UTC"@
}

/// `secs` as `YYYY-MM-DD HH:MM UTC`.
pub fn format_unix_utc(secs: i64) -> (s: String)
    ensures
        s@ == unix_utc_text(secs as int),
{
    let (z, rem) = if secs >= 0 {
        (secs / 86400, secs % 86400)
    } else {
        let a = -(secs + 1);
        (-(a / 86400) - 1, 86399 - a % 86400)
    };
    assert(z == secs as int / 86400 && rem == secs as int % 86400) by (nonlinear_arith)
        requires
            secs >= 0 ==> z == secs as int / 86400 && rem == secs as int % 86400,
            secs < 0 ==> z == -((-(secs + 1)) / 86400) - 1 && rem == 86399 - (-(secs + 1))
                % 86400,
    ;
    let (y, m, d) = civil_from_days(z);
    let mut out = String::new();
    if y >= 0 {
        push_dec_pad(&mut out, y as u64, 4);
    } else {
        push_str(&mut out, "-");
        push_dec_pad(&mut out, (-y) as u64, 3);
    }
    push_str(&mut out, "-");
    push_dec_pad(&mut out, m as u64, 2);
    push_str(&mut out, "-");
    push_dec_pad(&mut out, d as u64, 2);
    push_str(&mut out, " ");
    push_dec_pad(&mut out, (rem / 3600) as u64, 2);
    push_str(&mut out, ":");
    push_dec_pad(&mut out, (rem % 3600 / 60) as u64, 2);
    push_str(&mut out, " UTC");
    assert(out@ =~= unix_utc_text(secs as int));
    out
}

/// UTF-8 byte length of `c`.
pub open spec fn utf8_len(c: char) -> nat {
    let u = c as u32;
    if u < 0x80 {
        1
    } else if u < 0x800 {
        2
    } else if u < 0x10000 {
        3
    } else {
        4
    }
}

/// UTF-8 byte length of the characters `s` (what `str::len` counts).
pub open spec fn byte_len(s: Seq<char>) -> nat
    decreases s.len(),
{
    if s.len() == 0 {
        0
    } else {
        byte_len(s.drop_last()) + utf8_len(s.last())
    }
}

/// The first 16 bytes of `s` end on a character boundary.
pub open spec fn boundary_at_16(s: Seq<char>) -> bool {
    exists|k: int| 0 <= k <= s.len() && byte_len(#[trigger] s.take(k)) == 16
}

/// The number of characters that make up the first 16 bytes of `s`.
pub open spec fn chars_in_16(s: Seq<char>) -> int {
    choose|k: int| 0 <= k <= s.len() && byte_len(#[trigger] s.take(k)) == 16
}

/// `s` with every `T` replaced by a space.
pub open spec fn t_to_space(s: Seq<char>) -> Seq<char> {
    s.map_values(|c: char| if c == 'T' { ' ' } else { c })
}

/// What [`gist_time_label`] shows: `unknown` for an empty value, the first 16 bytes with `T`
/// read as a space and ` UTC` appended for a long enough one, the value itself otherwise.
pub open spec fn gist_time_text(s: Seq<char>) -> Seq<char> {
    if s.len() == 0 {
        "unknown"@
    } else if byte_len(s) >= 16 {
        t_to_space(s.take(chars_in_16(s))) + " UTC"@
    } else {
        s
    }
}

fn utf8_width(c: char) -> (n: usize)
    ensures
        n == utf8_len(c),
{
    let u = c as u32;
    if u < 0x80 {
        1
    } else if u < 0x800 {
        2
    } else if u < 0x10000 {
        3
    } else {
        4
    }
}

pub proof fn lemma_byte_len_monotone(s: Seq<char>, a: int, b: int)
    requires
        0 <= a <= b <= s.len(),
    ensures
        byte_len(s.take(a)) <= byte_len(s.take(b)),
        a < b ==> byte_len(s.take(a)) < byte_len(s.take(b)),
    decreases b - a,
{
    if a < b {
        lemma_byte_len_monotone(s, a, b - 1);
        assert(s.take(b).drop_last() =~= s.take(b - 1));
    }
}

/// Normalises the gist API's RFC 3339 `updated_at` (e.g. `2026-06-08T11:06:18Z`) to
/// `2026-06-08 11:06 UTC` for display alongside the local file's mtime.
pub fn gist_time_label(updated_at: &str) -> (s: String)
    requires
        byte_len(updated_at@) >= 16 ==> boundary_at_16(updated_at@),
    ensures
        s@ == gist_time_text(updated_at@),
{
    let v = chars_of(updated_at);
    if v.len() == 0 {
        return owned("unknown");
    }
    // Walk characters until 16 bytes are covered.
    let mut bytes: usize = 0;
    let mut k: usize = 0;
    while k < v.len() && bytes < 16
        invariant
            k <= v@.len(),
            v@ == updated_at@,
            bytes == byte_len(v@.take(k as int)),
            k > 0 ==> byte_len(v@.take(k as int - 1)) < 16,
        decreases v.len() - k,
    {
        proof {
            assert(v@.take(k + 1).drop_last() =~= v@.take(k as int));
        }
        bytes = bytes + utf8_width(v[k]);
        k = k + 1;
    }
    proof {
        assert(v@.take(v@.len() as int) =~= v@);
    }
    if bytes < 16 {
        // The whole value is shorter than 16 bytes.
        return string_of(v.as_slice());
    }
    proof {
        if byte_len(v@) >= 16 {
            let j = choose|j: int| 0 <= j <= v@.len() && byte_len(#[trigger] v@.take(j)) == 16;
            if j < k {
                lemma_byte_len_monotone(v@, j, k as int - 1);
            } else if j > k {
                lemma_byte_len_monotone(v@, k as int, j);
            }
            assert(j == k);
        } else {
            lemma_byte_len_monotone(v@, k as int, v@.len() as int);
        }
    }
    let mut out = String::new();
    let mut i: usize = 0;
    while i < k
        invariant
            k <= v@.len(),
            i <= k,
            out@ == t_to_space(v@.take(i as int)),
        decreases k - i,
    {
        let c = v[i];
        push_char(
            &mut out,
            if c == 'T' {
                ' '
            } else {
                c
            },
        );
        i = i + 1;
        assert(out@ =~= t_to_space(v@.take(i as int)));
    }
    push_str(&mut out, " UTC");
    out
}

/// The two `--- / +++` labels of a local-vs-gist diff: the local file's name and mtime label
/// (`(none)` and `—` when there is no local file) and the gist's id, file name, and update time.
pub open spec fn diff_labels_spec(
    local_name: Option<Seq<char>>,
    local_time: Option<Seq<char>>,
    gist: GistFile,
) -> (Seq<char>, Seq<char>) {
    let name = match local_name {
        Some(n) => n,
        None => "(none)"@,
    };
    let time = match local_time {
        Some(t) => t,
        None => "—"@,
    };
    (
        "local: "@ + name + " ("@ + time + ")"@,
        "gist "@ + gist.gist_id@ + " / "@ + gist.filename@ + " ("@ + gist_time_text(
            gist.updated_at@,
        ) + ")"@,
    )
}

/// The diff labels for a gist file against an optional local file, given the local file's
/// name and its modification-time label (both read from disk by the caller).
pub fn diff_labels(local_name: Option<&str>, local_time: Option<&str>, gist: &GistFile) -> (r: (
    String,
    String,
))
    requires
        byte_len(gist.updated_at@) >= 16 ==> boundary_at_16(gist.updated_at@),
    ensures
        (r.0@, r.1@) == diff_labels_spec(opt_str_view(local_name), opt_str_view(local_time), *gist),
{
    let mut local_label = owned("local: ");
    match local_name {
        Some(n) => push_str(&mut local_label, n),
        None => push_str(&mut local_label, "(none)"),
    }
    push_str(&mut local_label, " (");
    match local_time {
        Some(t) => push_str(&mut local_label, t),
        None => push_str(&mut local_label, "—"),
    }
    push_str(&mut local_label, ")");
    let mut gist_label = owned("gist ");
    push_str(&mut gist_label, gist.gist_id.as_str());
    push_str(&mut gist_label, " / ");
    push_str(&mut gist_label, gist.filename.as_str());
    push_str(&mut gist_label, " (");
    let t = gist_time_label(gist.updated_at.as_str());
    push_str(&mut gist_label, t.as_str());
    push_str(&mut gist_label, ")");
    assert(local_label@ =~= diff_labels_spec(
        opt_str_view(local_name),
        opt_str_view(local_time),
        *gist,
    ).0);
    assert(gist_label@ =~= diff_labels_spec(
        opt_str_view(local_name),
        opt_str_view(local_time),
        *gist,
    ).1);
    (local_label, gist_label)
}

} // verus!
