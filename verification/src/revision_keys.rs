//! The Revisions screen's keys: which keys would act for the selected revision (the guard
//! the key handler and the command palette share), what each key does, and moving and
//! clicking in the revision list.

use vstd::prelude::*;
use crate::domain::{humanize_age, humanize_age_spec, parse_rfc3339_to_unix, GistRevision};
use crate::keys::{Key, NavAction};
use crate::list_keys::{move_cursor, moved_cursor};
use crate::revisions::{age_part, index_of, short_sha, short_sha_spec};
use crate::state::{ListCursor, RevisionState};
use crate::text::{owned, push_char, push_str, str_eq, strings_view};

verus! {

/// What the Revisions keys read of the gist whose history is shown.
pub struct RevisionGist {
    /// The gist is the signed-in user's.
    pub owned: bool,
    /// The gist's file names, in display order.
    pub files: Vec<String>,
    /// The file whose history is shown can be previewed as text.
    pub previewable: bool,
    /// Where the file's current content is fetched from, when known.
    pub raw_url: Option<String>,
    /// The gist owner's login.
    pub owner_login: String,
}

/// What a key on the Revisions screen asks the rest of the program to do.
#[derive(Debug, Clone, PartialEq, Eq)]
pub enum RevisionKeyOutcome {
    Nothing,
    /// Back to the screen the Revisions screen was opened from.
    Leave,
    OpenHelp,
    /// Diff the selected revision against the one before it (`None`: it is the first).
    DiffIncremental {
        gist_id: String,
        filename: String,
        child_version: String,
        parent_version: Option<String>,
        old_label: String,
        new_label: String,
        owner_login: String,
    },
    /// Diff the selected revision against the current content.
    DiffAgainstCurrent {
        gist_id: String,
        filename: String,
        version: String,
        old_label: String,
        new_label: String,
        raw_url: Option<String>,
        owner_login: String,
    },
    /// Fetch what restoring the selected revision would change, for the restore confirm.
    RestorePreview {
        gist_id: String,
        filename: String,
        version: String,
        version_label: String,
        raw_url: Option<String>,
        owner_login: String,
    },
    /// The file cannot be previewed as text: say why.
    PreviewBlocked { gist_id: String, filename: String },
}

/// How many revisions are loaded.
pub open spec fn entries_len(rev: RevisionState) -> nat {
    match rev.entries {
        Some(e) => e@.len(),
        None => 0,
    }
}

/// The revision under the cursor.
pub open spec fn selected_entry(rev: RevisionState) -> Option<GistRevision> {
    match rev.entries {
        Some(e) => if rev.cursor.index < e@.len() {
            Some(e@[rev.cursor.index as int])
        } else {
            None
        },
        None => None,
    }
}

/// Whether `key` would act on the Revisions screen. The key handler gates its actions on
/// it and the command palette lists only what passes it.
pub open spec fn revisions_guard_spec(rev: RevisionState, g: RevisionGist, key: Key) -> bool {
    let n = entries_len(rev);
    let not_head = rev.cursor.index > 0;
    if key == Key::Enter {
        n > 0 && g.previewable && rev.gist_id is Some
    } else if key == Key::Char('D') {
        n > 0 && not_head && g.previewable && rev.gist_id is Some
    } else if key == Key::Char('r') {
        n > 1 && not_head && g.owned && rev.gist_id is Some
    } else if key == Key::Char('F') {
        rev.gist_id is Some && g.files@.len() > 1
    } else {
        false
    }
}

/// Whether `key` would act on the Revisions screen (see [`revisions_guard_spec`]).
pub fn revisions_guard(rev: &RevisionState, g: &RevisionGist, key: Key) -> (r: bool)
    ensures
        r == revisions_guard_spec(*rev, *g, key),
{
    let n = match &rev.entries {
        Some(e) => e.len(),
        None => 0,
    };
    let not_head = rev.cursor.index > 0;
    let has_gist = rev.gist_id.is_some();
    if key == Key::Enter {
        n > 0 && g.previewable && has_gist
    } else if key == Key::Char('D') {
        n > 0 && not_head && g.previewable && has_gist
    } else if key == Key::Char('r') {
        n > 1 && not_head && g.owned && has_gist
    } else if key == Key::Char('F') {
        has_gist && g.files.len() > 1
    } else {
        false
    }
}

/// How a revision is named in diff labels and the restore prompt: its short SHA and how
/// long ago it was committed.
pub open spec fn version_label_spec(rev: GistRevision, now: int) -> Seq<char> {
    short_sha_spec(rev.version@) + " ("@ + age_part(rev.committed_at@, now) + " ago)"@
}

/// Name a revision for diff labels and the restore prompt, `now` being the Unix time.
pub fn revision_version_label(rev: &GistRevision, now: u64) -> (s: String)
    requires
        now <= i64::MAX,
    ensures
        s@ == version_label_spec(*rev, now as int),
{
    let age = match parse_rfc3339_to_unix(rev.committed_at.as_str()) {
        Some(t) => {
            proof {
                crate::domain::lemma_rfc3339_seconds_range(rev.committed_at@);
            }
            humanize_age((now as i64) - (t as i64))
        },
        None => {
            let mut q = String::new();
            push_char(&mut q, '?');
            q
        },
    };
    let mut s = short_sha(rev.version.as_str());
    push_str(&mut s, " (");
    push_str(&mut s, age.as_str());
    push_str(&mut s, " ago)");
    s
}

/// The status for `D` on the newest revision, and for `r` there.
pub open spec fn at_current_text() -> Seq<char> {
    "already at current revision"@
}

/// What a key on the Revisions screen does: the status it sets (the status is cleared
/// first) and what it asks for. The target file changes only through `F`, as
/// [`cycled_target`] says.
pub open spec fn revision_key_spec(rev: RevisionState, g: RevisionGist, key: Key, now: int) -> (
    Option<Seq<char>>,
    Option<RevisionOutcomeView>,
) {
    let n = entries_len(rev);
    let not_head = rev.cursor.index > 0;
    let guard = revisions_guard_spec(rev, g, key);
    let file = rev.target_file@;
    if key == Key::Char('q') || key == Key::Esc {
        (None, Some(RevisionOutcomeView::Leave))
    } else if key == Key::Enter && guard {
        (
            None,
            match selected_entry(rev) {
                Some(child) => {
                    let parent = if rev.cursor.index + 1 < n {
                        Some(rev.entries->0@[rev.cursor.index + 1])
                    } else {
                        None
                    };
                    Some(
                        RevisionOutcomeView::DiffIncremental(
                            rev.gist_id->0@,
                            file,
                            child.version@,
                            match parent {
                                Some(p) => Some(p.version@),
                                None => None,
                            },
                            match parent {
                                Some(p) => "revision "@ + version_label_spec(p, now),
                                None => "(initial)"@,
                            },
                            "revision "@ + version_label_spec(child, now),
                        ),
                    )
                },
                None => Some(RevisionOutcomeView::Nothing),
            },
        )
    } else if key == Key::Char('D') && n > 0 && not_head && rev.gist_id is Some {
        (
            None,
            match selected_entry(rev) {
                Some(r) => if g.previewable {
                    Some(
                        RevisionOutcomeView::DiffAgainstCurrent(
                            rev.gist_id->0@,
                            file,
                            r.version@,
                            "revision "@ + version_label_spec(r, now),
                            "current "@ + file,
                        ),
                    )
                } else {
                    Some(RevisionOutcomeView::PreviewBlocked(rev.gist_id->0@, file))
                },
                None => Some(RevisionOutcomeView::Nothing),
            },
        )
    } else if key == Key::Char('D') && n > 0 && !not_head {
        (Some(at_current_text()), Some(RevisionOutcomeView::Nothing))
    } else if key == Key::Char('r') && guard {
        (
            None,
            match selected_entry(rev) {
                Some(r) => Some(
                    RevisionOutcomeView::RestorePreview(
                        rev.gist_id->0@,
                        file,
                        r.version@,
                        version_label_spec(r, now),
                    ),
                ),
                None => Some(RevisionOutcomeView::Nothing),
            },
        )
    } else if key == Key::Char('r') && n <= 1 {
        (Some("only one revision — nothing to restore"@), Some(RevisionOutcomeView::Nothing))
    } else if key == Key::Char('r') && !not_head {
        (Some(at_current_text()), Some(RevisionOutcomeView::Nothing))
    } else if key == Key::Char('F') && !guard {
        (Some("only one file in this gist"@), Some(RevisionOutcomeView::Nothing))
    } else if key == Key::Char('?') {
        (None, Some(RevisionOutcomeView::OpenHelp))
    } else {
        (None, Some(RevisionOutcomeView::Nothing))
    }
}

/// An outcome, its strings read as characters (the raw URL and owner login, passed through
/// from [`RevisionGist`], aside).
pub enum RevisionOutcomeView {
    Nothing,
    Leave,
    OpenHelp,
    DiffIncremental(Seq<char>, Seq<char>, Seq<char>, Option<Seq<char>>, Seq<char>, Seq<char>),
    DiffAgainstCurrent(Seq<char>, Seq<char>, Seq<char>, Seq<char>, Seq<char>),
    RestorePreview(Seq<char>, Seq<char>, Seq<char>, Seq<char>),
    PreviewBlocked(Seq<char>, Seq<char>),
}

/// The view of an outcome; the raw URL and owner login are checked against `g` as well.
pub open spec fn revision_outcome_view(o: RevisionKeyOutcome, g: RevisionGist) -> Option<
    RevisionOutcomeView,
> {
    match o {
        RevisionKeyOutcome::Nothing => Some(RevisionOutcomeView::Nothing),
        RevisionKeyOutcome::Leave => Some(RevisionOutcomeView::Leave),
        RevisionKeyOutcome::OpenHelp => Some(RevisionOutcomeView::OpenHelp),
        RevisionKeyOutcome::DiffIncremental {
            gist_id,
            filename,
            child_version,
            parent_version,
            old_label,
            new_label,
            owner_login,
        } => if owner_login == g.owner_login {
            Some(
                RevisionOutcomeView::DiffIncremental(
                    gist_id@,
                    filename@,
                    child_version@,
                    match parent_version {
                        Some(p) => Some(p@),
                        None => None,
                    },
                    old_label@,
                    new_label@,
                ),
            )
        } else {
            None
        },
        RevisionKeyOutcome::DiffAgainstCurrent {
            gist_id,
            filename,
            version,
            old_label,
            new_label,
            raw_url,
            owner_login,
        } => if owner_login == g.owner_login && raw_url == g.raw_url {
            Some(
                RevisionOutcomeView::DiffAgainstCurrent(
                    gist_id@,
                    filename@,
                    version@,
                    old_label@,
                    new_label@,
                ),
            )
        } else {
            None
        },
        RevisionKeyOutcome::RestorePreview {
            gist_id,
            filename,
            version,
            version_label,
            raw_url,
            owner_login,
        } => if owner_login == g.owner_login && raw_url == g.raw_url {
            Some(RevisionOutcomeView::RestorePreview(gist_id@, filename@, version@, version_label@))
        } else {
            None
        },
        RevisionKeyOutcome::PreviewBlocked { gist_id, filename } => Some(
            RevisionOutcomeView::PreviewBlocked(gist_id@, filename@),
        ),
    }
}

/// The file `F` moves the history to: the one after the current target in the gist's file
/// list, wrapping (from the first when the target is not among them).
pub open spec fn cycled_target(files: Seq<Seq<char>>, target: Seq<char>) -> Seq<char> {
    let i = index_of(files, target);
    let p = if i >= 0 {
        i
    } else {
        0
    };
    files[(p + 1) % (files.len() as int)]
}

/// Where `t` first occurs in `files`.
pub fn position_of(files: &[String], t: &str) -> (r: Option<usize>)
    ensures
        match r {
            Some(i) => i < files@.len() && index_of(strings_view(files@), t@) == i,
            None => index_of(strings_view(files@), t@) == -1,
        },
{
    let ghost fv = strings_view(files@);
    let mut found: Option<usize> = None;
    let mut k: usize = 0;
    while k < files.len()
        invariant
            k <= files@.len(),
            fv == strings_view(files@),
            match found {
                Some(i) => i < k && index_of(fv.take(k as int), t@) == i,
                None => index_of(fv.take(k as int), t@) == -1,
            },
        decreases files@.len() - k,
    {
        assert(fv.take(k + 1).drop_last() =~= fv.take(k as int));
        if found.is_none() && str_eq(files[k].as_str(), t) {
            found = Some(k);
        }
        k = k + 1;
    }
    assert(fv.take(files@.len() as int) =~= fv);
    found
}

/// A copy of an optional string.
fn copy_opt(o: &Option<String>) -> (r: Option<String>)
    ensures
        r == *o,
{
    match o {
        Some(s) => Some(s.clone()),
        None => None,
    }
}

/// Apply `key` to the Revisions screen: update its target file and the status line, and
/// return what the rest of the program is asked to do (see [`revision_key_spec`]), `now`
/// being the Unix time the labels measure ages against.
pub fn handle_key_revisions(
    rev: &mut RevisionState,
    status: &mut Option<String>,
    g: &RevisionGist,
    key: Key,
    now: u64,
) -> (out: RevisionKeyOutcome)
    requires
        now <= i64::MAX,
    ensures
        ({
            let e = revision_key_spec(*old(rev), *g, key, now as int);
            &&& revision_outcome_view(out, *g) == e.1
            &&& crate::list_keys::opt_chars(*final(status)) == e.0
        }),
        final(rev).gist_id == old(rev).gist_id,
        final(rev).entries == old(rev).entries,
        final(rev).fetch_error == old(rev).fetch_error,
        final(rev).cursor == old(rev).cursor,
        final(rev).target_file@ == (if key == Key::Char('F') && revisions_guard_spec(
            *old(rev),
            *g,
            key,
        ) {
            cycled_target(strings_view(g.files@), old(rev).target_file@)
        } else {
            old(rev).target_file@
        }),
{
    *status = None;
    let n = match &rev.entries {
        Some(e) => e.len(),
        None => 0,
    };
    let not_head = rev.cursor.index > 0;
    let guard = revisions_guard(rev, g, key);
    if key == Key::Char('q') || key == Key::Esc {
        return RevisionKeyOutcome::Leave;
    }
    if key == Key::Enter && guard {
        let gist_id = match &rev.gist_id {
            Some(id) => id.clone(),
            None => return RevisionKeyOutcome::Nothing,
        };
        let entries = match &rev.entries {
            Some(e) => e,
            None => return RevisionKeyOutcome::Nothing,
        };
        let i = rev.cursor.index;
        if i >= entries.len() {
            return RevisionKeyOutcome::Nothing;
        }
        let child = &entries[i];
        let (parent_version, old_label) = if i + 1 < entries.len() {
            let parent = &entries[i + 1];
            let mut label = owned("revision ");
            let pl = revision_version_label(parent, now);
            push_str(&mut label, pl.as_str());
            (Some(parent.version.clone()), label)
        } else {
            (None, owned("(initial)"))
        };
        let mut new_label = owned("revision ");
        let cl = revision_version_label(child, now);
        push_str(&mut new_label, cl.as_str());
        return RevisionKeyOutcome::DiffIncremental {
            gist_id,
            filename: rev.target_file.clone(),
            child_version: child.version.clone(),
            parent_version,
            old_label,
            new_label,
            owner_login: g.owner_login.clone(),
        };
    }
    if key == Key::Char('D') && n > 0 && not_head && rev.gist_id.is_some() {
        let gist_id = match &rev.gist_id {
            Some(id) => id.clone(),
            None => return RevisionKeyOutcome::Nothing,
        };
        let entries = match &rev.entries {
            Some(e) => e,
            None => return RevisionKeyOutcome::Nothing,
        };
        let i = rev.cursor.index;
        if i >= entries.len() {
            return RevisionKeyOutcome::Nothing;
        }
        if !g.previewable {
            return RevisionKeyOutcome::PreviewBlocked { gist_id, filename: rev.target_file.clone() };
        }
        let r = &entries[i];
        let mut old_label = owned("revision ");
        let vl = revision_version_label(r, now);
        push_str(&mut old_label, vl.as_str());
        let mut new_label = owned("current ");
        push_str(&mut new_label, rev.target_file.as_str());
        return RevisionKeyOutcome::DiffAgainstCurrent {
            gist_id,
            filename: rev.target_file.clone(),
            version: r.version.clone(),
            old_label,
            new_label,
            raw_url: copy_opt(&g.raw_url),
            owner_login: g.owner_login.clone(),
        };
    }
    if key == Key::Char('D') && n > 0 && !not_head {
        *status = Some(owned("already at current revision"));
        return RevisionKeyOutcome::Nothing;
    }
    if key == Key::Char('r') && guard {
        let gist_id = match &rev.gist_id {
            Some(id) => id.clone(),
            None => return RevisionKeyOutcome::Nothing,
        };
        let entries = match &rev.entries {
            Some(e) => e,
            None => return RevisionKeyOutcome::Nothing,
        };
        let i = rev.cursor.index;
        if i >= entries.len() {
            return RevisionKeyOutcome::Nothing;
        }
        let r = &entries[i];
        return RevisionKeyOutcome::RestorePreview {
            gist_id,
            filename: rev.target_file.clone(),
            version: r.version.clone(),
            version_label: revision_version_label(r, now),
            raw_url: copy_opt(&g.raw_url),
            owner_login: g.owner_login.clone(),
        };
    }
    if key == Key::Char('r') && n <= 1 {
        *status = Some(owned("only one revision — nothing to restore"));
        return RevisionKeyOutcome::Nothing;
    }
    if key == Key::Char('r') && !not_head {
        *status = Some(owned("already at current revision"));
        return RevisionKeyOutcome::Nothing;
    }
    if key == Key::Char('F') {
        if !guard {
            *status = Some(owned("only one file in this gist"));
        } else {
            let p = match position_of(g.files.as_slice(), rev.target_file.as_str()) {
                Some(i) => i,
                None => 0,
            };
            assert(p < g.files@.len());
            let next = (p + 1) % g.files.len();
            rev.target_file = g.files[next].clone();
        }
        return RevisionKeyOutcome::Nothing;
    }
    if key == Key::Char('?') {
        return RevisionKeyOutcome::OpenHelp;
    }
    RevisionKeyOutcome::Nothing
}

/// Arrow, `hjkl` and page-key navigation on the Revisions screen: move the revision cursor
/// (stopping at the first and last revisions), or scroll the selected row sideways up to
/// `hmax`. Nothing moves, and the result is `false`, while no revision is loaded.
pub fn apply_navigation_revisions(rev: &mut RevisionState, action: NavAction, hmax: u16) -> (moved: bool)
    ensures
        moved == (entries_len(*old(rev)) > 0),
        final(rev).cursor == (if moved {
            moved_cursor(old(rev).cursor, entries_len(*old(rev)) as int, action, hmax as int)
        } else {
            old(rev).cursor
        }),
        final(rev).gist_id == old(rev).gist_id,
        final(rev).entries == old(rev).entries,
        final(rev).fetch_error == old(rev).fetch_error,
        final(rev).target_file == old(rev).target_file,
{
    let n = match &rev.entries {
        Some(e) => e.len(),
        None => 0,
    };
    if n == 0 {
        return false;
    }
    rev.cursor = move_cursor(rev.cursor, n, action, hmax);
    true
}

/// A click on the revision list: on row `index` it selects that revision; on the blank area
/// (`None`) it does nothing. Returns whether a row was hit.
pub fn click_select_revisions(rev: &mut RevisionState, index: Option<usize>) -> (hit: bool)
    ensures
        hit == index is Some,
        final(rev).cursor == (match index {
            Some(i) => ListCursor { index: i, hscroll: 0 },
            None => old(rev).cursor,
        }),
        final(rev).gist_id == old(rev).gist_id,
        final(rev).entries == old(rev).entries,
        final(rev).fetch_error == old(rev).fetch_error,
        final(rev).target_file == old(rev).target_file,
{
    match index {
        Some(i) => {
            rev.cursor.select(i);
            true
        },
        None => false,
    }
}

/// The outcome performs the key's action (as opposed to doing nothing or explaining why it
/// cannot).
pub open spec fn revision_acts(v: Option<RevisionOutcomeView>) -> bool {
    match v {
        Some(RevisionOutcomeView::DiffIncremental(..)) => true,
        Some(RevisionOutcomeView::DiffAgainstCurrent(..)) => true,
        Some(RevisionOutcomeView::RestorePreview(..)) => true,
        _ => false,
    }
}

/// The handler and the guard never drift apart: with the cursor on a loaded revision,
/// `Enter`, `D` and `r` act exactly when the guard says they would.
pub proof fn law_revision_keys_act_iff_guard(rev: RevisionState, g: RevisionGist, key: Key, now: int)
    requires
        key == Key::Enter || key == Key::Char('D') || key == Key::Char('r'),
        selected_entry(rev) is Some,
    ensures
        revision_acts(revision_key_spec(rev, g, key, now).1) == revisions_guard_spec(rev, g, key),
{
}

} // verus!
