//! The Revisions screen: its row labels and the handlers that apply fetched history and
//! restore results to the state.

use vstd::prelude::*;
use crate::domain::{
    humanize_age, humanize_age_spec, parse_rfc3339_to_unix, rfc3339_seconds, rfc3339_well_formed,
    GistRevision,
};
use crate::content_cache::{without_spec, ContentCache};
use crate::state::{revision_of, AppState, ListCursor, RevisionState, Screen};
use crate::domain::GistGroup;
use crate::labels::{count_label, count_text};
use crate::text::{chars_of, dec, is_blank, owned, push_char, push_dec, push_str, str_eq, strings_view, trim};
use crate::view_model::{ListPaneEmpty, ListPaneVm, PaneTitleVm, RowEmphasis, RowVm};

verus! {

/// What the event loop does after a background result was applied.
#[derive(Debug, Clone, Copy, PartialEq, Eq, Structural)]
pub enum LoopFlow {
    /// Go on and redraw.
    Proceed,
    /// The result was stale: skip the rest of this iteration.
    SkipIteration,
}

/// Rows a mouse-wheel tick moves on the Revisions screen.
pub fn wheel_step() -> (n: usize)
    ensures
        n == 1,
{
    1
}

/// Characters of a commit SHA that a row shows.
pub const SHORT_SHA_LEN: usize = 7;

/// The first seven characters of a commit SHA (all of it when shorter).
pub open spec fn short_sha_spec(version: Seq<char>) -> Seq<char> {
    if version.len() <= 7 {
        version
    } else {
        version.take(7)
    }
}

/// Abbreviate a commit SHA to the width a row shows.
pub fn short_sha(version: &str) -> (s: String)
    ensures
        s@ == short_sha_spec(version@),
{
    let v = chars_of(version);
    let n = if v.len() <= SHORT_SHA_LEN {
        v.len()
    } else {
        SHORT_SHA_LEN
    };
    let s = crate::text::string_of_range(v.as_slice(), 0, n);
    assert(v@.subrange(0, v@.len() as int) =~= v@);
    s
}

/// The age part of a row: the humanized time since the commit, or `?` when its timestamp
/// does not parse.
pub open spec fn age_part(committed_at: Seq<char>, now: int) -> Seq<char> {
    if rfc3339_well_formed(committed_at) {
        humanize_age_spec(now - rfc3339_seconds(committed_at))
    } else {
        seq!['?']
    }
}

/// One Revisions row: `#N  AGE ago  +A/-D  USER  SHA`, the newest marked ` (current)`.
pub open spec fn revision_row_spec(rev: GistRevision, index: nat, now: int) -> Seq<char> {
    seq!['#'] + dec(index + 1) + seq![' ', ' '] + age_part(rev.committed_at@, now) + " ago  +"@
        + dec(rev.change_status.additions as nat) + "/-"@ + dec(
        rev.change_status.deletions as nat,
    ) + seq![' ', ' '] + rev.user@ + seq![' ', ' '] + short_sha_spec(rev.version@) + (if index
        == 0 {
        " (current)"@
    } else {
        Seq::empty()
    })
}

/// Builds a single Revisions-screen row, `now` being the current Unix time.
pub fn revision_row_label(rev: &GistRevision, index: usize, now: u64) -> (s: String)
    requires
        index < usize::MAX,
        now <= i64::MAX,
    ensures
        s@ == revision_row_spec(*rev, index as nat, now as int),
{
    let age = match parse_rfc3339_to_unix(rev.committed_at.as_str()) {
        Some(t) => {
            proof {
                crate::domain::lemma_rfc3339_seconds_range(rev.committed_at@);
            }
            humanize_age((now as i64) - (t as i64))
        },
        None => {
            let mut q = String::new();
            push_char(&mut q, '?');
            q
        },
    };
    let mut s = String::new();
    push_char(&mut s, '#');
    push_dec(&mut s, (index + 1) as u64);
    push_str(&mut s, "  ");
    push_str(&mut s, age.as_str());
    push_str(&mut s, " ago  +");
    push_dec(&mut s, rev.change_status.additions as u64);
    push_str(&mut s, "/-");
    push_dec(&mut s, rev.change_status.deletions as u64);
    push_str(&mut s, "  ");
    push_str(&mut s, rev.user.as_str());
    push_str(&mut s, "  ");
    let sha = short_sha(rev.version.as_str());
    push_str(&mut s, sha.as_str());
    if index == 0 {
        push_str(&mut s, " (current)");
    }
    proof {
        reveal_strlit("  ");
        reveal_strlit(" ago  +");
        reveal_strlit("/-");
        reveal_strlit(" (current)");
        let tail: Seq<char> = if index == 0 {
            " (current)"@
        } else {
            Seq::empty()
        };
        assert(s@ =~= revision_row_spec(*rev, index as nat, now as int));
    }
    s
}

/// Whether the Revisions screen is up and shows gist `id`.
pub open spec fn revisions_show(screen: Screen, id: Seq<char>) -> bool {
    match revision_of(screen) {
        Some(r) => match r.gist_id {
            Some(g) => g@ == id,
            None => false,
        },
        None => false,
    }
}

/// The cursor after a fetch of `len` entries: pulled back into range, and shown from its
/// start when it had to move.
pub open spec fn cursor_after_fetch(c: ListCursor, len: nat) -> ListCursor {
    let index: usize = if len == 0 {
        0
    } else if c.index >= len {
        (len - 1) as usize
    } else {
        c.index
    };
    ListCursor { index, hscroll: if index != c.index { 0 } else { c.hscroll } }
}

/// Whether `r1` is the Revisions screen `r0` after its history fetch answered with `result`:
/// the entries replaced (an empty list and the error on failure) and the cursor kept in range.
pub open spec fn revisions_fetched(r0: RevisionState, r1: RevisionState, result: Result<Vec<GistRevision>, String>) -> bool {
    &&& r1.gist_id == r0.gist_id
    &&& r1.target_file == r0.target_file
    &&& match result {
        Ok(entries) => {
            &&& r1.entries == Some(entries)
            &&& r1.fetch_error.is_none()
            &&& r1.cursor == cursor_after_fetch(r0.cursor, entries@.len())
        },
        Err(e) => {
            &&& r1.entries matches Some(v) && v@.len() == 0
            &&& r1.fetch_error == Some(e)
            &&& r1.cursor == r0.cursor
        },
    }
}

/// The status a fetch leaves behind: a note when there is at most one revision.
pub open spec fn status_after_fetch(status: Option<String>, result: Result<Vec<GistRevision>, String>) -> Option<Seq<char>> {
    match result {
        Ok(entries) => if entries@.len() <= 1 {
            Some("only one revision — nothing to restore"@)
        } else {
            match status {
                Some(m) => Some(m@),
                None => None,
            }
        },
        Err(_) => match status {
            Some(m) => Some(m@),
            None => None,
        },
    }
}

/// The status message as characters.
pub open spec fn status_view(status: Option<String>) -> Option<Seq<char>> {
    match status {
        Some(m) => Some(m@),
        None => None,
    }
}

/// `RevisionsFetched` outcome. Returns [`LoopFlow::SkipIteration`], leaving the state as it
/// was, if the fetch belongs to a gist the Revisions screen has since navigated away from.
pub fn on_revisions_fetched(
    state: &mut AppState,
    gist_id: String,
    result: Result<Vec<GistRevision>, String>,
) -> (flow: LoopFlow)
    ensures
        !revisions_show(old(state).screen, gist_id@) ==> flow == LoopFlow::SkipIteration
            && *final(state) == *old(state),
        revisions_show(old(state).screen, gist_id@) ==> {
            &&& flow == LoopFlow::Proceed
            &&& revision_of(final(state).screen) matches Some(r1) && revisions_fetched(
                revision_of(old(state).screen)->0,
                r1,
                result,
            )
            &&& status_view(final(state).status) == status_after_fetch(old(state).status, result)
            &&& final(state).gist_list_stale == old(state).gist_list_stale
            &&& final(state).revisions_stale == old(state).revisions_stale
            &&& final(state).nav_stack == old(state).nav_stack
        },
{
    let matches = match &state.screen {
        Screen::Revisions(r) => match &r.gist_id {
            Some(g) => crate::text::str_eq(g.as_str(), gist_id.as_str()),
            None => false,
        },
        _ => false,
    };
    if !matches {
        return LoopFlow::SkipIteration;
    }
    let ghost r0 = revision_of(state.screen)->0;
    match result {
        Ok(entries) => {
            let short = entries.len() <= 1;
            match &mut state.screen {
                Screen::Revisions(rev) => {
                    rev.fetch_error = None;
                    let before = rev.cursor.index;
                    rev.cursor.clamp_len(entries.len());
                    if rev.cursor.index != before {
                        rev.cursor.hscroll = 0;
                    }
                    rev.entries = Some(entries);
                },
                _ => {},
            }
            if short {
                state.set_status(owned("only one revision — nothing to restore"));
            }
        },
        Err(error) => {
            match &mut state.screen {
                Screen::Revisions(rev) => {
                    rev.entries = Some(Vec::new());
                    rev.fetch_error = Some(error);
                },
                _ => {},
            }
        },
    }
    LoopFlow::Proceed
}

/// The status a failed restore shows.
pub open spec fn restore_failed_text(error: Seq<char>) -> Seq<char> {
    "restore failed: "@ + error
}

/// The status a successful restore shows.
pub open spec fn restored_text(filename: Seq<char>) -> Seq<char> {
    "Restored "@ + filename + " from old revision (new revision created)"@
}

/// The restore's confirm is up over the Revisions screen it was raised from.
pub open spec fn confirm_over_revisions(s: AppState) -> bool {
    &&& s.screen is Confirm
    &&& s.nav_stack@.len() > 0
    &&& s.nav_stack@.last() is Revisions
}

/// The screen a finished restore returns to: the Revisions screen below the restore's
/// confirm, or the screen on display.
pub open spec fn restore_base(s: AppState) -> Screen {
    if confirm_over_revisions(s) {
        s.nav_stack@.last()
    } else {
        s.screen
    }
}

/// `RestoreRevisionDone` outcome. On success: the restore's confirm closes back to the
/// Revisions screen below it (a fresh one when there is none), its history cleared for a
/// refetch; the gist list and that history are marked stale, and the restored file's cached
/// content is dropped (every other file keeps its own). On failure: only the status changes.
pub fn on_restore_revision_done(
    state: &mut AppState,
    cache: &mut ContentCache,
    result: Result<(), String>,
    gist_id: String,
    filename: String,
) -> (flow: LoopFlow)
    ensures
        flow == LoopFlow::Proceed,
        match result {
            Err(e) => {
                &&& status_view(final(state).status) == Some(restore_failed_text(e@))
                &&& final(state).screen == old(state).screen
                &&& final(state).gist_list_stale == old(state).gist_list_stale
                &&& final(state).revisions_stale == old(state).revisions_stale
                &&& final(state).nav_stack == old(state).nav_stack
                &&& final(cache).entries == old(cache).entries
            },
            Ok(()) => {
                let target = match revision_of(restore_base(*old(state))) {
                    Some(r) => r.gist_id,
                    None => None,
                };
                &&& status_view(final(state).status) == Some(restored_text(filename@))
                &&& final(state).gist_list_stale
                &&& final(state).revisions_stale == target
                &&& final(state).nav_stack@ == if confirm_over_revisions(*old(state)) {
                    old(state).nav_stack@.drop_last()
                } else {
                    old(state).nav_stack@
                }
                &&& revision_of(final(state).screen) matches Some(r) && r.gist_id == target
                    && r.entries.is_none() && r.fetch_error.is_none() && r.cursor.index == 0
                    && r.cursor.hscroll == 0
                &&& final(cache).entries@ == without_spec(old(cache).entries@, gist_id@, filename@)
            },
        },
{
    match result {
        Ok(()) => {
            let mut message = owned("Restored ");
            push_str(&mut message, filename.as_str());
            push_str(&mut message, " from old revision (new revision created)");
            state.set_status(message);
            let n = state.nav_stack.len();
            let back = match &state.screen {
                Screen::Confirm(_) => n > 0 && match &state.nav_stack[n - 1] {
                    Screen::Revisions(_) => true,
                    _ => false,
                },
                _ => false,
            };
            if back {
                state.leave();
            }
            let is_revisions = match &state.screen {
                Screen::Revisions(_) => true,
                _ => false,
            };
            if !is_revisions {
                state.screen = Screen::Revisions(RevisionState::new());
            }
            let mut target: Option<String> = None;
            match &mut state.screen {
                Screen::Revisions(rev) => {
                    rev.cursor = ListCursor::new();
                    rev.entries = None;
                    rev.fetch_error = None;
                    target = rev.gist_id.clone();
                },
                _ => {},
            }
            state.gist_list_stale = true;
            state.revisions_stale = target;
            cache.remove(gist_id.as_str(), filename.as_str());
        },
        Err(error) => {
            let mut message = owned("restore failed: ");
            push_str(&mut message, error.as_str());
            state.set_status(message);
        },
    }
    LoopFlow::Proceed
}

/// What the Revisions screen paints: its list pane and its footer.
#[derive(Debug, Clone, PartialEq, Eq)]
pub struct RevisionsVm {
    pub pane: ListPaneVm,
    pub footer: String,
    pub footer_colored: bool,
}

/// First index of `t` in `files`, or -1.
pub open spec fn index_of(files: Seq<Seq<char>>, t: Seq<char>) -> int
    decreases files.len(),
{
    if files.len() == 0 {
        -1
    } else if files.last() == t {
        let before = index_of(files.drop_last(), t);
        if before >= 0 {
            before
        } else {
            files.len() - 1
        }
    } else {
        index_of(files.drop_last(), t)
    }
}

/// The footer's name for the file whose history is shown: the file, plus `(n/total)` when
/// the gist has several (`n` counting from 1; 1 when the file is not among them).
pub open spec fn target_file_label_spec(rev: RevisionState, files: Seq<Seq<char>>) -> Seq<char> {
    if rev.gist_id.is_none() || files.len() <= 1 {
        rev.target_file@
    } else {
        let i = index_of(files, rev.target_file@);
        let n: nat = if i >= 0 {
            (i + 1) as nat
        } else {
            1
        };
        rev.target_file@ + " ("@ + dec(n) + "/"@ + dec(files.len()) + ")"@
    }
}

/// Footer label for the revision-history target file, including `(n/total)` when the gist
/// (whose file names are `files`) has several.
pub fn revision_target_file_label(rev: &RevisionState, files: &[String]) -> (s: String)
    ensures
        s@ == target_file_label_spec(*rev, strings_view(files@)),
{
    if rev.gist_id.is_none() || files.len() <= 1 {
        return rev.target_file.clone();
    }
    let ghost fv = strings_view(files@);
    let mut found: Option<usize> = None;
    let mut k: usize = 0;
    while k < files.len()
        invariant
            k <= files@.len(),
            fv == strings_view(files@),
            match found {
                Some(i) => i < k && index_of(fv.take(k as int), rev.target_file@) == i,
                None => index_of(fv.take(k as int), rev.target_file@) == -1,
            },
        decreases files@.len() - k,
    {
        assert(fv.take(k + 1).drop_last() =~= fv.take(k as int));
        if found.is_none() && str_eq(files[k].as_str(), rev.target_file.as_str()) {
            found = Some(k);
        }
        k = k + 1;
    }
    assert(fv.take(files@.len() as int) =~= fv);
    let n: u64 = match found {
        Some(i) => (i + 1) as u64,
        None => 1,
    };
    let mut s = rev.target_file.clone();
    push_str(&mut s, " (");
    push_dec(&mut s, n);
    push_str(&mut s, "/");
    push_dec(&mut s, files.len() as u64);
    push_str(&mut s, ")");
    s
}

/// How a gist is named in a title: its description, or its id when the description is
/// blank; the bare `gist_id` when the gist is not known.
pub open spec fn gist_label_spec(group: Option<GistGroup>, gist_id: Seq<char>) -> Seq<char> {
    match group {
        Some(g) => if trim(g.description@).len() == 0 {
            g.id@
        } else {
            g.description@
        },
        None => gist_id,
    }
}

/// Name a gist for a title.
pub fn gist_label(group: Option<&GistGroup>, gist_id: &str) -> (s: String)
    ensures
        s@ == gist_label_spec(
            match group {
                Some(g) => Some(*g),
                None => None,
            },
            gist_id@,
        ),
{
    match group {
        Some(g) => if is_blank(g.description.as_str()) {
            g.id.clone()
        } else {
            g.description.clone()
        },
        None => owned(gist_id),
    }
}

/// The facts of a Revisions screen that its painting reads: the gist, the entries, the fetch
/// error, the footer's file label and the cursor.
pub struct RevisionFacts {
    pub gist_id: Option<Seq<char>>,
    pub entries: Option<Seq<GistRevision>>,
    pub fetch_error: Option<Seq<char>>,
    pub file_label: Seq<char>,
    pub cursor: ListCursor,
}

/// The facts of `rev`, for a gist whose file names are `files`.
pub open spec fn facts_of(rev: RevisionState, files: Seq<Seq<char>>) -> RevisionFacts {
    RevisionFacts {
        gist_id: match rev.gist_id {
            Some(g) => Some(g@),
            None => None,
        },
        entries: match rev.entries {
            Some(e) => Some(e@),
            None => None,
        },
        fetch_error: match rev.fetch_error {
            Some(e) => Some(e@),
            None => None,
        },
        file_label: target_file_label_spec(rev, files),
        cursor: rev.cursor,
    }
}

/// The facts of a Revisions screen that has nothing yet.
pub open spec fn fresh_facts() -> RevisionFacts {
    RevisionFacts {
        gist_id: None,
        entries: None,
        fetch_error: None,
        file_label: Seq::empty(),
        cursor: ListCursor { index: 0, hscroll: 0 },
    }
}

/// The row labels of the Revisions pane.
pub open spec fn revision_rows_spec(entries: Seq<GistRevision>, now: int) -> Seq<Seq<char>> {
    Seq::new(entries.len(), |i: int| revision_row_spec(entries[i], i as nat, now))
}

/// The label views of rows.
pub open spec fn row_labels(rows: Seq<RowVm>) -> Seq<Seq<char>> {
    rows.map_values(|r: RowVm| r.label@)
}

/// Whether `vm` paints a Revisions screen with facts `f`: the status message, else the
/// loading note, else the fetch error, else the target file in the footer (never
/// colourised); the gist's name and entry count in the title; one row per entry, or the
/// loading or empty message.
pub open spec fn revisions_vm_ok(
    vm: RevisionsVm,
    status: Option<String>,
    f: RevisionFacts,
    group: Option<GistGroup>,
    now: int,
) -> bool {
    let label = gist_label_spec(
        group,
        match f.gist_id {
            Some(g) => g,
            None => Seq::empty(),
        },
    );
    let count: nat = match f.entries {
        Some(e) => e.len(),
        None => 0,
    };
    &&& vm.footer@ == (match status {
        Some(m) => m@,
        None => if f.entries.is_none() {
            "Loading revisions…"@
        } else {
            match f.fetch_error {
                Some(e) => e,
                None => "file="@ + f.file_label,
            }
        },
    })
    &&& !vm.footer_colored
    &&& vm.pane.title.segments@.len() == 1
    &&& vm.pane.title.segments@[0]@ == "Revisions: "@ + label + seq![' '] + count_text(count, count)
    &&& vm.pane.title.short_head.is_none()
    &&& vm.pane.title.context.is_none()
    &&& vm.pane.focused
    &&& !vm.pane.scrollbar
    &&& vm.pane.hscroll == f.cursor.hscroll
    &&& match f.entries {
        None => {
            &&& vm.pane.empty == ListPaneEmpty::Loading
            &&& vm.pane.empty_message matches Some(m) && m@ == "  ⏳ Loading revisions…"@
            &&& vm.pane.rows@.len() == 0
            &&& vm.pane.selected.is_none()
        },
        Some(e) => if e.len() == 0 {
            &&& vm.pane.empty == ListPaneEmpty::NoItems
            &&& vm.pane.empty_message matches Some(m) && m@ == "  📭 No revisions found"@
            &&& vm.pane.rows@.len() == 0
            &&& vm.pane.selected.is_none()
        } else {
            &&& vm.pane.empty == ListPaneEmpty::HasRows
            &&& vm.pane.empty_message.is_none()
            &&& row_labels(vm.pane.rows@) == revision_rows_spec(e, now)
            &&& forall|i: int|
                0 <= i < vm.pane.rows@.len() ==> #[trigger] vm.pane.rows@[i].emphasis
                    == RowEmphasis::Plain
            &&& vm.pane.selected == Some(f.cursor.index)
        },
    }
}

/// Builds the Revisions screen from `state` (read as a fresh Revisions screen when another
/// screen is up). `group` is the gist the screen shows, when it is known, `files` its file
/// names, and `now` the current Unix time.
pub fn build_revisions_vm(
    state: &AppState,
    group: Option<&GistGroup>,
    files: &[String],
    now: u64,
) -> (vm: RevisionsVm)
    requires
        now <= i64::MAX,
    ensures
        revisions_vm_ok(
            vm,
            state.status,
            match revision_of(state.screen) {
                Some(r) => facts_of(r, strings_view(files@)),
                None => fresh_facts(),
            },
            match group {
                Some(g) => Some(*g),
                None => None,
            },
            now as int,
        ),
{
    let fresh = RevisionState::new();
    let rev = match &state.screen {
        Screen::Revisions(r) => r,
        _ => &fresh,
    };
    let ghost facts = facts_of(*rev, strings_view(files@));
    proof {
        if revision_of(state.screen) is None {
            assert(facts.file_label =~= Seq::<char>::empty());
            assert(facts == fresh_facts());
        }
    }
    let (footer, footer_colored) = match &state.status {
        Some(message) => (message.clone(), false),
        None => match &rev.entries {
            None => (owned("Loading revisions…"), false),
            Some(_) => match &rev.fetch_error {
                Some(err) => (err.clone(), false),
                None => {
                    let mut f = owned("file=");
                    let file = revision_target_file_label(rev, files);
                    push_str(&mut f, file.as_str());
                    (f, false)
                },
            },
        },
    };
    let empty_id = String::new();
    let gist_id: &str = match &rev.gist_id {
        Some(g) => g.as_str(),
        None => empty_id.as_str(),
    };
    let label = gist_label(group, gist_id);
    let mut rows: Vec<RowVm> = Vec::new();
    let (empty, empty_message, selected) = match &rev.entries {
        None => (ListPaneEmpty::Loading, Some(owned("  ⏳ Loading revisions…")), None),
        Some(entries) => if entries.len() == 0 {
            (ListPaneEmpty::NoItems, Some(owned("  📭 No revisions found")), None)
        } else {
            let mut i: usize = 0;
            while i < entries.len()
                invariant
                    i <= entries@.len(),
                    now <= i64::MAX,
                    row_labels(rows@) == revision_rows_spec(entries@, now as int).take(i as int),
                    forall|k: int|
                        0 <= k < rows@.len() ==> #[trigger] rows@[k].emphasis
                            == RowEmphasis::Plain,
                    rows@.len() == i,
                decreases entries@.len() - i,
            {
                let ghost prev = rows@;
                rows.push(
                    RowVm {
                        label: revision_row_label(&entries[i], i, now),
                        emphasis: RowEmphasis::Plain,
                    },
                );
                assert(row_labels(rows@) =~= row_labels(prev).push(rows@[i as int].label@));
                assert(revision_rows_spec(entries@, now as int).take(i + 1) =~= revision_rows_spec(
                    entries@,
                    now as int,
                ).take(i as int).push(revision_row_spec(entries@[i as int], i as nat, now as int)));
                i = i + 1;
            }
            assert(revision_rows_spec(entries@, now as int).take(entries@.len() as int)
                =~= revision_rows_spec(entries@, now as int));
            (ListPaneEmpty::HasRows, None, Some(rev.cursor.index))
        },
    };
    let count = rows.len();
    let mut title = owned("Revisions: ");
    push_str(&mut title, label.as_str());
    proof {
        reveal_strlit(" ");
        assert(" "@ =~= seq![' ']);
    }
    push_str(&mut title, " ");
    let counted = count_label(count, count);
    push_str(&mut title, counted.as_str());
    RevisionsVm {
        pane: ListPaneVm {
            title: PaneTitleVm::new(title),
            focused: true,
            selected,
            empty,
            empty_message,
            rows,
            hscroll: rev.cursor.hscroll,
            scrollbar: false,
        },
        footer,
        footer_colored,
    }
}

} // verus!
