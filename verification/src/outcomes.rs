//! Applying what the screens' keys ask for to the shared state: raising and closing the
//! confirms, leaving a screen, opening the screens a key names. What needs the gist service
//! or the disk (a fetch, a write, an upload) is left to the event loop and changes nothing
//! here.

use vstd::prelude::*;
use crate::confirm::PendingAction;
use crate::confirm_flow::{confirm_action, raise_confirm, ConfirmKeyOutcome};
use crate::detail_keys::DetailAction;
use crate::diff_flow::DiffKeyOutcome;
use crate::list_keys::ListKeyOutcome;
use crate::mouse::{open_over, opened_over, same_kind, TopScreen};
use crate::gists_screen::{GistsKeyOutcome, GistsState};
use crate::pins_screen::PinsKeyOutcome;
use crate::palette_screen::{PaletteKeyOutcome, PaletteState};
use crate::config_screen::ConfigAction;
use crate::preview::{PreviewAction, PreviewState};
use crate::screens::{help_opened_on, open_help};
use crate::state::{went_back, AppState, ListCursor, RevisionState, Screen};

verus! {

/// `s1` is `s0` back on the List screen with no way back left; nothing else changed.
pub open spec fn backed_to_list(s0: AppState, s1: AppState) -> bool {
    &&& s1.screen == Screen::List
    &&& s1.nav_stack@.len() == 0
    &&& s1.status == s0.status
    &&& s1.gist_list_stale == s0.gist_list_stale
    &&& s1.revisions_stale == s0.revisions_stale
}

/// `s1` is `s0` with the confirm for `action` up on `text`, scrolled to the top, over the
/// screen that was on display, which is remembered to return to.
pub open spec fn confirm_raised(s0: AppState, s1: AppState, action: PendingAction, text: Seq<char>) -> bool {
    &&& s1.screen matches Screen::Confirm(c) && c.action == action && c.body.text@ == text
        && c.body.scroll == 0 && c.body.hscroll == 0
    &&& s1.nav_stack@ == s0.nav_stack@.push(s0.screen)
    &&& s1.status == s0.status
    &&& s1.gist_list_stale == s0.gist_list_stale
    &&& s1.revisions_stale == s0.revisions_stale
}

/// `s1` is `s0` with the help page opened on the topic of the screen on display.
pub open spec fn help_opened(s0: AppState, s1: AppState) -> bool {
    &&& s1.screen == Screen::Help(help_opened_on(s0.screen))
    &&& s1.nav_stack@ == s0.nav_stack@.push(s0.screen)
    &&& s1.status == s0.status
    &&& s1.gist_list_stale == s0.gist_list_stale
    &&& s1.revisions_stale == s0.revisions_stale
}

/// `s1` is `s0` with the Revisions screen for `gist_id` opened (on `target_file`, nothing
/// fetched yet) over the screen on display, which is remembered to return to.
pub open spec fn revisions_opened(s0: AppState, s1: AppState, gist_id: Seq<char>, target_file: Seq<char>) -> bool {
    &&& s1.screen matches Screen::Revisions(r) && r.gist_id matches Some(g) && g@ == gist_id
        && r.target_file@ == target_file && r.entries.is_none() && r.fetch_error.is_none()
        && r.cursor == (ListCursor { index: 0, hscroll: 0 })
    &&& s1.nav_stack@ == s0.nav_stack@.push(s0.screen)
    &&& s1.status == s0.status
    &&& s1.gist_list_stale == s0.gist_list_stale
    &&& s1.revisions_stale == s0.revisions_stale
}

/// Open the preview `p` over the screen on display, which is remembered to return to.
pub fn open_preview(st: &mut AppState, p: PreviewState)
    ensures
        final(st).screen == Screen::Preview(p),
        final(st).nav_stack@ == old(st).nav_stack@.push(old(st).screen),
        final(st).status == old(st).status,
        final(st).gist_list_stale == old(st).gist_list_stale,
        final(st).revisions_stale == old(st).revisions_stale,
{
    let mut previous = Screen::Preview(p);
    core::mem::swap(&mut previous, &mut st.screen);
    st.nav_stack.push(previous);
}

/// Open the command palette `p` over the screen on display, which it is drawn over and
/// returns to.
pub fn open_palette(st: &mut AppState, p: PaletteState)
    ensures
        final(st).screen == Screen::Palette(p),
        final(st).nav_stack@ == old(st).nav_stack@.push(old(st).screen),
        final(st).status == old(st).status,
        final(st).gist_list_stale == old(st).gist_list_stale,
        final(st).revisions_stale == old(st).revisions_stale,
{
    let mut previous = Screen::Palette(p);
    core::mem::swap(&mut previous, &mut st.screen);
    st.nav_stack.push(previous);
}

/// Apply a palette key's outcome: closing returns to the screen below. Running an item and
/// refiltering are the event loop's work and change nothing here.
pub fn apply_palette_outcome(st: &mut AppState, out: PaletteKeyOutcome)
    ensures
        out is Close ==> went_back(*old(st), *final(st)),
        !(out is Close) ==> *final(st) == *old(st),
{
    if let PaletteKeyOutcome::Close = out {
        st.leave();
    }
}

/// Closing a palette returns to the screen it was opened over, with the way back as it was.
pub proof fn law_palette_closes_to_its_origin(s0: AppState, s1: AppState, s2: AppState, p: PaletteState)
    requires
        s1.screen == Screen::Palette(p),
        s1.nav_stack@ == s0.nav_stack@.push(s0.screen),
        went_back(s1, s2),
    ensures
        s2.screen == s0.screen,
        s2.nav_stack@ == s0.nav_stack@,
{
    assert(s0.nav_stack@.push(s0.screen).drop_last() =~= s0.nav_stack@);
}

/// Open the Revisions screen for `gist_id` on `target_file` (see [`revisions_opened`]).
pub fn open_revisions(st: &mut AppState, gist_id: String, target_file: String)
    ensures
        revisions_opened(*old(st), *final(st), gist_id@, target_file@),
{
    let mut previous = Screen::Revisions(
        RevisionState {
            gist_id: Some(gist_id),
            target_file,
            entries: None,
            fetch_error: None,
            cursor: ListCursor::new(),
        },
    );
    core::mem::swap(&mut previous, &mut st.screen);
    st.nav_stack.push(previous);
}

/// The screen below the one on display is a Revisions screen.
pub open spec fn revisions_below(s: AppState) -> bool {
    s.nav_stack@.len() > 0 && s.nav_stack@.last() is Revisions
}

/// The gist and file of the revision restore a confirm asks about, if that is what it asks.
pub open spec fn restore_target(screen: Screen) -> Option<(Seq<char>, Seq<char>)> {
    match confirm_action(screen) {
        Some(PendingAction::RestoreRevision { gist_id, filename, .. }) => Some(
            (gist_id@, filename@),
        ),
        _ => None,
    }
}

/// Apply a confirm key's outcome. Backing out (`Cancel`, `CancelToDiff`) closes the
/// confirm and goes back to the screen it was raised over; `BackToList` goes to the List;
/// `CancelToRevisions` goes back to the Revisions screen below, or, when there is none,
/// puts one for the restore's gist and file in the confirm's place. Every other outcome is
/// work for the event loop, and the confirm stays up while it runs.
pub fn apply_confirm_outcome(st: &mut AppState, out: &ConfirmKeyOutcome)
    ensures
        (*out is Cancel || *out is CancelToDiff) ==> went_back(*old(st), *final(st)),
        *out is BackToList ==> backed_to_list(*old(st), *final(st)),
        *out is CancelToRevisions ==> if revisions_below(*old(st)) {
            went_back(*old(st), *final(st))
        } else {
            &&& final(st).screen matches Screen::Revisions(r) && r.entries.is_none()
                && r.fetch_error.is_none() && r.cursor == (ListCursor { index: 0, hscroll: 0 })
                && match restore_target(old(st).screen) {
                Some((g, f)) => r.gist_id matches Some(id) && id@ == g && r.target_file@ == f,
                None => r.gist_id is None && r.target_file@.len() == 0,
            }
            &&& final(st).nav_stack == old(st).nav_stack
            &&& final(st).status == old(st).status
            &&& final(st).gist_list_stale == old(st).gist_list_stale
            &&& final(st).revisions_stale == old(st).revisions_stale
        },
        !(*out is Cancel || *out is CancelToDiff || *out is BackToList
            || *out is CancelToRevisions) ==> *final(st) == *old(st),
{
    match out {
        ConfirmKeyOutcome::Cancel | ConfirmKeyOutcome::CancelToDiff => st.leave(),
        ConfirmKeyOutcome::BackToList => st.back_to_list(),
        ConfirmKeyOutcome::CancelToRevisions => {
            let n = st.nav_stack.len();
            let below = n > 0 && match &st.nav_stack[n - 1] {
                Screen::Revisions(_) => true,
                _ => false,
            };
            if below {
                st.leave();
            } else {
                let (gist_id, target_file) = match &st.screen {
                    Screen::Confirm(c) => match &c.action {
                        PendingAction::RestoreRevision { gist_id, filename, .. } => (
                            Some(gist_id.clone()),
                            filename.clone(),
                        ),
                        _ => (None, String::new()),
                    },
                    _ => (None, String::new()),
                };
                st.screen = Screen::Revisions(
                    RevisionState {
                        gist_id,
                        target_file,
                        entries: None,
                        fetch_error: None,
                        cursor: ListCursor::new(),
                    },
                );
            }
        },
        _ => {},
    }
}

/// Apply a detail-screen key's action. `Leave` goes back; `ConfirmDelete` raises the delete
/// confirm for the gist on its text; `OpenHelp` opens the help page on the detail topic;
/// `OpenRevisions` opens the gist's history on the file. Every other action is work for
/// the event loop and changes nothing here.
pub fn apply_detail_action(st: &mut AppState, a: DetailAction)
    ensures
        match a {
            DetailAction::Leave => went_back(*old(st), *final(st)),
            DetailAction::ConfirmDelete { gist_id, label, text } => confirm_raised(
                *old(st),
                *final(st),
                PendingAction::Delete { gist_id, label },
                text@,
            ),
            DetailAction::OpenHelp => help_opened(*old(st), *final(st)),
            DetailAction::OpenRevisions { gist_id, target_file } => revisions_opened(
                *old(st),
                *final(st),
                gist_id@,
                target_file@,
            ),
            _ => *final(st) == *old(st),
        },
{
    match a {
        DetailAction::Leave => st.leave(),
        DetailAction::ConfirmDelete { gist_id, label, text } => {
            raise_confirm(st, PendingAction::Delete { gist_id, label }, text);
        },
        DetailAction::OpenHelp => open_help(st),
        DetailAction::OpenRevisions { gist_id, target_file } => {
            open_revisions(st, gist_id, target_file);
        },
        _ => {},
    }
}

/// Apply a List key's outcome. The help page, the pins, the settings and the gist manager
/// open over the List; the remove-file and create confirms are raised on their texts; the
/// gist's history opens on the selected file. Every other outcome is work for the event
/// loop and changes nothing here.
pub fn apply_list_outcome(st: &mut AppState, out: ListKeyOutcome)
    ensures
        match out {
            ListKeyOutcome::OpenHelp => help_opened(*old(st), *final(st)),
            ListKeyOutcome::OpenPins => opened_over(*old(st), *final(st), TopScreen::Pins),
            ListKeyOutcome::OpenConfig => opened_over(*old(st), *final(st), TopScreen::Config),
            ListKeyOutcome::OpenGistManager => opened_over(*old(st), *final(st), TopScreen::Gists),
            ListKeyOutcome::ConfirmRemoveFile { gist_id, filename, label, text } => confirm_raised(
                *old(st),
                *final(st),
                PendingAction::RemoveFile { gist_id, filename, label },
                text@,
            ),
            ListKeyOutcome::ConfirmCreate { local_path, text } => confirm_raised(
                *old(st),
                *final(st),
                PendingAction::Create { local_path },
                text@,
            ),
            ListKeyOutcome::OpenRevisions { gist_id, filename } => revisions_opened(
                *old(st),
                *final(st),
                gist_id@,
                filename@,
            ),
            _ => *final(st) == *old(st),
        },
{
    match out {
        ListKeyOutcome::OpenHelp => open_help(st),
        ListKeyOutcome::OpenPins => open_over(st, TopScreen::Pins),
        ListKeyOutcome::OpenConfig => open_over(st, TopScreen::Config),
        ListKeyOutcome::OpenGistManager => open_over(st, TopScreen::Gists),
        ListKeyOutcome::ConfirmRemoveFile { gist_id, filename, label, text } => {
            raise_confirm(st, PendingAction::RemoveFile { gist_id, filename, label }, text);
        },
        ListKeyOutcome::ConfirmCreate { local_path, text } => {
            raise_confirm(st, PendingAction::Create { local_path }, text);
        },
        ListKeyOutcome::OpenRevisions { gist_id, filename } => {
            open_revisions(st, gist_id, filename);
        },
        _ => {},
    }
}

/// Open the gist manager over the screen on display with its cursor on `row` (the row of
/// the gist selected on the List), remembering the screen to return to; when the manager
/// is already on display nothing changes.
pub fn open_gist_manager_at(st: &mut AppState, row: usize)
    ensures
        same_kind(old(st).screen, TopScreen::Gists) ==> *final(st) == *old(st),
        !same_kind(old(st).screen, TopScreen::Gists) ==> {
            &&& final(st).screen matches Screen::Gists(g) && g.cursor == (ListCursor {
                index: row,
                hscroll: 0,
            }) && (GistsState { cursor: ListCursor { index: 0, hscroll: 0 }, ..g }).is_fresh()
            &&& final(st).nav_stack@ == old(st).nav_stack@.push(old(st).screen)
            &&& final(st).status == old(st).status
            &&& final(st).gist_list_stale == old(st).gist_list_stale
            &&& final(st).revisions_stale == old(st).revisions_stale
        },
{
    if let Screen::Gists(_) = st.screen {
        return;
    }
    let mut g = GistsState::new();
    g.cursor.index = row;
    let mut previous = Screen::Gists(g);
    core::mem::swap(&mut previous, &mut st.screen);
    st.nav_stack.push(previous);
}

/// Apply a Gist-manager key's outcome: `q`/`Esc` goes back to the List, `?` opens the help
/// page, `H` opens the gist's history (its fetch is the event loop's work). Every other
/// outcome is work for the event loop and changes nothing here.
pub fn apply_gists_outcome(st: &mut AppState, out: GistsKeyOutcome)
    ensures
        match out {
            GistsKeyOutcome::Leave => backed_to_list(*old(st), *final(st)),
            GistsKeyOutcome::OpenHelp => help_opened(*old(st), *final(st)),
            GistsKeyOutcome::OpenRevisions { gist_id } => revisions_opened(
                *old(st),
                *final(st),
                gist_id@,
                Seq::empty(),
            ),
            _ => *final(st) == *old(st),
        },
{
    match out {
        GistsKeyOutcome::Leave => st.back_to_list(),
        GistsKeyOutcome::OpenHelp => open_help(st),
        GistsKeyOutcome::OpenRevisions { gist_id } => open_revisions(st, gist_id, String::new()),
        _ => {},
    }
}

/// Apply a Pins key's outcome: `q`/`Esc` goes back to the List, `?` opens the help page.
/// Every other outcome is work for the event loop and changes nothing here.
pub fn apply_pins_outcome(st: &mut AppState, out: PinsKeyOutcome)
    ensures
        match out {
            PinsKeyOutcome::Leave => backed_to_list(*old(st), *final(st)),
            PinsKeyOutcome::OpenHelp => help_opened(*old(st), *final(st)),
            _ => *final(st) == *old(st),
        },
{
    match out {
        PinsKeyOutcome::Leave => st.back_to_list(),
        PinsKeyOutcome::OpenHelp => open_help(st),
        _ => {},
    }
}

/// Apply a preview key's outcome: `q`/`Esc` goes back to the screen the preview was opened
/// over. Refetching and copying are the event loop's work and change nothing here.
pub fn apply_preview_outcome(st: &mut AppState, out: &PreviewAction)
    ensures
        *out is Leave ==> went_back(*old(st), *final(st)),
        !(*out is Leave) ==> *final(st) == *old(st),
{
    if let PreviewAction::Leave = out {
        st.leave();
    }
}

/// Apply a Settings key's outcome: `q`/`Esc` goes back to the screen the settings were
/// opened over, `?` opens the help page. Saving is the event loop's work and changes
/// nothing here.
pub fn apply_config_outcome(st: &mut AppState, out: &ConfigAction)
    ensures
        *out is Leave ==> went_back(*old(st), *final(st)),
        *out is OpenHelp ==> help_opened(*old(st), *final(st)),
        !(*out is Leave || *out is OpenHelp) ==> *final(st) == *old(st),
{
    match out {
        ConfigAction::Leave => st.leave(),
        ConfigAction::OpenHelp => open_help(st),
        _ => {},
    }
}

/// `s1` is `s0` after a gist was deleted from its confirm: the confirm closes, back to the
/// screen below, and when that is the deleted gist's detail view it closes too.
pub open spec fn closed_after_delete(s0: AppState, s1: AppState) -> bool {
    let nav = s0.nav_stack@;
    let n = nav.len();
    if n > 0 && nav[n - 1] is GistDetail {
        &&& s1.screen == (if n > 1 {
            nav[n - 2]
        } else {
            Screen::List
        })
        &&& s1.nav_stack@ == (if n > 1 {
            nav.take(n - 2)
        } else {
            Seq::empty()
        })
        &&& s1.status == s0.status
        &&& s1.gist_list_stale == s0.gist_list_stale
        &&& s1.revisions_stale == s0.revisions_stale
    } else {
        went_back(s0, s1)
    }
}

/// Close a delete's confirm once the gist is gone (see [`closed_after_delete`]).
pub fn close_after_delete(st: &mut AppState)
    ensures
        closed_after_delete(*old(st), *final(st)),
{
    let ghost nav = st.nav_stack@;
    st.leave();
    proof {
        if nav.len() > 0 {
            assert(st.screen == nav[nav.len() - 1]);
        }
    }
    if let Screen::GistDetail(_) = st.screen {
        st.leave();
        proof {
            if nav.len() > 1 {
                assert(nav.drop_last().last() == nav[nav.len() - 2]);
                assert(nav.drop_last().drop_last() =~= nav.take(nav.len() - 2));
            } else {
                assert(st.nav_stack@ =~= Seq::<Screen>::empty());
            }
        }
    }
}

/// The text of the diff on display (empty when none is).
pub open spec fn diff_text(screen: Screen) -> Seq<char> {
    match screen {
        Screen::Diff(d) => d.body.text@,
        _ => Seq::empty(),
    }
}

/// Apply a Diff-screen key's outcome; `target_exists` says whether a file is at the
/// download target. `Leave` goes back. A download over an existing file raises the
/// overwrite confirm on the diff's text, so that nothing is overwritten without its diff
/// and a y/n first; a download to a new file is to be written at once, which the result
/// says. Every other outcome is work for the event loop and changes nothing here.
pub fn apply_diff_outcome(st: &mut AppState, out: &DiffKeyOutcome, target_exists: bool) -> (write_now: bool)
    ensures
        write_now == (*out is DownloadRequested && !target_exists),
        *out is Leave ==> went_back(*old(st), *final(st)),
        (*out is DownloadRequested && target_exists) ==> confirm_raised(
            *old(st),
            *final(st),
            PendingAction::Download,
            diff_text(old(st).screen),
        ),
        !(*out is Leave || (*out is DownloadRequested && target_exists)) ==> *final(st)
            == *old(st),
{
    match out {
        DiffKeyOutcome::Leave => {
            st.leave();
            false
        },
        DiffKeyOutcome::DownloadRequested { .. } => {
            if target_exists {
                let text = match &st.screen {
                    Screen::Diff(d) => d.body.text.clone(),
                    _ => String::new(),
                };
                raise_confirm(st, PendingAction::Download, text);
                false
            } else {
                true
            }
        },
        _ => false,
    }
}

/// Backing out of a confirm returns to the screen it was raised over, with the way back
/// as it was before: a refused request changes nothing.
pub proof fn law_cancelled_confirm_returns_to_where_it_was_raised(
    s0: AppState,
    s1: AppState,
    s2: AppState,
    action: PendingAction,
    text: Seq<char>,
)
    requires
        confirm_raised(s0, s1, action, text),
        went_back(s1, s2),
    ensures
        s2.screen == s0.screen,
        s2.nav_stack@ == s0.nav_stack@,
        s2.status == s0.status,
        s2.gist_list_stale == s0.gist_list_stale,
        s2.revisions_stale == s0.revisions_stale,
{
    assert(s0.nav_stack@.push(s0.screen).drop_last() =~= s0.nav_stack@);
}

} // verus!
