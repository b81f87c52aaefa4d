//! The background results that open the Diff screen: a preview of a file against its gist,
//! a download that meets an existing file, and a diff between two revisions.

use vstd::prelude::*;
use crate::confirm_flow::only_status;
use crate::diff::{content_eq, normalized, preview_diff_text, unified_diff, unified_diff_of};
use crate::domain::GistFileRef;
use crate::revisions::{status_view, LoopFlow};
use crate::scroll::ScrollBody;
use crate::state::{AppState, DiffState, Screen};
use crate::keys::Key;
use crate::settings::{adjust_spec, ConfigField, RuntimeSettings, SettingsEffect};
use crate::text::{dec, owned, push_dec, push_str, str_eq};

verus! {

/// The name of the last component of `path`, as std's `Path::file_name` gives it.
pub uninterp spec fn path_file_name(path: Seq<char>) -> Option<Seq<char>>;

/// Calls `std::path::Path::file_name` on `path` and returns the name it finds, if any, as a
/// `String` (lossily, as `OsStr::to_string_lossy` does). The contract only names that
/// result; what the last component is for a given path is std's to say.
#[verifier::external_body]
pub(crate) fn file_name_of(path: &str) -> (r: Option<String>)
    ensures
        match r {
            Some(n) => path_file_name(path@) == Some(n@),
            None => path_file_name(path@) is None,
        },
{
    match std::path::Path::new(path).file_name() {
        Some(name) => Some(name.to_string_lossy().into_owned()),
        None => None,
    }
}

/// The name a finished download is reported under: the target's file name, or the whole
/// target when it has none.
pub open spec fn shown_name(target: Seq<char>) -> Seq<char> {
    match path_file_name(target) {
        Some(n) => n,
        None => target,
    }
}

/// The Diff screen is up on `d`, scrolled to the top; the status line and the stale marks
/// are as they were.
pub open spec fn diff_opened(s0: AppState, s1: AppState, d: DiffState) -> bool {
    &&& s1.screen == Screen::Diff(d)
    &&& d.body.scroll == 0
    &&& d.body.hscroll == 0
    &&& status_view(s1.status) == status_view(s0.status)
    &&& s1.gist_list_stale == s0.gist_list_stale
    &&& s1.revisions_stale == s0.revisions_stale
    &&& s1.nav_stack == s0.nav_stack
}

/// Nothing changed.
pub open spec fn untouched(s0: AppState, s1: AppState) -> bool {
    &&& s1.screen == s0.screen
    &&& status_view(s1.status) == status_view(s0.status)
    &&& s1.gist_list_stale == s0.gist_list_stale
    &&& s1.revisions_stale == s0.revisions_stale
    &&& s1.nav_stack == s0.nav_stack
}

/// Put the Diff screen up.
fn open_diff(state: &mut AppState, d: DiffState)
    ensures
        final(state).screen == Screen::Diff(d),
        final(state).status == old(state).status,
        final(state).gist_list_stale == old(state).gist_list_stale,
        final(state).revisions_stale == old(state).revisions_stale,
        final(state).nav_stack == old(state).nav_stack,
{
    state.screen = Screen::Diff(d);
}

/// `PreviewDiff` outcome, from the gist's content and the local file as read from disk
/// (`None` when there is no local file; its content is then empty). The Diff screen opens
/// over the diff oriented as `upload_orientation` says, marked identical when the two
/// contents match under the trailing-newline setting.
pub fn on_preview_diff(
    state: &mut AppState,
    result: Result<String, String>,
    local_path: Option<String>,
    local_content: Result<Option<String>, String>,
    local_label: &str,
    gist_label: &str,
    target: String,
    upload_orientation: bool,
    gist_file: Option<GistFileRef>,
    ignore_trailing_newline: bool,
) -> (flow: LoopFlow)
    ensures
        flow == LoopFlow::Proceed,
        match result {
            Err(e) => only_status(*old(state), *final(state), "fetch failed: "@ + e@),
            Ok(remote) => match local_content {
                Err(e) => only_status(*old(state), *final(state), "read failed: "@ + e@),
                Ok(local) => {
                    let lc = match local {
                        Some(l) => l@,
                        None => Seq::<char>::empty(),
                    };
                    let text = if upload_orientation {
                        unified_diff_of(
                            gist_label@,
                            normalized(remote@, ignore_trailing_newline),
                            local_label@,
                            normalized(lc, ignore_trailing_newline),
                        )
                    } else {
                        unified_diff_of(
                            local_label@,
                            normalized(lc, ignore_trailing_newline),
                            gist_label@,
                            normalized(remote@, ignore_trailing_newline),
                        )
                    };
                    &&& final(state).screen matches Screen::Diff(d) && diff_opened(
                        *old(state),
                        *final(state),
                        d,
                    ) && d.body.text@ == text && d.remote_content == remote
                        && d.local_path@ == (match local_path {
                        Some(p) => p@,
                        None => Seq::<char>::empty(),
                    }) && d.download_target == target && d.identical == (normalized(
                        lc,
                        ignore_trailing_newline,
                    ) == normalized(remote@, ignore_trailing_newline)) && d.gist_id == (
                    match gist_file {
                        Some(f) => Some(f.gist_id),
                        None => None,
                    }) && d.gist_filename == (match gist_file {
                        Some(f) => Some(f.filename),
                        None => None,
                    })
                },
            },
        },
{
    match result {
        Ok(remote) => match local_content {
            Ok(local) => {
                let local_text = match local {
                    Some(l) => l,
                    None => String::new(),
                };
                let diff = preview_diff_text(
                    upload_orientation,
                    local_label,
                    local_text.as_str(),
                    gist_label,
                    remote.as_str(),
                    ignore_trailing_newline,
                );
                let identical = content_eq(
                    local_text.as_str(),
                    remote.as_str(),
                    ignore_trailing_newline,
                );
                let path = match local_path {
                    Some(p) => p,
                    None => String::new(),
                };
                let (gist_id, gist_filename) = match gist_file {
                    Some(f) => (Some(f.gist_id), Some(f.filename)),
                    None => (None, None),
                };
                open_diff(
                    state,
                    DiffState {
                        body: ScrollBody { text: diff, scroll: 0, hscroll: 0 },
                        remote_content: remote,
                        local_path: path,
                        download_target: target,
                        identical,
                        gist_id,
                        gist_filename,
                    },
                );
            },
            Err(error) => {
                let mut message = owned("read failed: ");
                push_str(&mut message, error.as_str());
                state.set_status(message);
            },
        },
        Err(error) => {
            let mut message = owned("fetch failed: ");
            push_str(&mut message, error.as_str());
            state.set_status(message);
        },
    }
    LoopFlow::Proceed
}

/// What is left to do after a `DownloadSelected` outcome.
#[derive(Debug, Clone, PartialEq, Eq)]
pub enum DownloadNext {
    Nothing,
    /// No file is at `target` yet: write `content` there as a new file, then report with
    /// [`on_download_written`].
    WriteNew { target: String, content: String },
}

/// `DownloadSelected` outcome, from the gist's content and what is at the target: `None`
/// when no file is there, else the file as read. An existing file opens the Diff screen
/// (old = local, new = gist) so the overwrite can be confirmed; a missing one is to be
/// written as a new file.
pub fn on_download_selected(
    state: &mut AppState,
    result: Result<String, String>,
    target: String,
    existing: Option<Result<String, String>>,
    local_label: &str,
    gist_label: &str,
    file: GistFileRef,
    ignore_trailing_newline: bool,
) -> (r: (LoopFlow, DownloadNext))
    ensures
        r.0 == LoopFlow::Proceed,
        match result {
            Err(e) => only_status(*old(state), *final(state), "fetch failed: "@ + e@) && r.1
                == DownloadNext::Nothing,
            Ok(remote) => match existing {
                None => untouched(*old(state), *final(state)) && r.1 == (DownloadNext::WriteNew {
                    target,
                    content: remote,
                }),
                Some(Err(e)) => only_status(*old(state), *final(state), e@) && r.1
                    == DownloadNext::Nothing,
                Some(Ok(local)) => {
                    &&& r.1 == DownloadNext::Nothing
                    &&& final(state).screen matches Screen::Diff(d) && diff_opened(
                        *old(state),
                        *final(state),
                        d,
                    ) && d.body.text@ == unified_diff_of(
                        local_label@,
                        normalized(local@, ignore_trailing_newline),
                        gist_label@,
                        normalized(remote@, ignore_trailing_newline),
                    ) && d.remote_content == remote && d.local_path == target
                        && d.download_target == target && d.identical == (normalized(
                        local@,
                        ignore_trailing_newline,
                    ) == normalized(remote@, ignore_trailing_newline)) && d.gist_id == Some(
                        file.gist_id,
                    ) && d.gist_filename == Some(file.filename)
                },
            },
        },
{
    match result {
        Ok(remote) => match existing {
            None => (LoopFlow::Proceed, DownloadNext::WriteNew { target, content: remote }),
            Some(Ok(local)) => {
                let diff = unified_diff(
                    local_label,
                    local.as_str(),
                    gist_label,
                    remote.as_str(),
                    ignore_trailing_newline,
                );
                let identical = content_eq(local.as_str(), remote.as_str(), ignore_trailing_newline);
                let local_path = target.clone();
                open_diff(
                    state,
                    DiffState {
                        body: ScrollBody { text: diff, scroll: 0, hscroll: 0 },
                        remote_content: remote,
                        local_path,
                        download_target: target,
                        identical,
                        gist_id: Some(file.gist_id),
                        gist_filename: Some(file.filename),
                    },
                );
                (LoopFlow::Proceed, DownloadNext::Nothing)
            },
            Some(Err(error)) => {
                state.set_status(error);
                (LoopFlow::Proceed, DownloadNext::Nothing)
            },
        },
        Err(error) => {
            let mut message = owned("fetch failed: ");
            push_str(&mut message, error.as_str());
            state.set_status(message);
            (LoopFlow::Proceed, DownloadNext::Nothing)
        },
    }
}

/// Report how writing a new download to `target` went.
pub fn on_download_written(state: &mut AppState, result: Result<(), String>, target: &str)
    ensures
        match result {
            Ok(()) => only_status(*old(state), *final(state), "Downloaded "@ + shown_name(target@)),
            Err(e) => only_status(*old(state), *final(state), "download failed: "@ + e@),
        },
{
    match result {
        Ok(()) => {
            let mut message = owned("Downloaded ");
            match file_name_of(target) {
                Some(name) => push_str(&mut message, name.as_str()),
                None => push_str(&mut message, target),
            }
            state.set_status(message);
        },
        Err(error) => {
            let mut message = owned("download failed: ");
            push_str(&mut message, error.as_str());
            state.set_status(message);
        },
    }
}

/// `RevisionDiff` outcome: the Diff screen opens over the diff between two revisions of a
/// file, marked identical when their contents are the same.
pub fn on_revision_diff(
    state: &mut AppState,
    result: Result<(String, String), String>,
    old_label: &str,
    new_label: &str,
    ignore_trailing_newline: bool,
) -> (flow: LoopFlow)
    ensures
        flow == LoopFlow::Proceed,
        match result {
            Err(e) => only_status(*old(state), *final(state), e@),
            Ok((old_content, new_content)) => final(state).screen matches Screen::Diff(d)
                && diff_opened(*old(state), *final(state), d) && d.body.text@ == unified_diff_of(
                old_label@,
                normalized(old_content@, ignore_trailing_newline),
                new_label@,
                normalized(new_content@, ignore_trailing_newline),
            ) && d.identical == (old_content@ == new_content@) && d.remote_content@.len() == 0
                && d.local_path@.len() == 0 && d.download_target@.len() == 0 && d.gist_id is None
                && d.gist_filename is None,
        },
{
    match result {
        Ok((old_content, new_content)) => {
            let diff = unified_diff(
                old_label,
                old_content.as_str(),
                new_label,
                new_content.as_str(),
                ignore_trailing_newline,
            );
            let identical = str_eq(old_content.as_str(), new_content.as_str());
            open_diff(
                state,
                DiffState {
                    body: ScrollBody { text: diff, scroll: 0, hscroll: 0 },
                    remote_content: String::new(),
                    local_path: String::new(),
                    download_target: String::new(),
                    identical,
                    gist_id: None,
                    gist_filename: None,
                },
            );
        },
        Err(error) => state.set_status(error),
    }
    LoopFlow::Proceed
}

// ---------------------------------------------------------------------------------------------
// The Diff screen's keys
// ---------------------------------------------------------------------------------------------

/// What a key on the Diff screen asks the rest of the program to do.
#[derive(Debug, Clone, PartialEq, Eq)]
pub enum DiffKeyOutcome {
    Nothing,
    /// Back to the screen the diff was opened from.
    Leave,
    /// Download the gist side to `target` (behind the overwrite confirm when a file is there).
    DownloadRequested { target: String },
    /// Upload the local side to the gist.
    Upload,
    /// Save the settings, then show `success_message`; `effect` is what the change asks of
    /// the event loop.
    PersistSettings { effect: Option<SettingsEffect>, success_message: String },
}

/// Whether `key` would act on the Diff screen: `d` and `u` need a diff between a local file
/// and a gist file (`allows_sync`) whose sides differ. The key handler gates its actions on
/// it and the command palette lists only what passes it.
pub open spec fn diff_guard_spec(allows_sync: bool, identical: bool, key: Key) -> bool {
    (key == Key::Char('d') || key == Key::Char('u')) && allows_sync && !identical
}

/// Whether `key` would act on the Diff screen (see [`diff_guard_spec`]).
pub fn diff_guard(allows_sync: bool, identical: bool, key: Key) -> (r: bool)
    ensures
        r == diff_guard_spec(allows_sync, identical, key),
{
    (key == Key::Char('d') || key == Key::Char('u')) && allows_sync && !identical
}

/// The message a context toggle reports: the whole file, or the radius.
pub open spec fn context_message(show_full: bool, context: u32) -> Seq<char> {
    if show_full {
        "Diff context: full file"@
    } else {
        "Diff context: "@ + dec(context as nat) + " lines"@
    }
}

/// Apply `key` to the Diff screen `d`, whose wrap flag is `wrap`. `q`/`Esc` leave; `d` and
/// `u` download or upload when the guard allows; `c` switches between the context radius and
/// the whole file (saved with the settings, the view back at its top); `w` switches soft
/// wrap (the view back at its left edge).
pub fn handle_key_diff(
    d: &mut DiffState,
    wrap: &mut bool,
    settings: &mut RuntimeSettings,
    allows_sync: bool,
    key: Key,
) -> (out: DiffKeyOutcome)
    ensures
        final(d).remote_content == old(d).remote_content,
        final(d).local_path == old(d).local_path,
        final(d).download_target == old(d).download_target,
        final(d).identical == old(d).identical,
        final(d).gist_id == old(d).gist_id,
        final(d).gist_filename == old(d).gist_filename,
        final(d).body.text == old(d).body.text,
        final(d).body.scroll == (if key == Key::Char('c') {
            0
        } else {
            old(d).body.scroll
        }),
        final(d).body.hscroll == (if key == Key::Char('w') {
            0
        } else {
            old(d).body.hscroll
        }),
        *final(wrap) == (if key == Key::Char('w') {
            !*old(wrap)
        } else {
            *old(wrap)
        }),
        final(settings).prefs_view() == (if key == Key::Char('c') {
            adjust_spec(old(settings).prefs_view(), ConfigField::DiffShowFull, true).0
        } else {
            old(settings).prefs_view()
        }),
        final(settings).no_mouse_view() == old(settings).no_mouse_view(),
        final(settings).no_update_check_view() == old(settings).no_update_check_view(),
        key == Key::Char('q') || key == Key::Esc ==> out == DiffKeyOutcome::Leave,
        key == Key::Char('d') ==> out == (if diff_guard_spec(allows_sync, old(d).identical, key) {
            DiffKeyOutcome::DownloadRequested { target: old(d).download_target }
        } else {
            DiffKeyOutcome::Nothing
        }),
        key == Key::Char('u') ==> out == (if diff_guard_spec(allows_sync, old(d).identical, key) {
            DiffKeyOutcome::Upload
        } else {
            DiffKeyOutcome::Nothing
        }),
        key == Key::Char('c') ==> (out matches DiffKeyOutcome::PersistSettings {
            effect,
            success_message,
        } && effect is None && success_message@ == context_message(
            final(settings).prefs_view().diff_show_full,
            final(settings).prefs_view().diff_context,
        )),
        !(key == Key::Char('q') || key == Key::Esc || key == Key::Char('d') || key == Key::Char('u')
            || key == Key::Char('c')) ==> out == DiffKeyOutcome::Nothing,
{
    if key == Key::Char('q') || key == Key::Esc {
        DiffKeyOutcome::Leave
    } else if key == Key::Char('d') {
        if diff_guard(allows_sync, d.identical, key) {
            DiffKeyOutcome::DownloadRequested { target: d.download_target.clone() }
        } else {
            DiffKeyOutcome::Nothing
        }
    } else if key == Key::Char('u') {
        if diff_guard(allows_sync, d.identical, key) {
            DiffKeyOutcome::Upload
        } else {
            DiffKeyOutcome::Nothing
        }
    } else if key == Key::Char('c') {
        let change = settings.adjust(ConfigField::DiffShowFull, true);
        d.body.scroll = 0;
        let success_message = if settings.diff_show_full() {
            owned("Diff context: full file")
        } else {
            let mut m = owned("Diff context: ");
            push_dec(&mut m, settings.diff_context() as u64);
            push_str(&mut m, " lines");
            m
        };
        let effect = match change {
            Some(c) => c.effect,
            None => None,
        };
        DiffKeyOutcome::PersistSettings { effect, success_message }
    } else if key == Key::Char('w') {
        *wrap = !*wrap;
        d.body.hscroll = 0;
        DiffKeyOutcome::Nothing
    } else {
        DiffKeyOutcome::Nothing
    }
}

/// `c` twice leaves the context choice where it was.
pub proof fn law_context_toggle_undoes_itself(p: crate::config::Preferences)
    ensures
        adjust_spec(adjust_spec(p, ConfigField::DiffShowFull, true).0, ConfigField::DiffShowFull, true).0
            == p,
{
}

} // verus!
