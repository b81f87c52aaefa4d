//! How a confirm modal is resolved: the keys it answers to, and the background results that
//! open it (or explain why it did not open).

use vstd::prelude::*;
use crate::chrome::TextInput;
use crate::confirm::{backdrop_spec, is_json_file, is_json_path, ConfirmBackdrop, PendingAction, UploadFlags};
use crate::detail_keys::{input_of, status_of};
use crate::diff::{normalized, unified_diff, unified_diff_of};
use crate::diff_screen::{display_path, display_path_spec};
use crate::keys::{apply_edit, edit_spec, Key};
use crate::revisions::{status_view, LoopFlow};
use crate::scroll::ScrollBody;
use crate::state::{AppState, ConfirmState, Screen};
use crate::text::{dec, owned, push_dec, push_str, str_eq};

verus! {

/// The confirm flow's own session: the upload flags, the create flow's description editor,
/// and the status line.
pub struct ConfirmSession {
    pub upload: UploadFlags,
    /// The create flow is on its first step, typing the description.
    pub editing_description: bool,
    pub description_input: TextInput,
    pub status: Option<String>,
}

/// What a key on a confirm modal asks the rest of the program to do.
#[derive(Debug, Clone, PartialEq, Eq)]
pub enum ConfirmKeyOutcome {
    Nothing,
    /// Overwrite the local file with the gist's content.
    Download,
    /// Push the local file to the gist.
    Upload,
    /// Open the upload content in an external editor.
    EditUpload,
    /// Create the gist, public or secret.
    Create { public: bool },
    ExecuteDelete,
    ExecuteRemoveFile,
    ExecuteCompactGist,
    /// Write `content` back as the current version of the gist's file.
    ExecuteRestore { gist_id: String, filename: String, content: String },
    /// The JSON view options changed: rebuild the upload diff.
    RebuildUploadDiff,
    /// Close the modal, back to the diff it was raised over.
    CancelToDiff,
    /// Close the modal, back to the screen that raised it.
    Cancel,
    /// Close the modal, back to the list.
    BackToList,
    /// Close the modal, back to the Revisions screen (opened if it was not the one below).
    CancelToRevisions,
}

/// Whether `key` is one of the keys that back out of a confirm: `n`, `q`, `Esc`.
pub open spec fn is_cancel_key(key: Key) -> bool {
    key == Key::Char('n') || key == Key::Char('q') || key == Key::Esc
}

/// The status the upload confirm shows when `y` is pressed while the editor is open.
pub open spec fn editor_still_open_text() -> Seq<char> {
    "editor still open — finish editing first"@
}

/// The status the upload confirm shows when `e` is pressed while the editor is open.
pub open spec fn editor_already_open_text() -> Seq<char> {
    "editor already open"@
}

/// Nothing of the session changed.
pub open spec fn session_kept(s0: ConfirmSession, s1: ConfirmSession) -> bool {
    &&& s1.upload == s0.upload
    &&& s1.editing_description == s0.editing_description
    &&& input_of(s1.description_input) == input_of(s0.description_input)
    &&& status_of(s1.status) == status_of(s0.status)
}

/// Only the status line changed, to `message`.
pub open spec fn status_set(s0: ConfirmSession, s1: ConfirmSession, message: Seq<char>) -> bool {
    &&& s1.upload == s0.upload
    &&& s1.editing_description == s0.editing_description
    &&& input_of(s1.description_input) == input_of(s0.description_input)
    &&& status_of(s1.status) == Some(message)
}

/// A key that resolves a y/n confirm: `y` performs `yes`, a cancel key performs `no`, any
/// other key does nothing; the session is left as it was.
pub open spec fn yes_no(
    s0: ConfirmSession,
    s1: ConfirmSession,
    key: Key,
    out: ConfirmKeyOutcome,
    yes: ConfirmKeyOutcome,
    no: ConfirmKeyOutcome,
) -> bool {
    &&& session_kept(s0, s1)
    &&& out == (if key == Key::Char('y') {
        yes
    } else if is_cancel_key(key) {
        no
    } else {
        ConfirmKeyOutcome::Nothing
    })
}

/// The upload confirm's keys.
pub open spec fn upload_key_ok(
    s0: ConfirmSession,
    s1: ConfirmSession,
    local_path: Seq<char>,
    key: Key,
    out: ConfirmKeyOutcome,
) -> bool {
    let watching = s0.upload.watching;
    let json = is_json_path(local_path);
    if key == Key::Char('y') && watching {
        status_set(s0, s1, editor_still_open_text()) && out == ConfirmKeyOutcome::Nothing
    } else if key == Key::Char('y') {
        session_kept(s0, s1) && out == ConfirmKeyOutcome::Upload
    } else if is_cancel_key(key) {
        &&& s1.upload == (UploadFlags { watching: false, ..s0.upload })
        &&& s1.editing_description == s0.editing_description
        &&& input_of(s1.description_input) == input_of(s0.description_input)
        &&& status_of(s1.status) == status_of(s0.status)
        &&& out == ConfirmKeyOutcome::Cancel
    } else if key == Key::Char('e') && watching {
        status_set(s0, s1, editor_already_open_text()) && out == ConfirmKeyOutcome::Nothing
    } else if key == Key::Char('e') {
        session_kept(s0, s1) && out == ConfirmKeyOutcome::EditUpload
    } else if key == Key::Char('p') && json {
        &&& s1.upload == (UploadFlags { json_pretty: !s0.upload.json_pretty, ..s0.upload })
        &&& s1.editing_description == s0.editing_description
        &&& input_of(s1.description_input) == input_of(s0.description_input)
        &&& status_of(s1.status) == status_of(s0.status)
        &&& out == ConfirmKeyOutcome::RebuildUploadDiff
    } else if key == Key::Char('s') && json {
        &&& s1.upload == (UploadFlags { json_sort: !s0.upload.json_sort, ..s0.upload })
        &&& s1.editing_description == s0.editing_description
        &&& input_of(s1.description_input) == input_of(s0.description_input)
        &&& status_of(s1.status) == status_of(s0.status)
        &&& out == ConfirmKeyOutcome::RebuildUploadDiff
    } else {
        session_kept(s0, s1) && out == ConfirmKeyOutcome::Nothing
    }
}

/// The create flow's keys: first the description editor, then the visibility choice.
pub open spec fn create_key_ok(
    s0: ConfirmSession,
    s1: ConfirmSession,
    key: Key,
    out: ConfirmKeyOutcome,
) -> bool {
    let kept_rest = s1.upload == s0.upload && status_of(s1.status) == status_of(s0.status);
    if s0.editing_description {
        if key == Key::Enter {
            &&& kept_rest
            &&& !s1.editing_description
            &&& input_of(s1.description_input) == input_of(s0.description_input)
            &&& out == ConfirmKeyOutcome::Nothing
        } else if key == Key::Esc {
            &&& kept_rest
            &&& !s1.editing_description
            &&& input_of(s1.description_input) == (Seq::<char>::empty(), 0nat)
            &&& out == ConfirmKeyOutcome::BackToList
        } else {
            &&& kept_rest
            &&& s1.editing_description
            &&& input_of(s1.description_input) == edit_spec(
                s0.description_input.text_view(),
                s0.description_input.cursor_view(),
                key,
            )
            &&& out == ConfirmKeyOutcome::Nothing
        }
    } else if key == Key::Char('s') {
        session_kept(s0, s1) && out == (ConfirmKeyOutcome::Create { public: false })
    } else if key == Key::Char('p') {
        session_kept(s0, s1) && out == (ConfirmKeyOutcome::Create { public: true })
    } else if is_cancel_key(key) {
        &&& kept_rest
        &&& s1.editing_description == s0.editing_description
        &&& input_of(s1.description_input) == (Seq::<char>::empty(), 0nat)
        &&& out == ConfirmKeyOutcome::BackToList
    } else {
        session_kept(s0, s1) && out == ConfirmKeyOutcome::Nothing
    }
}

/// What `key` does on a confirm modal raised for `action` (none: no modal is up).
pub open spec fn confirm_key_ok(
    s0: ConfirmSession,
    s1: ConfirmSession,
    action: Option<PendingAction>,
    key: Key,
    out: ConfirmKeyOutcome,
) -> bool {
    match action {
        None => {
            &&& session_kept(s0, s1)
            &&& out == (if is_cancel_key(key) {
                ConfirmKeyOutcome::Cancel
            } else {
                ConfirmKeyOutcome::Nothing
            })
        },
        Some(PendingAction::Download) => yes_no(
            s0,
            s1,
            key,
            out,
            ConfirmKeyOutcome::Download,
            ConfirmKeyOutcome::CancelToDiff,
        ),
        Some(PendingAction::Upload { local_path, .. }) => upload_key_ok(
            s0,
            s1,
            local_path@,
            key,
            out,
        ),
        Some(PendingAction::Create { .. }) => create_key_ok(s0, s1, key, out),
        Some(PendingAction::Delete { .. }) => yes_no(
            s0,
            s1,
            key,
            out,
            ConfirmKeyOutcome::ExecuteDelete,
            ConfirmKeyOutcome::Cancel,
        ),
        Some(PendingAction::RemoveFile { .. }) => yes_no(
            s0,
            s1,
            key,
            out,
            ConfirmKeyOutcome::ExecuteRemoveFile,
            ConfirmKeyOutcome::BackToList,
        ),
        Some(PendingAction::CompactGist { .. }) => yes_no(
            s0,
            s1,
            key,
            out,
            ConfirmKeyOutcome::ExecuteCompactGist,
            ConfirmKeyOutcome::Cancel,
        ),
        Some(PendingAction::RestoreRevision { gist_id, filename, content, .. }) => {
            &&& session_kept(s0, s1)
            &&& if key == Key::Char('y') {
                out matches ConfirmKeyOutcome::ExecuteRestore { gist_id: g, filename: f, content: c }
                    && g@ == gist_id@ && f@ == filename@ && c@ == content@
            } else if is_cancel_key(key) {
                out == ConfirmKeyOutcome::CancelToRevisions
            } else {
                out == ConfirmKeyOutcome::Nothing
            }
        },
    }
}

/// Apply `key` to the confirm modal raised for `action`: update the session and return what
/// the rest of the program is asked to do (see [`confirm_key_ok`]).
pub fn handle_key_confirm(
    s: &mut ConfirmSession,
    action: Option<&PendingAction>,
    key: Key,
) -> (out: ConfirmKeyOutcome)
    requires
        old(s).description_input.well_formed(),
        old(s).description_input.text_view().len() < usize::MAX,
    ensures
        final(s).description_input.well_formed(),
        confirm_key_ok(
            *old(s),
            *final(s),
            match action {
                Some(a) => Some(*a),
                None => None,
            },
            key,
            out,
        ),
{
    let cancel = key == Key::Char('n') || key == Key::Char('q') || key == Key::Esc;
    let out = match action {
        None => {
            if cancel {
                ConfirmKeyOutcome::Cancel
            } else {
                ConfirmKeyOutcome::Nothing
            }
        },
        Some(PendingAction::Download) => {
            if key == Key::Char('y') {
                ConfirmKeyOutcome::Download
            } else if cancel {
                ConfirmKeyOutcome::CancelToDiff
            } else {
                ConfirmKeyOutcome::Nothing
            }
        },
        Some(PendingAction::Upload { local_path, .. }) => {
            if key == Key::Char('y') && s.upload.watching {
                s.status = Some(owned("editor still open — finish editing first"));
                ConfirmKeyOutcome::Nothing
            } else if key == Key::Char('y') {
                ConfirmKeyOutcome::Upload
            } else if cancel {
                s.upload.watching = false;
                ConfirmKeyOutcome::Cancel
            } else if key == Key::Char('e') && s.upload.watching {
                s.status = Some(owned("editor already open"));
                ConfirmKeyOutcome::Nothing
            } else if key == Key::Char('e') {
                ConfirmKeyOutcome::EditUpload
            } else if key == Key::Char('p') && is_json_file(local_path.as_str()) {
                s.upload.json_pretty = !s.upload.json_pretty;
                ConfirmKeyOutcome::RebuildUploadDiff
            } else if key == Key::Char('s') && is_json_file(local_path.as_str()) {
                s.upload.json_sort = !s.upload.json_sort;
                ConfirmKeyOutcome::RebuildUploadDiff
            } else {
                ConfirmKeyOutcome::Nothing
            }
        },
        Some(PendingAction::Create { .. }) => {
            if s.editing_description {
                if key == Key::Enter {
                    s.editing_description = false;
                    ConfirmKeyOutcome::Nothing
                } else if key == Key::Esc {
                    s.editing_description = false;
                    s.description_input.clear();
                    assert(s.description_input.text_view() =~= Seq::<char>::empty());
                    ConfirmKeyOutcome::BackToList
                } else {
                    apply_edit(&mut s.description_input, key);
                    ConfirmKeyOutcome::Nothing
                }
            } else if key == Key::Char('s') {
                ConfirmKeyOutcome::Create { public: false }
            } else if key == Key::Char('p') {
                ConfirmKeyOutcome::Create { public: true }
            } else if cancel {
                s.description_input.clear();
                assert(s.description_input.text_view() =~= Seq::<char>::empty());
                ConfirmKeyOutcome::BackToList
            } else {
                ConfirmKeyOutcome::Nothing
            }
        },
        Some(PendingAction::Delete { .. }) => {
            if key == Key::Char('y') {
                ConfirmKeyOutcome::ExecuteDelete
            } else if cancel {
                ConfirmKeyOutcome::Cancel
            } else {
                ConfirmKeyOutcome::Nothing
            }
        },
        Some(PendingAction::RemoveFile { .. }) => {
            if key == Key::Char('y') {
                ConfirmKeyOutcome::ExecuteRemoveFile
            } else if cancel {
                ConfirmKeyOutcome::BackToList
            } else {
                ConfirmKeyOutcome::Nothing
            }
        },
        Some(PendingAction::CompactGist { .. }) => {
            if key == Key::Char('y') {
                ConfirmKeyOutcome::ExecuteCompactGist
            } else if cancel {
                ConfirmKeyOutcome::Cancel
            } else {
                ConfirmKeyOutcome::Nothing
            }
        },
        Some(PendingAction::RestoreRevision { gist_id, filename, content, .. }) => {
            if key == Key::Char('y') {
                ConfirmKeyOutcome::ExecuteRestore {
                    gist_id: gist_id.clone(),
                    filename: filename.clone(),
                    content: content.clone(),
                }
            } else if cancel {
                ConfirmKeyOutcome::CancelToRevisions
            } else {
                ConfirmKeyOutcome::Nothing
            }
        },
    };
    out
}

/// Nothing is written without a yes: each outcome that writes (over the local file, to the
/// gist, or by deleting, pruning or restoring) comes only from `y` on the modal raised for that
/// very action (creating a gist: `s` or `p` on its own modal), and a download or an upload
/// only from a modal drawn over its diff.
pub proof fn law_writes_need_a_yes(
    s0: ConfirmSession,
    s1: ConfirmSession,
    action: Option<PendingAction>,
    key: Key,
    out: ConfirmKeyOutcome,
)
    requires
        confirm_key_ok(s0, s1, action, key, out),
    ensures
        out is Download ==> key == Key::Char('y') && action == Some(PendingAction::Download)
            && backdrop_spec(action) == ConfirmBackdrop::Diff,
        out is Upload ==> key == Key::Char('y') && (action matches Some(PendingAction::Upload { .. }))
            && backdrop_spec(action) == ConfirmBackdrop::Diff,
        out is ExecuteRestore ==> key == Key::Char('y')
            && (action matches Some(PendingAction::RestoreRevision { .. })),
        out is ExecuteDelete ==> key == Key::Char('y') && (action matches Some(PendingAction::Delete { .. })),
        out is ExecuteRemoveFile ==> key == Key::Char('y')
            && (action matches Some(PendingAction::RemoveFile { .. })),
        out is ExecuteCompactGist ==> key == Key::Char('y')
            && (action matches Some(PendingAction::CompactGist { .. })),
        out is Create ==> (key == Key::Char('s') || key == Key::Char('p'))
            && (action matches Some(PendingAction::Create { .. })),
{
}

/// The status a gist with one revision gets instead of a compaction confirm.
pub open spec fn single_revision_text(label: Seq<char>) -> Seq<char> {
    "\""@ + label + "\" already has a single revision — nothing to compact"@
}

/// The warning a compaction confirm shows for a gist with `count` revisions.
pub open spec fn compact_body_text(gist_id: Seq<char>, label: Seq<char>, count: nat) -> Seq<char> {
    "Compact gist "@ + gist_id + " (\""@ + label + "\").\n\nIt has "@ + dec(count)
        + " revisions. Compacting clones it to a temp dir, squashes the history to a single commit, and force-pushes — the "@
        + dec((count - 1) as nat) + " older revisions are gone for good."@
}

/// Only the status line changed, to `message`.
pub open spec fn only_status(s0: AppState, s1: AppState, message: Seq<char>) -> bool {
    &&& status_view(s1.status) == Some(message)
    &&& s1.screen == s0.screen
    &&& s1.gist_list_stale == s0.gist_list_stale
    &&& s1.revisions_stale == s0.revisions_stale
    &&& s1.nav_stack == s0.nav_stack
}

/// A confirm modal opened on `body`, scrolled to the top, over the screen that was on
/// display, which is remembered to return to; the status line and the stale marks are as
/// they were.
pub open spec fn confirm_opened(s0: AppState, s1: AppState, body: Seq<char>) -> bool {
    &&& s1.screen matches Screen::Confirm(c) && c.body.text@ == body && c.body.scroll == 0
        && c.body.hscroll == 0
    &&& status_view(s1.status) == status_view(s0.status)
    &&& s1.gist_list_stale == s0.gist_list_stale
    &&& s1.revisions_stale == s0.revisions_stale
    &&& s1.nav_stack@ == s0.nav_stack@.push(s0.screen)
}

/// The action of the confirm modal that is up.
pub open spec fn confirm_action(screen: Screen) -> Option<PendingAction> {
    match screen {
        Screen::Confirm(c) => Some(c.action),
        _ => None,
    }
}

/// Put the confirm modal for `action` up on `text`, over the screen on display, which is
/// remembered to return to.
pub fn raise_confirm(state: &mut AppState, action: PendingAction, text: String)
    ensures
        final(state).screen == Screen::Confirm(
            ConfirmState { action, body: ScrollBody { text, scroll: 0, hscroll: 0 } },
        ),
        final(state).nav_stack@ == old(state).nav_stack@.push(old(state).screen),
        final(state).status == old(state).status,
        final(state).gist_list_stale == old(state).gist_list_stale,
        final(state).revisions_stale == old(state).revisions_stale,
{
    let mut previous = Screen::Confirm(
        ConfirmState { action, body: ScrollBody { text, scroll: 0, hscroll: 0 } },
    );
    core::mem::swap(&mut previous, &mut state.screen);
    state.nav_stack.push(previous);
}

/// `CompactAnalyze` outcome: a gist with a single revision has nothing to compact;
/// otherwise the compaction confirm opens with its warning.
pub fn on_compact_analyze(
    state: &mut AppState,
    result: Result<usize, String>,
    gist_id: String,
    label: String,
) -> (flow: LoopFlow)
    ensures
        flow == LoopFlow::Proceed,
        match result {
            Err(e) => only_status(*old(state), *final(state), "revision check failed: "@ + e@),
            Ok(count) => if count <= 1 {
                only_status(*old(state), *final(state), single_revision_text(label@))
            } else {
                &&& confirm_opened(
                    *old(state),
                    *final(state),
                    compact_body_text(gist_id@, label@, count as nat),
                )
                &&& confirm_action(final(state).screen) matches Some(
                    PendingAction::CompactGist { gist_id: g, label: l, count: n },
                ) && g@ == gist_id@ && l@ == label@ && n == count
            },
        },
{
    match result {
        Ok(count) => {
            if count <= 1 {
                let mut message = owned("\"");
                push_str(&mut message, label.as_str());
                push_str(&mut message, "\" already has a single revision — nothing to compact");
                state.set_status(message);
            } else {
                let mut text = owned("Compact gist ");
                push_str(&mut text, gist_id.as_str());
                push_str(&mut text, " (\"");
                push_str(&mut text, label.as_str());
                push_str(&mut text, "\").\n\nIt has ");
                push_dec(&mut text, count as u64);
                push_str(
                    &mut text,
                    " revisions. Compacting clones it to a temp dir, squashes the history to a single commit, and force-pushes — the ",
                );
                push_dec(&mut text, (count - 1) as u64);
                push_str(&mut text, " older revisions are gone for good.");
                raise_confirm(state, PendingAction::CompactGist { gist_id, label, count }, text);
            }
        },
        Err(error) => {
            let mut message = owned("revision check failed: ");
            push_str(&mut message, error.as_str());
            state.set_status(message);
        },
    }
    LoopFlow::Proceed
}

/// `RestoreRevisionReady` outcome, from the revision's and the current content. When they
/// are the same there is nothing to restore: the status says so and the result is
/// [`LoopFlow::SkipIteration`]. Otherwise the restore confirm opens over the diff from the
/// revision to the current content.
pub fn on_restore_revision_ready(
    state: &mut AppState,
    result: Result<(String, String), String>,
    gist_id: String,
    filename: String,
    version: String,
    version_label: String,
    ignore_trailing_newline: bool,
) -> (flow: LoopFlow)
    ensures
        match result {
            Err(e) => flow == LoopFlow::Proceed && only_status(*old(state), *final(state), e@),
            Ok((revision, current)) => if revision@ == current@ {
                &&& flow == LoopFlow::SkipIteration
                &&& only_status(
                    *old(state),
                    *final(state),
                    "revision matches current — nothing to restore"@,
                )
            } else {
                &&& flow == LoopFlow::Proceed
                &&& confirm_opened(
                    *old(state),
                    *final(state),
                    unified_diff_of(
                        "revision "@ + version_label@,
                        normalized(revision@, ignore_trailing_newline),
                        "current "@ + filename@,
                        normalized(current@, ignore_trailing_newline),
                    ),
                )
                &&& confirm_action(final(state).screen) matches Some(
                    PendingAction::RestoreRevision {
                        gist_id: g,
                        filename: f,
                        version: v,
                        version_label: vl,
                        content: c,
                    },
                ) && g@ == gist_id@ && f@ == filename@ && v@ == version@ && vl@
                    == version_label@ && c@ == revision@
            },
        },
{
    match result {
        Ok((revision, current)) => {
            if str_eq(revision.as_str(), current.as_str()) {
                state.set_status(owned("revision matches current — nothing to restore"));
                return LoopFlow::SkipIteration;
            }
            let mut old_label = owned("revision ");
            push_str(&mut old_label, version_label.as_str());
            let mut new_label = owned("current ");
            push_str(&mut new_label, filename.as_str());
            let diff = unified_diff(
                old_label.as_str(),
                revision.as_str(),
                new_label.as_str(),
                current.as_str(),
                ignore_trailing_newline,
            );
            raise_confirm(
                state,
                PendingAction::RestoreRevision {
                    gist_id,
                    filename,
                    version,
                    version_label,
                    content: revision,
                },
                diff,
            );
            LoopFlow::Proceed
        },
        Err(error) => {
            state.set_status(error);
            LoopFlow::Proceed
        },
    }
}

/// `UploadPreview` outcome, from the gist's current content and the local file as read
/// from disk. When both are in hand the upload confirm opens over the diff from the gist
/// to the local file; otherwise the status says which read failed.
pub fn on_upload_preview(
    state: &mut AppState,
    result: Result<String, String>,
    gist_id: String,
    filename: String,
    local_path: String,
    local_content: Result<String, String>,
    local_label: &str,
    gist_label: &str,
    home: Option<&str>,
    ignore_trailing_newline: bool,
) -> (flow: LoopFlow)
    ensures
        flow == LoopFlow::Proceed,
        match result {
            Err(e) => only_status(*old(state), *final(state), "fetch failed: "@ + e@),
            Ok(remote) => match local_content {
                Err(e) => only_status(
                    *old(state),
                    *final(state),
                    "cannot read "@ + display_path_spec(
                        local_path@,
                        match home {
                            Some(h) => Some(h@),
                            None => None,
                        },
                    ) + ": "@ + e@,
                ),
                Ok(local) => {
                    &&& confirm_opened(
                        *old(state),
                        *final(state),
                        unified_diff_of(
                            gist_label@,
                            normalized(remote@, ignore_trailing_newline),
                            local_label@,
                            normalized(local@, ignore_trailing_newline),
                        ),
                    )
                    &&& confirm_action(final(state).screen) matches Some(
                        PendingAction::Upload { gist_id: g, filename: f, local_path: p },
                    ) && g@ == gist_id@ && f@ == filename@ && p@ == local_path@
                },
            },
        },
{
    match result {
        Ok(remote) => match local_content {
            Ok(local) => {
                let diff = unified_diff(
                    gist_label,
                    remote.as_str(),
                    local_label,
                    local.as_str(),
                    ignore_trailing_newline,
                );
                raise_confirm(state, PendingAction::Upload { gist_id, filename, local_path }, diff);
            },
            Err(error) => {
                let mut message = owned("cannot read ");
                let shown = display_path(local_path.as_str(), home);
                push_str(&mut message, shown.as_str());
                push_str(&mut message, ": ");
                push_str(&mut message, error.as_str());
                state.set_status(message);
            },
        },
        Err(error) => {
            let mut message = owned("fetch failed: ");
            push_str(&mut message, error.as_str());
            state.set_status(message);
        },
    }
    LoopFlow::Proceed
}

// ---------------------------------------------------------------------------------------------
// Reports from the editor watch on an upload
// ---------------------------------------------------------------------------------------------

/// What the editor watch started by `e` on an upload confirm reports, naming the upload
/// it was started for.
#[derive(Debug, Clone, PartialEq, Eq)]
pub enum UploadEditEvent {
    /// The file was saved while the editor stays open.
    ContentChanged { gist_id: String, filename: String, content: String },
    /// The editor closed; `content` is the file as it was left.
    EditorClosed { gist_id: String, filename: String, content: String },
    /// The edited file could not be read back.
    ReadError { gist_id: String, filename: String, message: String },
}

/// The upload's content as edited, and what its diff is drawn from: the gist's content and
/// the labels of the two sides.
#[derive(Debug, Clone, PartialEq, Eq)]
pub struct UploadDraft {
    pub edited_content: Option<String>,
    pub remote_content: Option<String>,
    pub local_label: Option<String>,
    pub gist_label: Option<String>,
}

/// The gist and file an event names.
pub open spec fn event_target(e: UploadEditEvent) -> (Seq<char>, Seq<char>) {
    match e {
        UploadEditEvent::ContentChanged { gist_id, filename, .. } => (gist_id@, filename@),
        UploadEditEvent::EditorClosed { gist_id, filename, .. } => (gist_id@, filename@),
        UploadEditEvent::ReadError { gist_id, filename, .. } => (gist_id@, filename@),
    }
}

/// An event belongs to the session on display: an editor watch is live and the confirm that
/// is up uploads the very gist file the event names. Anything else is a late report from a
/// session that was cancelled or replaced.
pub open spec fn event_is_current(screen: Screen, watching: bool, e: UploadEditEvent) -> bool {
    &&& watching
    &&& confirm_action(screen) matches Some(PendingAction::Upload { gist_id: g, filename: f, .. })
        && g@ == event_target(e).0 && f@ == event_target(e).1
}

/// The diff of the upload confirm with the local side replaced by `content`, when the gist's
/// side and both labels are known.
pub open spec fn redrawn_diff(d: UploadDraft, content: Seq<char>, ignore_trailing_newline: bool) -> Option<Seq<char>> {
    match (d.remote_content, d.local_label, d.gist_label) {
        (Some(remote), Some(local_label), Some(gist_label)) => Some(
            unified_diff_of(
                gist_label@,
                normalized(remote@, ignore_trailing_newline),
                local_label@,
                normalized(content, ignore_trailing_newline),
            ),
        ),
        _ => None,
    }
}

/// After new content `content` arrived: the draft holds it, the upload is marked edited, and
/// the confirm's diff is redrawn from it (its scroll position kept) when it can be.
pub open spec fn content_taken(
    s0: AppState,
    s1: AppState,
    f0: UploadFlags,
    f1: UploadFlags,
    d0: UploadDraft,
    d1: UploadDraft,
    content: Seq<char>,
    ignore_trailing_newline: bool,
) -> bool {
    &&& d1.edited_content matches Some(c) && c@ == content
    &&& d1.remote_content == d0.remote_content
    &&& d1.local_label == d0.local_label
    &&& d1.gist_label == d0.gist_label
    &&& f1.edited
    &&& f1.json_pretty == f0.json_pretty
    &&& f1.json_sort == f0.json_sort
    &&& s1.status == s0.status
    &&& s1.gist_list_stale == s0.gist_list_stale
    &&& s1.revisions_stale == s0.revisions_stale
    &&& s1.nav_stack == s0.nav_stack
    &&& match redrawn_diff(d0, content, ignore_trailing_newline) {
        None => s1.screen == s0.screen,
        Some(text) => s0.screen matches Screen::Confirm(c0) && s1.screen matches Screen::Confirm(c1)
            && c1.action == c0.action && c1.body.text@ == text && c1.body.scroll == c0.body.scroll
            && c1.body.hscroll == c0.body.hscroll,
    }
}

/// Replace the text of the confirm on display with `text`, keeping its action and scroll.
fn redraw_confirm(state: &mut AppState, text: String)
    requires
        old(state).screen is Confirm,
    ensures
        old(state).screen matches Screen::Confirm(c0) && final(state).screen matches Screen::Confirm(c1)
            && c1.action == c0.action && c1.body.text == text && c1.body.scroll == c0.body.scroll
            && c1.body.hscroll == c0.body.hscroll,
        final(state).status == old(state).status,
        final(state).gist_list_stale == old(state).gist_list_stale,
        final(state).revisions_stale == old(state).revisions_stale,
        final(state).nav_stack == old(state).nav_stack,
{
    let mut taken = Screen::List;
    core::mem::swap(&mut taken, &mut state.screen);
    match taken {
        Screen::Confirm(c) => {
            state.screen = Screen::Confirm(
                ConfirmState {
                    action: c.action,
                    body: ScrollBody { text, scroll: c.body.scroll, hscroll: c.body.hscroll },
                },
            );
        },
        other => {
            state.screen = other;
        },
    }
}

/// Whether the event names the upload the confirm on display is for.
fn names_pending_upload(screen: &Screen, gist_id: &str, filename: &str) -> (r: bool)
    ensures
        r == (confirm_action(*screen) matches Some(PendingAction::Upload { gist_id: g, filename: f, .. })
            && g@ == gist_id@ && f@ == filename@),
{
    match screen {
        Screen::Confirm(c) => match &c.action {
            PendingAction::Upload { gist_id: g, filename: f, .. } => str_eq(g.as_str(), gist_id)
                && str_eq(f.as_str(), filename),
            _ => false,
        },
        _ => false,
    }
}

/// Take new upload content: keep it in the draft, mark the upload edited, and redraw the
/// confirm's diff from it when both sides are known.
fn take_content(
    state: &mut AppState,
    flags: &mut UploadFlags,
    draft: &mut UploadDraft,
    content: String,
    ignore_trailing_newline: bool,
)
    requires
        old(state).screen is Confirm,
    ensures
        content_taken(
            *old(state),
            *final(state),
            *old(flags),
            *final(flags),
            *old(draft),
            *final(draft),
            content@,
            ignore_trailing_newline,
        ),
        final(flags).watching == old(flags).watching,
{
    flags.edited = true;
    match (&draft.remote_content, &draft.local_label, &draft.gist_label) {
        (Some(remote), Some(local_label), Some(gist_label)) => {
            let text = unified_diff(
                gist_label.as_str(),
                remote.as_str(),
                local_label.as_str(),
                content.as_str(),
                ignore_trailing_newline,
            );
            redraw_confirm(state, text);
        },
        _ => {},
    }
    draft.edited_content = Some(content);
}

/// Apply a report from the editor watch on an upload. A report for any other session than
/// the one on display (see [`event_is_current`]) changes nothing. Otherwise new content is
/// taken and the diff redrawn from it; a closed editor also ends the watch; a read error
/// ends the watch and says why on the status line.
pub fn apply_upload_edit_event(
    state: &mut AppState,
    flags: &mut UploadFlags,
    draft: &mut UploadDraft,
    event: UploadEditEvent,
    ignore_trailing_newline: bool,
)
    ensures
        !event_is_current(old(state).screen, old(flags).watching, event) ==> {
            &&& *final(state) == *old(state)
            &&& *final(flags) == *old(flags)
            &&& *final(draft) == *old(draft)
        },
        event_is_current(old(state).screen, old(flags).watching, event) ==> match event {
            UploadEditEvent::ContentChanged { content, .. } => {
                &&& content_taken(
                    *old(state),
                    *final(state),
                    *old(flags),
                    *final(flags),
                    *old(draft),
                    *final(draft),
                    content@,
                    ignore_trailing_newline,
                )
                &&& final(flags).watching
            },
            UploadEditEvent::EditorClosed { content, .. } => {
                &&& content_taken(
                    *old(state),
                    *final(state),
                    *old(flags),
                    *final(flags),
                    *old(draft),
                    *final(draft),
                    content@,
                    ignore_trailing_newline,
                )
                &&& !final(flags).watching
            },
            UploadEditEvent::ReadError { message, .. } => {
                &&& only_status(
                    *old(state),
                    *final(state),
                    "failed to read edited file: "@ + message@,
                )
                &&& !final(flags).watching
                &&& final(flags).edited == old(flags).edited
                &&& final(flags).json_pretty == old(flags).json_pretty
                &&& final(flags).json_sort == old(flags).json_sort
                &&& *final(draft) == *old(draft)
            },
        },
{
    let current = flags.watching && match &event {
        UploadEditEvent::ContentChanged { gist_id, filename, .. } => names_pending_upload(
            &state.screen,
            gist_id.as_str(),
            filename.as_str(),
        ),
        UploadEditEvent::EditorClosed { gist_id, filename, .. } => names_pending_upload(
            &state.screen,
            gist_id.as_str(),
            filename.as_str(),
        ),
        UploadEditEvent::ReadError { gist_id, filename, .. } => names_pending_upload(
            &state.screen,
            gist_id.as_str(),
            filename.as_str(),
        ),
    };
    if !current {
        return;
    }
    match event {
        UploadEditEvent::ContentChanged { content, .. } => {
            take_content(state, flags, draft, content, ignore_trailing_newline);
        },
        UploadEditEvent::EditorClosed { content, .. } => {
            take_content(state, flags, draft, content, ignore_trailing_newline);
            flags.watching = false;
        },
        UploadEditEvent::ReadError { message, .. } => {
            flags.watching = false;
            let mut text = owned("failed to read edited file: ");
            push_str(&mut text, message.as_str());
            state.set_status(text);
        },
    }
}

} // verus!
