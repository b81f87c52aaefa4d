use gistui::confirm::{PendingAction, UploadFlags};
use gistui::confirm_flow::{apply_upload_edit_event, UploadDraft, UploadEditEvent};
use gistui::scroll::ScrollBody;
use gistui::state::{initial_state, AppState, ConfirmState, Screen};

fn flags(watching: bool) -> UploadFlags {
    UploadFlags { watching, edited: false, json_pretty: false, json_sort: false }
}

fn empty_draft() -> UploadDraft {
    UploadDraft { edited_content: None, remote_content: None, local_label: None, gist_label: None }
}

fn upload_pending(gist_id: &str, filename: &str) -> PendingAction {
    PendingAction::Upload {
        gist_id: gist_id.into(),
        filename: filename.into(),
        local_path: format!("/tmp/{filename}"),
    }
}

fn confirm_state(action: PendingAction) -> AppState {
    let mut state = initial_state();
    state.screen = Screen::Confirm(ConfirmState { action, body: ScrollBody::default() });
    state
}

#[test]
fn apply_upload_edit_event_content_changed_updates_diff_live() {
    let mut state = confirm_state(upload_pending("a", "notes.txt"));
    let mut upload = flags(true);
    let mut draft = empty_draft();
    draft.remote_content = Some("old\n".into());
    draft.local_label = Some("local".into());
    draft.gist_label = Some("gist".into());

    apply_upload_edit_event(
        &mut state,
        &mut upload,
        &mut draft,
        UploadEditEvent::ContentChanged {
            gist_id: "a".into(),
            filename: "notes.txt".into(),
            content: "new\n".into(),
        },
        false,
    );

    assert_eq!(draft.edited_content.as_deref(), Some("new\n"));
    assert!(upload.watching, "still watching — editor hasn't closed yet");
    assert!(state.scroll_body().expect("Confirm ScrollBody").text.contains("new"));
}

#[test]
fn apply_upload_edit_event_editor_closed_stops_watching() {
    let mut state = confirm_state(upload_pending("a", "notes.txt"));
    let mut upload = flags(true);
    let mut draft = empty_draft();

    apply_upload_edit_event(
        &mut state,
        &mut upload,
        &mut draft,
        UploadEditEvent::EditorClosed {
            gist_id: "a".into(),
            filename: "notes.txt".into(),
            content: "final\n".into(),
        },
        false,
    );

    assert_eq!(draft.edited_content.as_deref(), Some("final\n"));
    assert!(!upload.watching);
}

#[test]
fn apply_upload_edit_event_read_error_stops_watching_and_sets_status() {
    let mut state = confirm_state(upload_pending("a", "notes.txt"));
    let mut upload = flags(true);
    let mut draft = empty_draft();

    apply_upload_edit_event(
        &mut state,
        &mut upload,
        &mut draft,
        UploadEditEvent::ReadError {
            gist_id: "a".into(),
            filename: "notes.txt".into(),
            message: "permission denied".into(),
        },
        false,
    );

    assert!(!upload.watching);
    assert_eq!(state.status.as_deref(), Some("failed to read edited file: permission denied"));
}

#[test]
fn apply_upload_edit_event_discards_when_a_different_upload_is_now_pending() {
    // A new upload edit session started before the old one's final event arrived.
    let mut state = confirm_state(upload_pending("a", "other.txt"));
    let mut upload = flags(true);
    let mut draft = empty_draft();
    draft.edited_content = Some("current session content".into());

    apply_upload_edit_event(
        &mut state,
        &mut upload,
        &mut draft,
        UploadEditEvent::EditorClosed {
            gist_id: "a".into(),
            filename: "notes.txt".into(), // the stale session's filename, not "other.txt"
            content: "stale content".into(),
        },
        false,
    );

    assert_eq!(draft.edited_content.as_deref(), Some("current session content"));
    assert!(upload.watching, "the current session's watch must not be cancelled");
}

#[test]
fn apply_upload_edit_event_discards_stale_event_after_cancel_reentry_same_identity() {
    // The watch was cancelled (watching reset) and the upload re-entered for the same file
    // without editing again: a report from the abandoned watch must not leak in.
    let mut state = confirm_state(upload_pending("a", "notes.txt"));
    let mut upload = flags(false);
    let mut draft = empty_draft();

    apply_upload_edit_event(
        &mut state,
        &mut upload,
        &mut draft,
        UploadEditEvent::ContentChanged {
            gist_id: "a".into(),
            filename: "notes.txt".into(),
            content: "leaked from abandoned session".into(),
        },
        false,
    );

    assert_eq!(
        draft.edited_content, None,
        "an event from an abandoned watch session must not leak into a new, non-watching \
         session with the same gist/file identity"
    );
}

#[test]
fn apply_upload_edit_event_discards_when_context_is_stale() {
    // The user already left Confirm before this late event arrived.
    let mut state = initial_state();
    let mut upload = flags(false);
    let mut draft = empty_draft();

    apply_upload_edit_event(
        &mut state,
        &mut upload,
        &mut draft,
        UploadEditEvent::ContentChanged {
            gist_id: "a".into(),
            filename: "notes.txt".into(),
            content: "should be ignored".into(),
        },
        false,
    );

    assert_eq!(draft.edited_content, None);
    assert_eq!(state.screen, Screen::List);
}

#[test]
fn content_change_keeps_the_diff_scroll_and_marks_the_upload_edited() {
    let mut state = confirm_state(upload_pending("a", "notes.txt"));
    if let Screen::Confirm(c) = &mut state.screen {
        c.body.scroll = 4;
    }
    let mut upload = flags(true);
    let mut draft = empty_draft();
    draft.remote_content = Some("a\nb\n".into());
    draft.local_label = Some("local: notes.txt".into());
    draft.gist_label = Some("gist a / notes.txt".into());

    apply_upload_edit_event(
        &mut state,
        &mut upload,
        &mut draft,
        UploadEditEvent::ContentChanged {
            gist_id: "a".into(),
            filename: "notes.txt".into(),
            content: "a\nc\n".into(),
        },
        false,
    );

    assert!(upload.edited);
    let body = state.scroll_body().expect("confirm body");
    assert_eq!(body.scroll, 4);
    assert!(body.text.starts_with("--- gist a / notes.txt\n+++ local: notes.txt\n"));
    assert!(body.text.contains("-b\n"));
    assert!(body.text.contains("+c\n"));
    assert_eq!(state.pending_action(), Some(&upload_pending("a", "notes.txt")));
}

#[test]
fn content_without_a_known_gist_side_leaves_the_body_alone() {
    let mut state = confirm_state(upload_pending("a", "notes.txt"));
    let mut upload = flags(true);
    let mut draft = empty_draft();

    apply_upload_edit_event(
        &mut state,
        &mut upload,
        &mut draft,
        UploadEditEvent::ContentChanged {
            gist_id: "a".into(),
            filename: "notes.txt".into(),
            content: "x\n".into(),
        },
        false,
    );

    assert_eq!(draft.edited_content.as_deref(), Some("x\n"));
    assert_eq!(state.scroll_body().expect("confirm body").text, "");
}
