use gistui::chrome::TextInput;
use gistui::confirm::{build_confirm_vm, ConfirmModalKind, PendingAction, UploadFlags};
use gistui::confirm_flow::{handle_key_confirm, raise_confirm, ConfirmKeyOutcome, ConfirmSession};
use gistui::diff_flow::{handle_key_diff, DiffKeyOutcome};
use gistui::gists_screen::GistsState;
use gistui::keys::{Key, NavAction};
use gistui::domain::GistGroup;
use gistui::gists_screen::{handle_key_gists, listed_group_indices, row_of_gist, GistsKeyOutcome};
use gistui::list_keys::{
    handle_key_list, FocusPane, ListKeyOutcome, ListScreen, ListSelection, SelectedGist,
};
use gistui::outcomes::{
    apply_confirm_outcome, apply_diff_outcome, apply_list_outcome, apply_preview_outcome,
    close_after_delete, open_gist_manager_at, open_preview,
};
use gistui::pins_screen::PinsState;
use gistui::preview::{handle_key_preview, scroll_navigation, PreviewAction, PreviewSession, PreviewState};
use gistui::scroll::ScrollBody;
use gistui::settings::RuntimeSettings;
use gistui::state::{initial_state, AppState, DetailState, Screen};
use gistui::theme::Theme;

fn session() -> ConfirmSession {
    ConfirmSession {
        upload: UploadFlags { watching: false, edited: false, json_pretty: false, json_sort: false },
        editing_description: false,
        description_input: TextInput::from(""),
        status: None,
    }
}

fn no_selection() -> ListSelection {
    ListSelection {
        local: None,
        gist: None,
        owned: false,
        pinned_pair: false,
        gist_holds_local_name: false,
        file_count: 0,
        has_owned_gists: false,
        text_previewable: false,
        diff_previewable: false,
        context_gist_id: None,
        cwd: "/cwd".into(),
    }
}

fn delete_action() -> PendingAction {
    PendingAction::Delete { gist_id: "abc123".into(), label: "my notes".into() }
}

/// Press `key` on the confirm on display and apply what it asks for.
fn confirm_key(state: &mut AppState, s: &mut ConfirmSession, key: Key) -> ConfirmKeyOutcome {
    let out = handle_key_confirm(s, state.pending_action(), key);
    apply_confirm_outcome(state, &out);
    out
}

/// Press `key` on the diff on display and apply what it asks for (no file at the target).
fn diff_key(state: &mut AppState, key: Key) -> DiffKeyOutcome {
    let mut wrap = false;
    let mut settings = RuntimeSettings::default();
    let out = match &mut state.screen {
        Screen::Diff(d) => handle_key_diff(d, &mut wrap, &mut settings, true, key),
        other => panic!("expected the diff, got {other:?}"),
    };
    apply_diff_outcome(state, &out, false);
    out
}

fn diff_body(state: &AppState) -> ScrollBody {
    match &state.screen {
        Screen::Diff(d) => d.body.clone(),
        other => panic!("expected the diff, got {other:?}"),
    }
}

fn diff_nav(state: &mut AppState, action: NavAction) {
    match &mut state.screen {
        Screen::Diff(d) => scroll_navigation(&mut d.body, action),
        other => panic!("expected the diff, got {other:?}"),
    }
}

#[test]
fn confirm_vm_prompt_identity() {
    let action = PendingAction::Upload {
        gist_id: "g1".into(),
        filename: "notes.txt".into(),
        local_path: "notes.txt".into(),
    };
    let flags = session().upload;
    let c = build_confirm_vm(Some(&action), &Theme::dark(), false, &TextInput::from(""), "", None, flags, 0);
    assert_eq!(c.title, "Upload");
    match c.kind {
        ConfirmModalKind::Prompt(prompt) => assert_eq!(prompt.question, "Upload notes.txt to gist g1?"),
        other => panic!("expected Prompt, got {other:?}"),
    }
}

#[test]
fn confirm_vm_overwrite_download() {
    let mut state = initial_state();
    state.enter_diff(String::new(), String::new(), String::new(), "notes.txt".into());
    let target = state.download_target().to_string();
    raise_confirm(&mut state, PendingAction::Download, String::new());
    let flags = session().upload;
    let c = build_confirm_vm(state.pending_action(), &Theme::dark(), false, &TextInput::from(""), &target, None, flags, 0);
    assert_eq!(c.title, "Overwrite");
    match c.kind {
        ConfirmModalKind::Prompt(prompt) => assert_eq!(prompt.question, "Overwrite notes.txt?"),
        other => panic!("expected Prompt, got {other:?}"),
    }
}

#[test]
fn delete_from_list_returns_to_list() {
    let mut state = initial_state();
    raise_confirm(&mut state, delete_action(), String::new());
    let mut s = session();
    assert_eq!(handle_key_confirm(&mut s, state.pending_action(), Key::Char('y')), ConfirmKeyOutcome::ExecuteDelete);
    close_after_delete(&mut state);
    assert_eq!(state.screen, Screen::List);
}

#[test]
fn delete_from_gist_detail_opened_via_gists_returns_to_gists() {
    let mut state = initial_state();
    state.screen = Screen::Gists(GistsState::new());
    state.nav_stack.push(Screen::List);
    let mut detail = DetailState::default();
    detail.gist_id = Some("abc123".into());
    let gists = std::mem::replace(&mut state.screen, Screen::GistDetail(detail));
    state.nav_stack.push(gists);
    raise_confirm(&mut state, delete_action(), String::new());
    let mut s = session();
    assert_eq!(handle_key_confirm(&mut s, state.pending_action(), Key::Char('y')), ConfirmKeyOutcome::ExecuteDelete);
    close_after_delete(&mut state);
    assert!(matches!(state.screen, Screen::Gists(_)));
    assert_eq!(state.nav_stack, vec![Screen::List]);
}

#[test]
fn delete_from_gist_detail_opened_via_pins_returns_to_pins() {
    let mut state = initial_state();
    state.nav_stack.push(Screen::Pins(PinsState::new()));
    let mut detail = DetailState::default();
    detail.gist_id = Some("abc123".into());
    state.screen = Screen::GistDetail(detail);
    raise_confirm(&mut state, delete_action(), String::new());
    let mut s = session();
    assert_eq!(handle_key_confirm(&mut s, state.pending_action(), Key::Char('y')), ConfirmKeyOutcome::ExecuteDelete);
    close_after_delete(&mut state);
    assert!(matches!(state.screen, Screen::Pins(_)));
    assert!(state.nav_stack.is_empty());
}

#[test]
fn delete_confirm_n_returns_to_list() {
    let mut state = initial_state();
    raise_confirm(&mut state, delete_action(), String::new());
    let mut s = session();
    assert_eq!(confirm_key(&mut state, &mut s, Key::Char('n')), ConfirmKeyOutcome::Cancel);
    assert_eq!(state.screen, Screen::List);
    assert!(state.pending_action().is_none());
}

#[test]
fn create_confirm_esc_cancels() {
    let mut state = initial_state();
    raise_confirm(&mut state, PendingAction::Create { local_path: "/tmp/config.toml".into() }, String::new());
    let mut s = session();
    assert_eq!(confirm_key(&mut state, &mut s, Key::Esc), ConfirmKeyOutcome::BackToList);
    assert_eq!(state.screen, Screen::List);
    assert_eq!(state.pending_action().cloned(), None);
}

#[test]
fn create_esc_while_editing_description_cancels() {
    let mut state = initial_state();
    raise_confirm(&mut state, PendingAction::Create { local_path: "/tmp/config.toml".into() }, String::new());
    let mut s = session();
    s.editing_description = true;
    confirm_key(&mut state, &mut s, Key::Char('x'));
    assert_eq!(confirm_key(&mut state, &mut s, Key::Esc), ConfirmKeyOutcome::BackToList);
    assert_eq!(state.screen, Screen::List);
    assert_eq!(state.pending_action().cloned(), None);
    assert!(!s.editing_description);
    assert!(s.description_input.is_empty());
}

#[test]
fn n_starts_create_in_the_description_editor() {
    let mut state = initial_state();
    raise_confirm(&mut state, PendingAction::Create { local_path: "/tmp/config.toml".into() }, String::new());
    let mut s = session();
    s.editing_description = true;
    assert!(matches!(state.screen, Screen::Confirm(_)));
    // While editing, letters (s and p too) are typed into the description, not taken as the
    // visibility choice.
    for c in "notes".chars() {
        assert_eq!(confirm_key(&mut state, &mut s, Key::Char(c)), ConfirmKeyOutcome::Nothing);
    }
    assert_eq!(s.description_input.text(), "notes");
}

#[test]
fn create_enter_advances_to_visibility_then_s_creates() {
    let mut state = initial_state();
    raise_confirm(&mut state, PendingAction::Create { local_path: "/tmp/config.toml".into() }, String::new());
    let mut s = session();
    s.editing_description = true;
    confirm_key(&mut state, &mut s, Key::Char('h'));
    confirm_key(&mut state, &mut s, Key::Char('i'));
    // Enter ends the description step and creates nothing yet.
    assert_eq!(confirm_key(&mut state, &mut s, Key::Enter), ConfirmKeyOutcome::Nothing);
    assert!(!s.editing_description);
    assert_eq!(s.description_input.text(), "hi");
    // Now s/p choose the visibility and create.
    assert_eq!(confirm_key(&mut state, &mut s, Key::Char('s')), ConfirmKeyOutcome::Create { public: false });
}

#[test]
fn confirm_upload_n_cancels_and_resets_watching() {
    let mut state = initial_state();
    let action = PendingAction::Upload {
        gist_id: "a".into(),
        filename: "settings.json".into(),
        local_path: "/tmp/settings.json".into(),
    };
    raise_confirm(&mut state, action, String::new());
    let mut s = session();
    s.upload.watching = true;
    assert_eq!(confirm_key(&mut state, &mut s, Key::Char('n')), ConfirmKeyOutcome::Cancel);
    assert!(state.pending_action().is_none());
    assert_eq!(state.screen, Screen::List);
    // Cancelling resets the watch so a later edit session is not blocked by a stale flag.
    assert!(!s.upload.watching);
}

#[test]
fn confirm_screen_scrolls_diff() {
    let mut state = initial_state();
    raise_confirm(&mut state, PendingAction::Download, "l1\nl2\nl3".into());
    match &mut state.screen {
        Screen::Confirm(c) => {
            scroll_navigation(&mut c.body, NavAction::Down);
            assert_eq!(c.body.scroll, 1);
            scroll_navigation(&mut c.body, NavAction::Up);
            assert_eq!(c.body.scroll, 0);
        },
        other => panic!("expected the confirm, got {other:?}"),
    }
}

#[test]
fn q_in_diff_returns_to_list() {
    let mut state = initial_state();
    state.enter_diff("d".into(), "r".into(), "/tmp/x".into(), "/tmp/x".into());
    assert_eq!(diff_key(&mut state, Key::Char('q')), DiffKeyOutcome::Leave);
    assert_eq!(state.screen, Screen::List);
}

#[test]
fn page_up_saturates_at_top_in_diff() {
    let mut state = initial_state();
    state.enter_diff("a\nb\nc".into(), "r".into(), "/tmp/x".into(), "/tmp/x".into());
    diff_nav(&mut state, NavAction::Down);
    assert_eq!(diff_body(&state).scroll, 1);
    diff_nav(&mut state, NavAction::PageUp);
    assert_eq!(diff_body(&state).scroll, 0);
}

#[test]
fn diff_scroll_respects_bounds() {
    let mut state = initial_state();
    state.enter_diff("l1\nl2\nl3".into(), "r".into(), "/tmp/x".into(), "/tmp/x".into());
    assert_eq!(diff_body(&state).scroll, 0);
    diff_nav(&mut state, NavAction::Down);
    assert_eq!(diff_body(&state).scroll, 1);
    diff_nav(&mut state, NavAction::Up);
    assert_eq!(diff_body(&state).scroll, 0);
}

#[test]
fn diff_hscroll_respects_bounds() {
    let mut state = initial_state();
    state.enter_diff("abcd\nab".into(), "r".into(), "/tmp/x".into(), "/tmp/x".into());
    assert_eq!(diff_body(&state).hscroll, 0);
    diff_nav(&mut state, NavAction::Right);
    assert_eq!(diff_body(&state).hscroll, 1);
    diff_nav(&mut state, NavAction::Left);
    assert_eq!(diff_body(&state).hscroll, 0);
}

#[test]
fn d_in_diff_requests_download_when_file_absent() {
    let missing = "/tmp/does-not-exist.json".to_string();
    let mut state = initial_state();
    state.enter_diff("d".into(), "r".into(), "/tmp/local".into(), missing.clone());
    let out = diff_key(&mut state, Key::Char('d'));
    assert!(matches!(&out, DiffKeyOutcome::DownloadRequested { target } if *target == missing));
    // No file is there, so nothing is raised: the download is written at once.
    assert!(state.diff_previewed());
}

#[test]
fn esc_in_preview_returns_to_list_and_clears() {
    let mut state = initial_state();
    let preview = PreviewState {
        title: "Preview: a / x".into(),
        body: ScrollBody { text: "raw content".into(), scroll: 0, hscroll: 0 },
        gist_key: Some(("a".into(), "x".into())),
    };
    open_preview(&mut state, preview.clone());
    let mut s = PreviewSession { preview, wrap: false, status: None };
    let out = handle_key_preview(&mut s, Key::Esc, None);
    assert_eq!(out, PreviewAction::Leave);
    apply_preview_outcome(&mut state, &out);
    assert_eq!(state.screen, Screen::List);
    assert!(state.nav_stack.is_empty());
}

#[test]
fn config_c_key_opens_settings_from_list() {
    let mut state = initial_state();
    let mut list = ListScreen::new();
    let out = handle_key_list(&mut list, &no_selection(), Key::Char('C'));
    assert_eq!(out, ListKeyOutcome::OpenConfig);
    apply_list_outcome(&mut state, out);
    assert!(matches!(state.screen, Screen::Config(_)));
    state.leave();
    assert_eq!(state.screen, Screen::List);
}

fn gist_selection() -> ListSelection {
    ListSelection {
        local: Some("/cwd/settings.json".into()),
        gist: Some(SelectedGist {
            gist_id: "a".into(),
            filename: "settings.json".into(),
            description: "Zed".into(),
            raw_url: None,
        }),
        owned: true,
        file_count: 2,
        has_owned_gists: true,
        text_previewable: true,
        diff_previewable: true,
        context_gist_id: Some("a".into()),
        ..no_selection()
    }
}

#[test]
fn capital_h_from_list_opens_revisions_for_selected_gist_file() {
    let mut list = ListScreen::new();
    list.focus = FocusPane::Gist;
    let out = handle_key_list(&mut list, &gist_selection(), Key::Char('H'));
    assert_eq!(out, ListKeyOutcome::OpenRevisions { gist_id: "a".into(), filename: "settings.json".into() });
    let mut state = initial_state();
    apply_list_outcome(&mut state, out);
    match &state.screen {
        Screen::Revisions(r) => {
            assert_eq!(r.gist_id.as_deref(), Some("a"));
            assert_eq!(r.target_file, "settings.json");
        },
        other => panic!("expected the revisions, got {other:?}"),
    }
    assert_eq!(state.nav_stack.last(), Some(&Screen::List));
}

/// Press `key` on the List with `sel` selected and apply what it asks for.
fn list_key(sel: &ListSelection, key: Key) -> (ListKeyOutcome, AppState) {
    let mut list = ListScreen::new();
    let out = handle_key_list(&mut list, sel, key);
    let mut state = initial_state();
    apply_list_outcome(&mut state, out.clone());
    (out, state)
}

#[test]
fn o_on_main_list_is_noop_now_that_browser_moved_to_gist_view() {
    let (out, state) = list_key(&gist_selection(), Key::Char('o'));
    assert_eq!(out, ListKeyOutcome::Nothing);
    assert_eq!(state.screen, Screen::List);
}

#[test]
fn space_without_gist_is_noop() {
    let (out, state) = list_key(&no_selection(), Key::Char(' '));
    assert_eq!(out, ListKeyOutcome::Nothing);
    assert_eq!(state, initial_state());
}

#[test]
fn p_without_local_or_gist_is_noop() {
    let (out, state) = list_key(&no_selection(), Key::Char('p'));
    assert_eq!(out, ListKeyOutcome::Nothing);
    assert_eq!(state, initial_state());
}

#[test]
fn enter_in_gist_focus_with_selection_returns_preview() {
    let mut list = ListScreen::new();
    list.focus = FocusPane::Gist;
    let out = handle_key_list(&mut list, &gist_selection(), Key::Enter);
    assert!(matches!(out, ListKeyOutcome::PreviewDiff { .. }));
}

#[test]
fn enter_in_local_focus_previews_top_gist() {
    let mut list = ListScreen::new();
    list.focus = FocusPane::Local;
    let out = handle_key_list(&mut list, &gist_selection(), Key::Enter);
    assert!(matches!(out, ListKeyOutcome::PreviewDiff { .. }));
}

#[test]
fn fork_key_ignored_on_list_and_gist_manager() {
    let foreign = ListSelection { owned: false, has_owned_gists: false, ..gist_selection() };
    let (out, state) = list_key(&foreign, Key::Char('F'));
    assert_eq!(out, ListKeyOutcome::Nothing);
    assert_eq!(state.screen, Screen::List);

    let mut g = GistsState::new();
    let mut status = None;
    assert_eq!(
        handle_key_gists(&mut g, &mut status, &["foreign".to_string()], Key::Char('F')),
        GistsKeyOutcome::Nothing
    );
}

fn group(id: &str, description: &str) -> GistGroup {
    GistGroup {
        id: id.into(),
        description: description.into(),
        public: true,
        updated_at: "2026-06-10T00:00:00Z".into(),
        created_at: "2026-06-01T00:00:00Z".into(),
        file_count: 1,
        owner_login: "me".into(),
        fork_of_id: None,
    }
}

#[test]
fn g_opens_gist_view_landing_on_the_selected_files_gist() {
    let groups = vec![group("a", "My Ghostty config"), group("b", "SSH config")];
    // The second gist's file is selected on the List; `g` jumps to the gist-level view.
    let sel = ListSelection { context_gist_id: Some("b".into()), ..gist_selection() };
    let mut list = ListScreen::new();
    assert_eq!(handle_key_list(&mut list, &sel, Key::Char('g')), ListKeyOutcome::OpenGistManager);
    let order = listed_group_indices(&groups, &[], &GistsState::new());
    let row = row_of_gist(&groups, &order, sel.context_gist_id.as_deref().unwrap());
    let mut state = initial_state();
    open_gist_manager_at(&mut state, row);
    match &state.screen {
        Screen::Gists(g) => {
            assert_eq!(g.cursor.index, 1);
            assert_eq!(groups[order[g.cursor.index]].id, "b");
        },
        other => panic!("expected the gist manager, got {other:?}"),
    }
    // An unknown gist lands on the first row.
    assert_eq!(row_of_gist(&groups, &order, "zzz"), 0);
}

#[test]
fn compact_confirm_y_executes_and_n_returns_to_gist_manager() {
    let compact = PendingAction::CompactGist { gist_id: "a".into(), label: "My Ghostty config".into(), count: 3 };
    let mut state = initial_state();
    state.screen = Screen::Gists(GistsState::new());
    raise_confirm(&mut state, compact.clone(), String::new());
    let mut s = session();
    assert_eq!(handle_key_confirm(&mut s, state.pending_action(), Key::Char('y')), ConfirmKeyOutcome::ExecuteCompactGist);
    // Cancelling drops the pending action and lands back on the gist manager.
    assert_eq!(confirm_key(&mut state, &mut s, Key::Char('n')), ConfirmKeyOutcome::Cancel);
    assert!(matches!(state.screen, Screen::Gists(_)));
    assert!(state.pending_action().is_none());
}

#[test]
fn confirm_upload_n_cancels_to_diff_return_screen() {
    let mut state = initial_state();
    state.screen = Screen::Pins(PinsState::new());
    let action = PendingAction::Upload {
        gist_id: "a".into(),
        filename: "settings.json".into(),
        local_path: "/tmp/settings.json".into(),
    };
    raise_confirm(&mut state, action, String::new());
    let mut s = session();
    assert_eq!(confirm_key(&mut state, &mut s, Key::Char('n')), ConfirmKeyOutcome::Cancel);
    assert!(state.pending_action().is_none());
    // Cancelling an upload raised from the Pins returns to the Pins, not always the List.
    assert!(matches!(state.screen, Screen::Pins(_)));
}

#[test]
fn palette_blocked_during_confirm() {
    let mut state = initial_state();
    raise_confirm(&mut state, PendingAction::Download, String::new());
    let mut s = session();
    assert_eq!(confirm_key(&mut state, &mut s, Key::Char(';')), ConfirmKeyOutcome::Nothing);
    assert!(matches!(state.screen, Screen::Confirm(_)));
}
