use gistui::chrome::{Rect, TextInput};
use gistui::detail_keys::{
    apply_navigation_detail, click_detail_tab, click_select_detail, detail_guard,
    handle_key_detail, preview_detail_file, wheel_detail, DetailAction, DetailLayout,
    DetailSession, PaneHit, ShownGist,
};
use gistui::domain::GistGroup;
use gistui::keys::{Key, NavAction};
use gistui::confirm::PendingAction;
use gistui::outcomes::apply_detail_action;
use gistui::state::{initial_state, DetailFocus, DetailState, Screen};

fn group(id: &str, description: &str, file_count: usize) -> GistGroup {
    GistGroup {
        id: id.into(),
        description: description.into(),
        public: true,
        updated_at: "x".into(),
        created_at: "x".into(),
        file_count,
        owner_login: String::new(),
        fork_of_id: None,
    }
}

fn shown(id: &str, description: &str, files: &[&str], owned: bool) -> ShownGist {
    ShownGist {
        owned,
        group: Some(group(id, description, files.len())),
        files: files.iter().map(|f| f.to_string()).collect(),
        previewable: files.iter().map(|_| true).collect(),
    }
}

fn g1() -> ShownGist {
    shown("g1", "demo", &["a.txt", "b.txt"], true)
}

fn session(gist_id: Option<&str>) -> DetailSession {
    let mut detail = DetailState::default();
    detail.gist_id = gist_id.map(|g| g.to_string());
    DetailSession {
        detail,
        editing_description: false,
        description_input: TextInput::from(""),
        status: None,
    }
}

#[test]
fn wheel_step_gist_detail_moves_three() {
    let mut s = session(Some("g1"));
    s.detail.focus = DetailFocus::Comments;
    s.detail.comments = Some(Vec::new());
    assert_eq!(s.detail.scroll, 0);
    wheel_detail(&mut s.detail, true, 2);
    assert_eq!(s.detail.scroll, 3);
}

#[test]
fn wheel_step_gist_detail_files_moves_one() {
    let mut s = session(Some("g1"));
    s.detail.focus = DetailFocus::Files;
    s.detail.file_cursor = 0;
    wheel_detail(&mut s.detail, true, 2);
    assert_eq!(s.detail.file_cursor, 1);
}

#[test]
fn gist_detail_file_click_selects_and_double_previews() {
    let mut s = session(Some("g1"));
    s.detail.focus = DetailFocus::Comments;
    let layout = DetailLayout {
        files: Some(PaneHit { rect: Rect { x: 0, y: 0, width: 40, height: 10 }, offset: 0 }),
        tab_files: None,
        tab_comments: None,
    };
    assert!(click_select_detail(&mut s.detail, 5, 2, &layout, 2));
    assert_eq!(s.detail.focus, DetailFocus::Files);
    assert_eq!(s.detail.file_cursor, 1);
    let out = preview_detail_file(&s.detail, &g1(), s.detail.file_cursor);
    assert_eq!(
        out,
        DetailAction::PreviewContent { gist_id: "g1".into(), filename: "b.txt".into() }
    );
}

#[test]
fn gist_detail_tab_click_switches_focus() {
    let mut s = session(Some("g1"));
    s.detail.focus = DetailFocus::Files;
    let layout = DetailLayout {
        files: None,
        tab_files: Some(Rect { x: 2, y: 2, width: 7, height: 1 }),
        tab_comments: Some(Rect { x: 12, y: 2, width: 10, height: 1 }),
    };
    let out = click_detail_tab(&mut s.detail, 14, 2, &layout);
    assert_eq!(s.detail.focus, DetailFocus::Comments);
    assert!(matches!(out, Some(DetailAction::FetchComments { .. })));
    let out = click_detail_tab(&mut s.detail, 4, 2, &layout);
    assert_eq!(s.detail.focus, DetailFocus::Files);
    assert_eq!(out, Some(DetailAction::Nothing));
    assert_eq!(click_detail_tab(&mut s.detail, 30, 9, &layout), None);
}

#[test]
fn detail_tab_toggles_focus() {
    let mut s = session(Some("g1"));
    assert_eq!(s.detail.focus, DetailFocus::Files);
    let outcome = handle_key_detail(&mut s, &g1(), Key::Tab);
    assert!(matches!(outcome, DetailAction::FetchComments { .. }));
    assert_eq!(s.detail.focus, DetailFocus::Comments);
    let outcome = handle_key_detail(&mut s, &g1(), Key::Tab);
    assert_eq!(outcome, DetailAction::Nothing);
    assert_eq!(s.detail.focus, DetailFocus::Files);
}

#[test]
fn detail_tab_to_comments_skips_fetch_when_already_loaded() {
    let mut s = session(Some("g1"));
    s.detail.comments = Some(Vec::new());
    let outcome = handle_key_detail(&mut s, &g1(), Key::Tab);
    assert_eq!(outcome, DetailAction::Nothing);
    assert_eq!(s.detail.focus, DetailFocus::Comments);
}

#[test]
fn detail_files_focus_arrows_move_cursor_and_clamp() {
    let mut s = session(Some("g1"));
    s.detail.focus = DetailFocus::Files;
    apply_navigation_detail(&mut s.detail, NavAction::Up, 2);
    assert_eq!(s.detail.file_cursor, 0);
    apply_navigation_detail(&mut s.detail, NavAction::Down, 2);
    assert_eq!(s.detail.file_cursor, 1);
    apply_navigation_detail(&mut s.detail, NavAction::Down, 2);
    assert_eq!(s.detail.file_cursor, 1);
    apply_navigation_detail(&mut s.detail, NavAction::PageUp, 2);
    assert_eq!(s.detail.file_cursor, 0);
    apply_navigation_detail(&mut s.detail, NavAction::PageDown, 2);
    assert_eq!(s.detail.file_cursor, 1);
    assert_eq!(s.detail.scroll, 0);
}

#[test]
fn detail_comments_focus_arrows_still_scroll_comments() {
    let mut s = session(None);
    s.detail.focus = DetailFocus::Comments;
    apply_navigation_detail(&mut s.detail, NavAction::Down, 0);
    assert_eq!(s.detail.scroll, 1);
    assert_eq!(s.detail.file_cursor, 0);
    assert!(!apply_navigation_detail(&mut s.detail, NavAction::Right, 0));
}

#[test]
fn detail_scroll_saturates_at_zero() {
    let mut s = session(None);
    s.detail.focus = DetailFocus::Comments;
    apply_navigation_detail(&mut s.detail, NavAction::Up, 0);
    assert_eq!(s.detail.scroll, 0);
    apply_navigation_detail(&mut s.detail, NavAction::Down, 0);
    assert_eq!(s.detail.scroll, 1);
}

#[test]
fn detail_enter_previews_cursor_file_including_tenth() {
    let names: Vec<String> = (0..12).map(|i| format!("f{i}.txt")).collect();
    let refs: Vec<&str> = names.iter().map(|n| n.as_str()).collect();
    let g = shown("g1", "demo", &refs, true);
    let mut s = session(Some("g1"));
    s.detail.focus = DetailFocus::Files;
    s.detail.file_cursor = 9;
    let mut state = initial_state();
    state.screen = Screen::GistDetail(s.detail.clone());
    let outcome = handle_key_detail(&mut s, &g, Key::Enter);
    assert_eq!(
        outcome,
        DetailAction::PreviewContent { gist_id: "g1".into(), filename: "f9.txt".into() }
    );
    // The preview is fetched by the loop; the detail stays the screen to come back to.
    apply_detail_action(&mut state, outcome);
    assert!(matches!(state.screen, Screen::GistDetail(_)));
}

#[test]
fn detail_enter_in_comments_focus_is_noop() {
    let mut s = session(Some("g1"));
    s.detail.focus = DetailFocus::Comments;
    assert_eq!(handle_key_detail(&mut s, &g1(), Key::Enter), DetailAction::Nothing);
}

#[test]
fn detail_c_triggers_compaction_and_records_origin() {
    let mut s = session(Some("g1"));
    let mut state = initial_state();
    state.screen = Screen::GistDetail(s.detail.clone());
    let outcome = handle_key_detail(&mut s, &g1(), Key::Char('c'));
    assert_eq!(outcome, DetailAction::CompactGist { gist_id: "g1".into(), label: "demo".into() });
    // The compaction is analysed by the loop; the detail stays the screen to come back to.
    apply_detail_action(&mut state, outcome);
    assert!(matches!(state.screen, Screen::GistDetail(_)));
}

#[test]
fn detail_number_key_requests_file_preview() {
    let mut s = session(Some("g1"));
    let mut state = initial_state();
    state.screen = Screen::GistDetail(s.detail.clone());
    let outcome = handle_key_detail(&mut s, &g1(), Key::Char('1'));
    assert_eq!(
        outcome,
        DetailAction::PreviewContent { gist_id: "g1".into(), filename: "a.txt".into() }
    );
    apply_detail_action(&mut state, outcome);
    assert!(matches!(state.screen, Screen::GistDetail(_)));
}

#[test]
fn detail_number_key_out_of_range_is_ignored() {
    let mut s = session(Some("g1"));
    assert_eq!(handle_key_detail(&mut s, &g1(), Key::Char('5')), DetailAction::Nothing);
}

#[test]
fn detail_number_key_blocks_a_binary_file() {
    let mut g = g1();
    g.previewable[1] = false;
    let mut s = session(Some("g1"));
    assert_eq!(
        handle_key_detail(&mut s, &g, Key::Char('2')),
        DetailAction::PreviewBlocked { filename: "b.txt".into() }
    );
    s.detail.file_cursor = 1;
    assert!(!detail_guard(&s.detail, &g, Key::Enter));
    assert_eq!(handle_key_detail(&mut s, &g, Key::Enter), DetailAction::Nothing);
}

#[test]
fn detail_x_requests_gist_delete_confirm() {
    let mut s = session(Some("g1"));
    match handle_key_detail(&mut s, &g1(), Key::Char('X')) {
        DetailAction::ConfirmDelete { gist_id, label, text } => {
            assert_eq!(gist_id, "g1");
            assert_eq!(label, "demo");
            assert_eq!(
                text,
                "Delete gist g1 (2 file(s)): demo.\n\nThis permanently removes the entire gist and all its files."
            );
        }
        other => panic!("expected a delete confirm, got {other:?}"),
    }
}

#[test]
fn detail_x_stages_whole_gist_delete() {
    let g = shown("b", "SSH config", &["ssh_config"], true);
    let mut s = session(Some("b"));
    let mut state = initial_state();
    state.screen = Screen::GistDetail(s.detail.clone());
    let action = handle_key_detail(&mut s, &g, Key::Char('X'));
    assert!(matches!(
        action,
        DetailAction::ConfirmDelete { ref gist_id, ref label, .. } if gist_id == "b" && label == "SSH config"
    ));
    apply_detail_action(&mut state, action);
    assert!(state.is_confirm());
    assert_eq!(
        state.pending_action().cloned(),
        Some(PendingAction::Delete { gist_id: "b".into(), label: "SSH config".into() })
    );
}

#[test]
fn star_key_in_detail_returns_toggle_intent() {
    let mut s = session(Some("g1"));
    assert!(matches!(
        handle_key_detail(&mut s, &g1(), Key::Char('*')),
        DetailAction::ToggleGistStar { .. }
    ));
    let mut none = session(None);
    assert_eq!(handle_key_detail(&mut none, &g1(), Key::Char('*')), DetailAction::Nothing);
    assert_eq!(none.status.as_deref(), Some("select a gist first"));
}

#[test]
fn detail_e_edits_description_with_prefill_and_enter_applies() {
    let g = shown("a", "My Ghostty config", &["config.ghostty"], true);
    let mut s = session(Some("a"));
    handle_key_detail(&mut s, &g, Key::Char('e'));
    assert!(s.editing_description);
    assert_eq!(s.description_input.text(), "My Ghostty config");
    handle_key_detail(&mut s, &g, Key::Char('!'));
    assert_eq!(s.description_input.text(), "My Ghostty config!");
    assert_eq!(
        handle_key_detail(&mut s, &g, Key::Enter),
        DetailAction::ApplyDescription { gist_id: "a".into(), description: "My Ghostty config!".into() }
    );
}

#[test]
fn detail_description_edits_mid_string_with_cursor_keys() {
    let g = shown("a", "My Ghostty config", &["config.ghostty"], true);
    let mut s = session(Some("a"));
    handle_key_detail(&mut s, &g, Key::Char('e'));
    assert_eq!(s.description_input.text(), "My Ghostty config");
    handle_key_detail(&mut s, &g, Key::Home);
    handle_key_detail(&mut s, &g, Key::Right);
    handle_key_detail(&mut s, &g, Key::Right);
    for c in [' ', 'o', 'w', 'n'] {
        handle_key_detail(&mut s, &g, Key::Char(c));
    }
    assert_eq!(s.description_input.text(), "My own Ghostty config");
    handle_key_detail(&mut s, &g, Key::Delete);
    assert_eq!(s.description_input.text(), "My ownGhostty config");
}

#[test]
fn detail_esc_cancels_description_edit() {
    let g = shown("a", "My Ghostty config", &["config.ghostty"], true);
    let mut s = session(Some("a"));
    handle_key_detail(&mut s, &g, Key::Char('e'));
    assert!(s.editing_description);
    handle_key_detail(&mut s, &g, Key::Esc);
    assert!(!s.editing_description);
    assert!(s.description_input.is_empty());
}

#[test]
fn fork_key_returns_fork_intent_for_foreign_gist_in_detail() {
    let g = shown("foreign", "x", &["a.txt"], false);
    let mut s = session(Some("foreign"));
    assert!(matches!(handle_key_detail(&mut s, &g, Key::Char('F')), DetailAction::ForkGist { .. }));
}

#[test]
fn fork_key_blocked_for_owned_gist_in_detail() {
    let g = shown("mine", "x", &["a.txt"], true);
    let mut s = session(Some("mine"));
    assert_eq!(handle_key_detail(&mut s, &g, Key::Char('F')), DetailAction::Nothing);
    assert!(s.status.as_ref().unwrap().contains("already yours"));
}

#[test]
fn foreign_detail_mutate_keys_are_silent_noop() {
    let g = shown("foreign", "x", &["a.txt"], false);
    let mut s = session(Some("foreign"));
    assert_eq!(handle_key_detail(&mut s, &g, Key::Char('e')), DetailAction::Nothing);
    assert_eq!(handle_key_detail(&mut s, &g, Key::Char('c')), DetailAction::Nothing);
    assert_eq!(handle_key_detail(&mut s, &g, Key::Char('X')), DetailAction::Nothing);
    assert!(s.status.is_none());
    assert!(!s.editing_description);
}

#[test]
fn m_key_loads_older_when_available() {
    let mut s = session(Some("g1"));
    s.detail.focus = DetailFocus::Comments;
    s.detail.comments = Some(Vec::new());
    s.detail.comments_loaded_oldest_page = 3;
    assert_eq!(
        handle_key_detail(&mut s, &g1(), Key::Char('m')),
        DetailAction::LoadOlderComments { gist_id: "g1".into(), page: 2 }
    );
}

#[test]
fn m_key_noop_when_at_oldest_page() {
    let mut s = session(Some("g1"));
    s.detail.focus = DetailFocus::Comments;
    s.detail.comments = Some(Vec::new());
    s.detail.comments_loaded_oldest_page = 1;
    assert_eq!(handle_key_detail(&mut s, &g1(), Key::Char('m')), DetailAction::Nothing);
}

#[test]
fn q_leaves_and_question_mark_opens_help() {
    let mut s = session(Some("g1"));
    s.status = Some("old".into());
    assert_eq!(handle_key_detail(&mut s, &g1(), Key::Char('q')), DetailAction::Leave);
    assert!(s.status.is_none());
    assert_eq!(handle_key_detail(&mut s, &g1(), Key::Esc), DetailAction::Leave);
    assert_eq!(handle_key_detail(&mut s, &g1(), Key::Char('?')), DetailAction::OpenHelp);
    assert_eq!(
        handle_key_detail(&mut s, &g1(), Key::Char('H')),
        DetailAction::OpenRevisions { gist_id: "g1".into(), target_file: "a.txt".into() }
    );
}

#[test]
fn capital_h_from_gist_detail_opens_revisions_and_fetches() {
    let mut s = session(Some("g1"));
    s.detail.file_cursor = 1;
    let mut state = initial_state();
    state.screen = Screen::GistDetail(s.detail.clone());
    let action = handle_key_detail(&mut s, &g1(), Key::Char('H'));
    assert_eq!(
        action,
        DetailAction::OpenRevisions { gist_id: "g1".into(), target_file: "b.txt".into() }
    );
    apply_detail_action(&mut state, action);
    match &state.screen {
        Screen::Revisions(r) => {
            assert_eq!(r.gist_id.as_deref(), Some("g1"));
            assert_eq!(r.target_file, "b.txt");
            // Nothing fetched yet: the history is the loop's fetch.
            assert!(r.entries.is_none());
        },
        other => panic!("expected the revisions, got {other:?}"),
    }
    assert!(matches!(state.nav_stack.last(), Some(Screen::GistDetail(_))));
}
