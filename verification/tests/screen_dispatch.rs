use gistui::chrome::{Rect, TextInput};
use gistui::confirm::{PendingAction, UploadFlags};
use gistui::confirm_flow::{handle_key_confirm, ConfirmKeyOutcome, ConfirmSession};
use gistui::detail_keys::{handle_key_detail, DetailAction, DetailSession, ShownGist};
use gistui::diff_flow::DiffKeyOutcome;
use gistui::domain::GistGroup;
use gistui::help::{HelpState, HelpTopic};
use gistui::keys::Key;
use gistui::list_keys::{
    list_route_key, FocusPane, ListKeyOutcome, ListScreen, ListSelection, SelectedGist,
};
use gistui::mouse::{handle_top_bar_click, HitTarget, MouseFrame};
use gistui::outcomes::{
    apply_confirm_outcome, apply_detail_action, apply_diff_outcome, apply_list_outcome,
};
use gistui::scroll::ScrollBody;
use gistui::screens::{help_topic_for, open_help, wheel_step_for};
use gistui::state::{
    initial_state, AppState, ConfirmState, DetailFocus, DetailState, DiffState, RevisionState, Screen,
};
use gistui::config_screen::ConfigState;
use gistui::gists_screen::GistsState;
use gistui::pins_screen::PinsState;
use gistui::preview::PreviewState;
use gistui::palette_screen::{PaletteMode, PaletteState};

fn preview_screen() -> Screen {
    Screen::Preview(PreviewState {
        title: "Preview: notes / a.txt".into(),
        body: ScrollBody::default(),
        gist_key: Some(("g1".into(), "a.txt".into())),
    })
}

fn config_screen() -> Screen {
    Screen::Config(ConfigState { index: 0 })
}

fn detail_screen(gist_id: &str) -> Screen {
    let mut d = DetailState::default();
    d.gist_id = Some(gist_id.into());
    Screen::GistDetail(d)
}

fn confirm_over(state: &mut AppState, action: PendingAction) {
    let below = std::mem::replace(&mut state.screen, Screen::List);
    state.nav_stack.push(below);
    state.screen = Screen::Confirm(ConfirmState { action, body: ScrollBody::default() });
}

fn confirm_session() -> ConfirmSession {
    ConfirmSession {
        upload: UploadFlags { watching: false, edited: false, json_pretty: false, json_sort: false },
        editing_description: false,
        description_input: TextInput::from(""),
        status: None,
    }
}

fn ssh_gist() -> ShownGist {
    ShownGist {
        owned: true,
        group: Some(GistGroup {
            id: "b".into(),
            description: "SSH config".into(),
            public: false,
            updated_at: "x".into(),
            created_at: "x".into(),
            file_count: 1,
            owner_login: String::new(),
            fork_of_id: None,
        }),
        files: vec!["ssh_config".into()],
        previewable: vec![true],
    }
}

fn selection(local: Option<&str>, gist: Option<(&str, &str)>, owned: bool) -> ListSelection {
    ListSelection {
        local: local.map(|l| l.to_string()),
        gist: gist.map(|(id, name)| SelectedGist {
            gist_id: id.into(),
            filename: name.into(),
            description: "x".into(),
            raw_url: None,
        }),
        owned,
        pinned_pair: false,
        gist_holds_local_name: false,
        file_count: 1,
        has_owned_gists: gist.is_some(),
        text_previewable: true,
        diff_previewable: true,
        context_gist_id: gist.map(|(id, _)| id.to_string()),
        cwd: "/tmp".into(),
    }
}

/// Route `key` on the List screen and apply what it asks to a fresh state; returns both.
fn list_key_applied(
    s: &mut ListScreen,
    sel: &ListSelection,
    key: Key,
    local_rows: usize,
    gist_rows: usize,
) -> (ListKeyOutcome, AppState) {
    let out = list_route_key(s, sel, key, local_rows, gist_rows);
    let mut state = initial_state();
    apply_list_outcome(&mut state, out.clone());
    (out, state)
}

#[test]
fn question_mark_opens_each_screens_own_help_topic() {
    assert_eq!(help_topic_for(&Screen::List), HelpTopic::List);
    assert_eq!(help_topic_for(&Screen::Pins(PinsState::new())), HelpTopic::Pins);
    assert_eq!(help_topic_for(&Screen::Gists(GistsState::new())), HelpTopic::GistManager);
    assert_eq!(help_topic_for(&detail_screen("g")), HelpTopic::GistDetail);
    assert_eq!(help_topic_for(&Screen::Revisions(RevisionState::new())), HelpTopic::Revisions);
    assert_eq!(help_topic_for(&config_screen()), HelpTopic::Config);
    assert_eq!(help_topic_for(&preview_screen()), HelpTopic::List);
    assert_eq!(help_topic_for(&Screen::Help(HelpState::new())), HelpTopic::List);
}

#[test]
fn open_help_remembers_the_screen_and_starts_on_its_topic() {
    let mut state = initial_state();
    state.screen = detail_screen("g1");
    open_help(&mut state);
    match state.screen {
        Screen::Help(h) => {
            assert_eq!(h.topic, HelpTopic::GistDetail);
            assert!(!h.index_open);
            assert_eq!(h.scroll, 0);
        }
        ref other => panic!("expected help, got {other:?}"),
    }
    assert_eq!(state.nav_stack, vec![detail_screen("g1")]);
    state.leave();
    assert_eq!(state.screen, detail_screen("g1"));
}

#[test]
fn top_bar_help_opens_the_topic_of_the_screen_below() {
    let mut state = initial_state();
    state.screen = Screen::Gists(GistsState::new());
    let mut layout = MouseFrame::new();
    layout.register(HitTarget::TopHelp, Rect { x: 30, y: 0, width: 7, height: 1 });
    assert!(handle_top_bar_click(&mut state, &layout, 32, 0));
    assert!(matches!(state.screen, Screen::Help(h) if h.topic == HelpTopic::GistManager));
    // A second click while help is up changes nothing.
    assert!(handle_top_bar_click(&mut state, &layout, 32, 0));
    assert_eq!(state.nav_stack, vec![Screen::Gists(GistsState::new())]);
}

#[test]
fn wheel_steps_follow_the_screen() {
    let mut state = initial_state();
    assert_eq!(wheel_step_for(&state), 1);
    state.screen = preview_screen();
    assert_eq!(wheel_step_for(&state), 3);
    let mut d = DetailState::default();
    d.focus = DetailFocus::Comments;
    state.screen = Screen::GistDetail(d);
    assert_eq!(wheel_step_for(&state), 3);
    let mut h = HelpState::new();
    state.screen = Screen::Help(h);
    assert_eq!(wheel_step_for(&state), 3);
    h.index_open = true;
    state.screen = Screen::Help(h);
    assert_eq!(wheel_step_for(&state), 1);
    state.screen = Screen::Confirm(ConfirmState {
        action: PendingAction::Download,
        body: ScrollBody::default(),
    });
    assert_eq!(wheel_step_for(&state), 3);
}

#[test]
fn list_keys_go_to_the_filter_while_one_is_typed() {
    let sel = selection(None, None, false);
    let mut s = ListScreen::new();
    assert_eq!(list_route_key(&mut s, &sel, Key::Char('/'), 0, 0), ListKeyOutcome::Nothing);
    assert!(s.filtering);
    // 'q' is typed into the filter instead of arming the quit.
    list_route_key(&mut s, &sel, Key::Char('q'), 0, 0);
    assert_eq!(s.local_filter_query.text(), "q");
    assert!(!s.quit_armed);
    list_route_key(&mut s, &sel, Key::Enter, 0, 0);
    assert!(!s.filtering);
    list_route_key(&mut s, &sel, Key::Char('q'), 0, 0);
    assert!(s.quit_armed);
}

#[test]
fn detail_x_puts_the_delete_confirm_up() {
    let mut state = initial_state();
    state.screen = detail_screen("b");
    let mut session = DetailSession {
        detail: match &state.screen {
            Screen::GistDetail(d) => d.clone(),
            _ => unreachable!(),
        },
        editing_description: false,
        description_input: TextInput::from(""),
        status: None,
    };
    let action = handle_key_detail(&mut session, &ssh_gist(), Key::Char('X'));
    apply_detail_action(&mut state, action);
    assert_eq!(
        state.pending_action().cloned(),
        Some(PendingAction::Delete { gist_id: "b".into(), label: "SSH config".into() })
    );
    assert!(state.is_confirm());
}

#[test]
fn delete_confirm_y_runs_and_n_q_esc_close() {
    let mut state = initial_state();
    state.screen = detail_screen("b");
    let delete = PendingAction::Delete { gist_id: "b".into(), label: "SSH config".into() };
    confirm_over(&mut state, delete.clone());

    let mut s = confirm_session();
    let out = handle_key_confirm(&mut s, state.pending_action(), Key::Char('y'));
    assert_eq!(out, ConfirmKeyOutcome::ExecuteDelete);
    apply_confirm_outcome(&mut state, &out);
    assert_eq!(state.pending_action(), Some(&delete), "the confirm stays up while the delete runs");

    for key in [Key::Char('n'), Key::Char('q'), Key::Esc] {
        let mut state = initial_state();
        state.screen = detail_screen("b");
        confirm_over(&mut state, delete.clone());
        let out = handle_key_confirm(&mut s, state.pending_action(), key);
        apply_confirm_outcome(&mut state, &out);
        assert!(state.pending_action().is_none());
        assert!(!state.is_confirm());
    }
}

#[test]
fn delete_confirm_n_returns_to_the_screen_below() {
    let mut state = initial_state();
    state.screen = detail_screen("b");
    confirm_over(&mut state, PendingAction::Delete { gist_id: "b".into(), label: "x".into() });
    apply_confirm_outcome(&mut state, &ConfirmKeyOutcome::Cancel);
    assert_eq!(state.screen, detail_screen("b"));
    assert!(state.nav_stack.is_empty());
}

#[test]
fn back_to_list_from_a_confirm_forgets_the_way_back() {
    let mut state = initial_state();
    state.screen = detail_screen("b");
    confirm_over(&mut state, PendingAction::Download);
    apply_confirm_outcome(&mut state, &ConfirmKeyOutcome::BackToList);
    assert_eq!(state.screen, Screen::List);
    assert!(state.nav_stack.is_empty());
}

#[test]
fn cancelling_a_restore_returns_to_its_revisions() {
    let restore = PendingAction::RestoreRevision {
        gist_id: "g1".into(),
        filename: "a.txt".into(),
        version: "v".into(),
        version_label: "v (1d ago)".into(),
        content: "old".into(),
    };
    // With the history below, back to it.
    let mut state = initial_state();
    let mut rev = RevisionState::new();
    rev.gist_id = Some("g1".into());
    state.screen = Screen::Revisions(rev.clone());
    confirm_over(&mut state, restore.clone());
    apply_confirm_outcome(&mut state, &ConfirmKeyOutcome::CancelToRevisions);
    assert_eq!(state.screen, Screen::Revisions(rev));
    // Raised from elsewhere, a history for the restore's file takes the confirm's place.
    let mut state = initial_state();
    state.screen = preview_screen();
    confirm_over(&mut state, restore);
    apply_confirm_outcome(&mut state, &ConfirmKeyOutcome::CancelToRevisions);
    match &state.screen {
        Screen::Revisions(r) => {
            assert_eq!(r.gist_id.as_deref(), Some("g1"));
            assert_eq!(r.target_file, "a.txt");
        }
        other => panic!("expected revisions, got {other:?}"),
    }
    assert_eq!(state.nav_stack, vec![preview_screen()]);
}

#[test]
fn esc_in_diff_returns_to_list() {
    let mut state = initial_state();
    state.enter_diff("d".into(), "r".into(), "/tmp/x".into(), "/tmp/x".into());
    assert!(!apply_diff_outcome(&mut state, &DiffKeyOutcome::Leave, false));
    assert_eq!(state.screen, Screen::List);
    assert!(!state.diff_previewed());
}

#[test]
fn d_in_diff_over_an_existing_file_asks_first() {
    let mut state = initial_state();
    state.enter_diff("the diff".into(), "r".into(), "/tmp/x".into(), "/tmp/x".into());
    let out = DiffKeyOutcome::DownloadRequested { target: "/tmp/x".into() };
    assert!(!apply_diff_outcome(&mut state, &out, true));
    assert_eq!(state.pending_action(), Some(&PendingAction::Download));
    assert_eq!(state.scroll_body().unwrap().text, "the diff");
    // Refusing returns to the diff.
    let mut s = confirm_session();
    let refuse = handle_key_confirm(&mut s, state.pending_action(), Key::Char('n'));
    apply_confirm_outcome(&mut state, &refuse);
    assert!(state.diff_previewed());
}

#[test]
fn d_in_diff_to_a_new_file_writes_at_once() {
    let mut state = initial_state();
    state.enter_diff("d".into(), "r".into(), "/tmp/x".into(), "/tmp/new".into());
    let out = DiffKeyOutcome::DownloadRequested { target: "/tmp/new".into() };
    assert!(apply_diff_outcome(&mut state, &out, false));
    assert!(state.diff_previewed());
}

#[test]
fn list_outcomes_open_their_screens() {
    let mut state = initial_state();
    apply_list_outcome(&mut state, ListKeyOutcome::OpenHelp);
    assert!(matches!(state.screen, Screen::Help(h) if h.topic == HelpTopic::List));
    let mut state = initial_state();
    apply_list_outcome(&mut state, ListKeyOutcome::OpenGistManager);
    assert_eq!(state.screen, Screen::Gists(GistsState::new()));
    assert_eq!(state.nav_stack, vec![Screen::List]);
    let mut state = initial_state();
    apply_list_outcome(
        &mut state,
        ListKeyOutcome::ConfirmCreate { local_path: "/tmp/a".into(), text: "t".into() },
    );
    assert_eq!(state.pending_action(), Some(&PendingAction::Create { local_path: "/tmp/a".into() }));
    let mut state = initial_state();
    apply_list_outcome(
        &mut state,
        ListKeyOutcome::OpenRevisions { gist_id: "g1".into(), filename: "a.txt".into() },
    );
    assert!(matches!(&state.screen, Screen::Revisions(r)
        if r.gist_id.as_deref() == Some("g1") && r.target_file == "a.txt"));
    let mut state = initial_state();
    apply_list_outcome(&mut state, ListKeyOutcome::RefreshLocals);
    assert_eq!(state, initial_state());
}

#[test]
fn u_adds_when_gist_lacks_filename() {
    let mut s = ListScreen::new();
    s.focus = FocusPane::Gist;
    let sel = selection(Some("/tmp/config"), Some(("a", "settings.json")), true);
    assert!(matches!(
        list_route_key(&mut s, &sel, Key::Char('u'), 1, 1),
        ListKeyOutcome::UploadAdd { .. }
    ));
}

#[test]
fn u_previews_when_gist_has_same_filename() {
    let mut s = ListScreen::new();
    s.focus = FocusPane::Gist;
    let mut sel = selection(Some("/tmp/settings.json"), Some(("a", "settings.json")), true);
    sel.gist_holds_local_name = true;
    assert!(matches!(
        list_route_key(&mut s, &sel, Key::Char('u'), 1, 1),
        ListKeyOutcome::UploadPreview { .. }
    ));
}

#[test]
fn u_without_selection_is_noop() {
    let mut s = ListScreen::new();
    let sel = selection(None, None, false);
    let (out, state) = list_key_applied(&mut s, &sel, Key::Char('u'), 0, 0);
    assert_eq!(out, ListKeyOutcome::Nothing);
    assert_eq!(state.screen, Screen::List);
    assert!(state.pending_action().is_none());
}

#[test]
fn u_on_a_foreign_gist_is_blocked() {
    let mut s = ListScreen::new();
    let sel = selection(Some("/tmp/a"), Some(("a", "a")), false);
    assert_eq!(
        list_route_key(&mut s, &sel, Key::Char('u'), 1, 1),
        ListKeyOutcome::ForeignBlocked { gist_id: "a".into() }
    );
}

#[test]
fn e_edits_local_with_file_selected() {
    let mut s = ListScreen::new();
    let sel = selection(Some("/tmp/config"), None, false);
    assert!(matches!(
        list_route_key(&mut s, &sel, Key::Char('e'), 1, 0),
        ListKeyOutcome::EditLocal { .. }
    ));
}

#[test]
fn e_without_local_is_noop() {
    let mut s = ListScreen::new();
    let sel = selection(None, None, false);
    let (out, state) = list_key_applied(&mut s, &sel, Key::Char('e'), 0, 0);
    assert_eq!(out, ListKeyOutcome::Nothing);
    assert_eq!(state.screen, Screen::List);
    assert!(state.pending_action().is_none());
}

#[test]
fn list_screen_capital_s_syncs_selected_pair() {
    let mut s = ListScreen::new();
    let sel = selection(Some("a.txt"), Some(("g1", "a.txt")), true);
    assert_eq!(
        list_route_key(&mut s, &sel, Key::Char('S'), 1, 1),
        ListKeyOutcome::SyncSelectedPair {
            local_path: "a.txt".into(),
            gist_id: "g1".into(),
            filename: "a.txt".into()
        }
    );
}

#[test]
fn g_opens_gist_view() {
    let mut s = ListScreen::new();
    let sel = selection(None, Some(("b", "ssh_config")), true);
    let out = list_route_key(&mut s, &sel, Key::Char('g'), 0, 2);
    assert_eq!(out, ListKeyOutcome::OpenGistManager);
    let mut state = initial_state();
    apply_list_outcome(&mut state, out);
    assert_eq!(state.screen, Screen::Gists(GistsState::new()));
}

#[test]
fn d_without_gists_is_noop() {
    let mut s = ListScreen::new();
    s.focus = FocusPane::Gist;
    let sel = selection(Some("/tmp/x"), None, false);
    let (out, state) = list_key_applied(&mut s, &sel, Key::Char('d'), 1, 0);
    assert_eq!(out, ListKeyOutcome::Nothing);
    assert_eq!(state.screen, Screen::List);
    assert!(state.pending_action().is_none());
}

#[test]
fn enter_without_gists_is_noop() {
    let mut s = ListScreen::new();
    s.focus = FocusPane::Gist;
    let sel = selection(Some("/tmp/x"), None, false);
    let (out, state) = list_key_applied(&mut s, &sel, Key::Enter, 1, 0);
    assert_eq!(out, ListKeyOutcome::Nothing);
    assert_eq!(state.screen, Screen::List);
    assert!(state.pending_action().is_none());
}

#[test]
fn enter_with_no_gists_is_noop_in_local_focus() {
    let mut s = ListScreen::new();
    let sel = selection(Some("/tmp/x"), None, false);
    let (out, state) = list_key_applied(&mut s, &sel, Key::Enter, 1, 0);
    assert_eq!(out, ListKeyOutcome::Nothing);
    assert_eq!(state.screen, Screen::List);
    assert!(state.pending_action().is_none());
}

#[test]
fn x_on_a_gists_only_file_is_blocked() {
    let mut s = ListScreen::new();
    s.focus = FocusPane::Gist;
    let sel = selection(None, Some(("abc123", "notes.md")), true);
    // Removing the only file would leave a fileless gist, which GitHub forbids.
    let (out, state) = list_key_applied(&mut s, &sel, Key::Char('X'), 0, 1);
    assert_eq!(out, ListKeyOutcome::Nothing);
    assert_eq!(state.screen, Screen::List);
    assert!(state.pending_action().is_none());
    assert!(s.status.as_deref().unwrap().contains("only file"));
}

#[test]
fn n_without_local_is_noop() {
    let mut s = ListScreen::new();
    let sel = selection(None, None, false);
    let (out, state) = list_key_applied(&mut s, &sel, Key::Char('n'), 0, 0);
    assert_eq!(out, ListKeyOutcome::Nothing);
    assert_eq!(state.screen, Screen::List);
    assert!(state.pending_action().is_none());
}

#[test]
fn x_without_gist_is_noop() {
    let mut s = ListScreen::new();
    s.focus = FocusPane::Gist;
    let sel = selection(None, None, false);
    let (out, state) = list_key_applied(&mut s, &sel, Key::Char('X'), 0, 0);
    assert_eq!(out, ListKeyOutcome::Nothing);
    assert_eq!(state.screen, Screen::List);
    assert!(state.pending_action().is_none());
}

#[test]
fn g_with_no_gists_is_blocked() {
    let mut s = ListScreen::new();
    let sel = selection(None, None, false);
    let (out, state) = list_key_applied(&mut s, &sel, Key::Char('g'), 0, 0);
    assert_eq!(out, ListKeyOutcome::Nothing);
    assert_eq!(state.screen, Screen::List);
    assert!(state.pending_action().is_none());
}

#[test]
fn detail_leave_and_help_apply_to_the_state() {
    let mut state = initial_state();
    state.nav_stack.push(Screen::Gists(GistsState::new()));
    state.screen = detail_screen("g1");
    apply_detail_action(&mut state, DetailAction::OpenHelp);
    assert!(matches!(state.screen, Screen::Help(h) if h.topic == HelpTopic::GistDetail));
    state.leave();
    apply_detail_action(&mut state, DetailAction::Leave);
    assert_eq!(state.screen, Screen::Gists(GistsState::new()));
}

#[test]
fn lookup_answers_for_every_variant() {
    let confirm = ConfirmState { action: PendingAction::Download, body: ScrollBody::default() };
    let palette = PaletteState {
        mode: PaletteMode::Command,
        query: TextInput::from(""),
        selected: 0,
        anchor: None,
    };
    let diff = DiffState {
        body: ScrollBody::default(),
        remote_content: "remote".into(),
        local_path: "/tmp/a.txt".into(),
        download_target: "/tmp/a.txt".into(),
        identical: false,
        gist_id: Some("g1".into()),
        gist_filename: Some("a.txt".into()),
    };
    let cases: Vec<(&str, Screen, HelpTopic)> = vec![
        ("List", Screen::List, HelpTopic::List),
        ("Pins", Screen::Pins(PinsState::new()), HelpTopic::Pins),
        ("Gists", Screen::Gists(GistsState::new()), HelpTopic::GistManager),
        ("GistDetail", Screen::GistDetail(DetailState::default()), HelpTopic::GistDetail),
        ("Revisions", Screen::Revisions(RevisionState::default()), HelpTopic::Revisions),
        ("Diff", Screen::Diff(diff), HelpTopic::List),
        ("Preview", preview_screen(), HelpTopic::List),
        ("Help", Screen::Help(HelpState::new()), HelpTopic::List),
        ("Config", config_screen(), HelpTopic::Config),
        ("Confirm", Screen::Confirm(confirm), HelpTopic::List),
        ("Palette", Screen::Palette(palette), HelpTopic::List),
    ];
    for (name, screen, topic) in cases {
        assert_eq!(help_topic_for(&screen), topic, "{name} help topic");
    }
}
