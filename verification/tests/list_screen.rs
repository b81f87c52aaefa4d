use gistui::diff_screen::display_path;
use gistui::domain::{GistFile, GistView, MatchMark, RankedGistFile};
use gistui::keys::{Key, NavAction};
use gistui::list_keys::{
    apply_navigation_list, click_select_list, drag_split_divider, grab_split_divider, handle_key_filter,
    handle_key_list,
    join, list_guard, parent_of, reset_split_divider, wheel_list, FocusPane, GistTypeFilter,
    ListKeyOutcome, ListScreen, ListSelection, PaneSort, SelectedGist,
};
use gistui::list_split::DEFAULT_SPLIT_PERCENT;
use gistui::list_view::{build_list_vm, GistRowIn, ListData, ListFooterVm, LocalRowIn};
use gistui::chrome::{Rect, TextInput};
use gistui::detail_keys::PaneHit;
use gistui::confirm::PendingAction;
use gistui::outcomes::apply_list_outcome;
use gistui::state::{initial_state, ListCursor, Screen};
use gistui::view_model::{ListPaneEmpty, RowEmphasis};

fn data() -> ListData {
    ListData {
        local_total: 0,
        local_scanning: false,
        loading: false,
        spinner_frame: 0,
        owned_total: 0,
        cwd_display: "/cwd".into(),
        footer_hints: "q quit".into(),
    }
}

fn local(label: &str) -> LocalRowIn {
    LocalRowIn {
        label: label.into(),
        mark: MatchMark::NoMatch,
    }
}

fn gist_row(gist_id: &str, filename: &str, description: &str) -> GistRowIn {
    let mut file = GistFile::fixture(gist_id, filename);
    file.description = description.into();
    GistRowIn {
        file: RankedGistFile {
            file,
            mark: MatchMark::NoMatch,
        },
        starred: false,
    }
}

fn no_selection() -> ListSelection {
    ListSelection {
        local: None,
        gist: None,
        owned: false,
        pinned_pair: false,
        gist_holds_local_name: false,
        file_count: 0,
        has_owned_gists: false,
        text_previewable: false,
        diff_previewable: false,
        context_gist_id: None,
        cwd: "/cwd".into(),
    }
}

fn pair_selection() -> ListSelection {
    ListSelection {
        local: Some("/cwd/sub/settings.json".into()),
        gist: Some(SelectedGist {
            gist_id: "a".into(),
            filename: "settings.json".into(),
            description: "Zed".into(),
            raw_url: None,
        }),
        owned: true,
        pinned_pair: false,
        gist_holds_local_name: false,
        file_count: 2,
        has_owned_gists: true,
        text_previewable: true,
        diff_previewable: true,
        context_gist_id: Some("a".into()),
        cwd: "/cwd".into(),
    }
}

#[test]
fn anchor_defaults_to_local() {
    assert_eq!(ListScreen::new().anchor, FocusPane::Local);
}

#[test]
fn local_title_puts_the_cwd_in_the_shrinkable_context() {
    let mut s = ListScreen::new();
    s.local_filter_query = TextInput::from("md");
    s.anchor = FocusPane::Local;
    let cwd = display_path("/cwd/some-org/some-project", None);
    let d = ListData {
        local_total: 2,
        cwd_display: cwd.clone(),
        ..data()
    };
    let title = build_list_vm(&s, &d, &[local("notes.md")], &[]).local.title;
    assert_eq!(
        title.segments,
        vec![
            "[1] Local (1/2) ⚑".to_string(),
            "sort:match".to_string(),
            "/md".to_string(),
        ]
    );
    assert_eq!(title.context.as_deref(), Some(cwd.as_str()));
    assert_eq!(title.short_head.as_deref(), Some("[1] (1/2) ⚑"));
}

#[test]
fn anchor_key_puts_the_marker_in_the_title_head() {
    let mut s = ListScreen::new();
    s.anchor = FocusPane::Gist;
    let d = ListData {
        local_total: 1,
        ..data()
    };
    let before = build_list_vm(&s, &d, &[local("a.md")], &[]).local.title;
    handle_key_list(&mut s, &no_selection(), Key::Char('a'));
    let after = build_list_vm(&s, &d, &[local("a.md")], &[]).local.title;
    assert_eq!(s.anchor, FocusPane::Local);
    assert!(!before.segments[0].contains('⚑'));
    assert!(after.segments[0].contains('⚑'));
}

#[test]
fn gist_title_segments_follow_the_same_order() {
    let mut s = ListScreen::new();
    s.filter_query = TextInput::from("a");
    s.anchor = FocusPane::Gist;
    let d = ListData {
        owned_total: 2,
        ..data()
    };
    let title = build_list_vm(&s, &d, &[], &[gist_row("g1", "a.txt", "demo")]).gist.title;
    assert_eq!(
        title.segments,
        vec![
            "[2] Gists (1/2) ⚑".to_string(),
            "all".to_string(),
            "match".to_string(),
            "/a".to_string(),
        ]
    );
    assert_eq!(title.context, None);
}

#[test]
fn list_vm_carries_the_split_and_its_drag_state() {
    let mut s = ListScreen::new();
    s.split_percent = 55;
    let d = ListData {
        local_total: 1,
        ..data()
    };
    let vm = build_list_vm(&s, &d, &[local("a.rs")], &[]);
    assert_eq!(vm.split_percent, 55);
    assert!(!vm.split_dragging);
    assert!(grab_split_divider(&mut s, true, 100));
    assert!(build_list_vm(&s, &d, &[local("a.rs")], &[]).split_dragging);
}

#[test]
fn list_vm_empty_local_and_gist_messages() {
    let s = ListScreen::new();
    let list = build_list_vm(&s, &data(), &[], &[]);
    assert_eq!(list.local.empty, ListPaneEmpty::NoItems);
    assert!(list
        .local
        .empty_message
        .as_deref()
        .unwrap_or("")
        .contains("No local files"));
    assert_eq!(list.gist.empty, ListPaneEmpty::NoItems);
    assert!(list
        .gist
        .empty_message
        .as_deref()
        .unwrap_or("")
        .contains("No gists found"));
    assert!(matches!(list.footer, ListFooterVm::Hints { .. }));
}

#[test]
fn list_vm_empty_states_while_loading_and_filtered() {
    let mut s = ListScreen::new();
    let d = ListData {
        local_scanning: true,
        loading: true,
        spinner_frame: 1,
        ..data()
    };
    let list = build_list_vm(&s, &d, &[], &[]);
    assert_eq!(list.local.empty, ListPaneEmpty::Loading);
    assert_eq!(list.local.empty_message.as_deref(), Some("  ⠙ Scanning files…"));
    assert_eq!(list.gist.empty_message.as_deref(), Some("  ⠙ Loading gists…"));
    assert_eq!(list.local.selected, None);

    s.filter_query = TextInput::from("zz");
    let d = ListData {
        local_total: 3,
        owned_total: 3,
        ..data()
    };
    let list = build_list_vm(&s, &d, &[], &[]);
    assert_eq!(list.local.empty, ListPaneEmpty::NoFilterMatch);
    assert_eq!(list.local.empty_message.as_deref(), Some("  No files match the filter"));
    assert_eq!(list.gist.empty, ListPaneEmpty::NoFilterMatch);
    assert_eq!(list.gist.empty_message.as_deref(), Some("  No gists match the filter"));
}

#[test]
fn list_vm_rows_include_pin_mark_and_star() {
    let mut s = ListScreen::new();
    s.focus = FocusPane::Local;
    let d = ListData {
        local_total: 1,
        owned_total: 1,
        ..data()
    };
    let locals = [LocalRowIn {
        label: "notes.txt".into(),
        mark: MatchMark::Pinned,
    }];
    let mut g = gist_row("g1", "notes.txt", "demo notes");
    g.starred = true;
    g.file.mark = MatchMark::ExactFilename;
    let list = build_list_vm(&s, &d, &locals, &[g]);
    assert_eq!(list.local.empty, ListPaneEmpty::HasRows);
    assert_eq!(list.gist.empty, ListPaneEmpty::HasRows);
    assert_eq!(list.local.rows[0].label, "↔ notes.txt");
    assert_eq!(list.gist.rows[0].label, "★ notes.txt — demo notes");
    assert_eq!(list.gist.rows[0].emphasis, RowEmphasis::Strong);
    assert_eq!(list.local.rows[0].emphasis, RowEmphasis::Plain);
    assert_eq!(list.local.selected, Some(0));
    assert!(list.local.focused);
    assert!(!list.gist.focused);
}

#[test]
fn list_vm_status_footer_and_filter_mode() {
    let mut s = ListScreen::new();
    s.status = Some("Downloaded a.txt".into());
    let list = build_list_vm(&s, &data(), &[], &[]);
    match list.footer {
        ListFooterVm::Status { text } => assert!(text.contains("Downloaded")),
        _ => panic!("expected Status footer"),
    }

    s.status = None;
    s.filtering = true;
    s.focus = FocusPane::Gist;
    s.filter_query = TextInput::from("ssh");
    let list = build_list_vm(&s, &data(), &[], &[]);
    match list.footer {
        ListFooterVm::Filtering { focus, query } => {
            assert_eq!(focus, FocusPane::Gist);
            assert_eq!(query.text(), "ssh");
        }
        _ => panic!("expected Filtering footer"),
    }
}

#[test]
fn scroll_down_moves_focused_list_by_one() {
    let mut s = ListScreen::new();
    s.focus = FocusPane::Local;
    s.local_cursor.index = 0;
    wheel_list(&mut s, true, 3, 0);
    assert_eq!(s.local_cursor.index, 1);
    assert_eq!(s.focus, FocusPane::Local);
}

#[test]
fn scroll_up_moves_focused_list_by_one() {
    let mut s = ListScreen::new();
    s.focus = FocusPane::Local;
    s.local_cursor.index = 2;
    wheel_list(&mut s, false, 3, 0);
    assert_eq!(s.local_cursor.index, 1);
    assert_eq!(s.focus, FocusPane::Local);
}

#[test]
fn scroll_down_clamps_at_list_end() {
    let mut s = ListScreen::new();
    s.focus = FocusPane::Local;
    wheel_list(&mut s, true, 1, 0);
    assert_eq!(s.local_cursor.index, 0);
}

#[test]
fn list_page_keys_jump_local_selection() {
    let mut s = ListScreen::new();
    s.focus = FocusPane::Local;
    apply_navigation_list(&mut s, NavAction::PageDown, 15, 0, 0);
    assert_eq!(s.local_cursor.index, 10);
    apply_navigation_list(&mut s, NavAction::PageDown, 15, 0, 0);
    assert_eq!(s.local_cursor.index, 14);
    apply_navigation_list(&mut s, NavAction::PageUp, 15, 0, 0);
    assert_eq!(s.local_cursor.index, 4);
}

#[test]
fn moving_driver_pane_resets_ranked_pane() {
    let mut s = ListScreen::new();
    s.anchor = FocusPane::Local;
    s.focus = FocusPane::Local;
    s.gist_cursor.index = 1;
    apply_navigation_list(&mut s, NavAction::Down, 2, 2, 0);
    assert_eq!(s.local_cursor.index, 1);
    assert_eq!(s.gist_cursor.index, 0);
}

#[test]
fn moving_ranked_pane_does_not_reset_driver() {
    let mut s = ListScreen::new();
    s.anchor = FocusPane::Local;
    s.local_cursor.index = 1;
    s.focus = FocusPane::Gist;
    apply_navigation_list(&mut s, NavAction::Down, 2, 2, 0);
    assert_eq!(s.gist_cursor.index, 1);
    assert_eq!(s.local_cursor.index, 1);
}

#[test]
fn left_right_scrolls_focused_gist_pane() {
    let mut s = ListScreen::new();
    s.focus = FocusPane::Gist;
    apply_navigation_list(&mut s, NavAction::Left, 0, 1, 30);
    assert_eq!(s.gist_cursor.hscroll, 0);
    apply_navigation_list(&mut s, NavAction::Right, 0, 1, 30);
    apply_navigation_list(&mut s, NavAction::Right, 0, 1, 30);
    assert_eq!(s.gist_cursor.hscroll, 2);
    apply_navigation_list(&mut s, NavAction::Left, 0, 1, 30);
    assert_eq!(s.gist_cursor.hscroll, 1);
    for _ in 0..100 {
        apply_navigation_list(&mut s, NavAction::Right, 0, 1, 30);
    }
    assert_eq!(s.gist_cursor.hscroll, 30);
}

#[test]
fn moving_gist_selection_resets_hscroll() {
    let mut s = ListScreen::new();
    s.focus = FocusPane::Gist;
    apply_navigation_list(&mut s, NavAction::Right, 0, 2, 20);
    assert_eq!(s.gist_cursor, ListCursor { index: 0, hscroll: 1 });
    apply_navigation_list(&mut s, NavAction::Down, 0, 2, 20);
    assert_eq!(s.gist_cursor, ListCursor { index: 1, hscroll: 0 });
}

#[test]
fn tab_switches_focus() {
    let mut s = ListScreen::new();
    assert_eq!(s.focus, FocusPane::Local);
    handle_key_list(&mut s, &no_selection(), Key::Tab);
    assert_eq!(s.focus, FocusPane::Gist);
}

#[test]
fn digit_keys_jump_to_a_pane() {
    let mut s = ListScreen::new();
    handle_key_list(&mut s, &no_selection(), Key::Char('2'));
    assert_eq!(s.focus, FocusPane::Gist);
    handle_key_list(&mut s, &no_selection(), Key::Char('1'));
    assert_eq!(s.focus, FocusPane::Local);
}

#[test]
fn t_toggles_gist_view() {
    let mut s = ListScreen::new();
    assert_eq!(s.gist_view, GistView::Description);
    handle_key_list(&mut s, &no_selection(), Key::Char('t'));
    assert_eq!(s.gist_view, GistView::Id);
    handle_key_list(&mut s, &no_selection(), Key::Char('t'));
    assert_eq!(s.gist_view, GistView::Description);
}

#[test]
fn v_cycles_gist_type_filter() {
    let mut s = ListScreen::new();
    assert_eq!(s.gist_type_filter, GistTypeFilter::All);
    handle_key_list(&mut s, &no_selection(), Key::Char('v'));
    assert_eq!(s.gist_type_filter, GistTypeFilter::Public);
    handle_key_list(&mut s, &no_selection(), Key::Char('v'));
    assert_eq!(s.gist_type_filter, GistTypeFilter::Secret);
    handle_key_list(&mut s, &no_selection(), Key::Char('v'));
    assert_eq!(s.gist_type_filter, GistTypeFilter::Starred);
    handle_key_list(&mut s, &no_selection(), Key::Char('v'));
    assert_eq!(s.gist_type_filter, GistTypeFilter::Forked);
    handle_key_list(&mut s, &no_selection(), Key::Char('v'));
    assert_eq!(s.gist_type_filter, GistTypeFilter::All);
}

#[test]
fn s_cycles_gist_sort_when_gist_pane_focused() {
    let mut s = ListScreen::new();
    s.focus = FocusPane::Gist;
    assert_eq!(s.gist_sort, PaneSort::Match);
    handle_key_list(&mut s, &no_selection(), Key::Char('s'));
    assert_eq!(s.gist_sort, PaneSort::Name);
    handle_key_list(&mut s, &no_selection(), Key::Char('s'));
    assert_eq!(s.gist_sort, PaneSort::Recent);
    handle_key_list(&mut s, &no_selection(), Key::Char('s'));
    assert_eq!(s.gist_sort, PaneSort::Match);
    assert_eq!(s.local_sort, PaneSort::Match);
}

#[test]
fn a_key_toggles_anchor_and_resets_ranked_pane() {
    let mut s = ListScreen::new();
    assert_eq!(s.anchor, FocusPane::Local);
    s.local_cursor = ListCursor { index: 1, hscroll: 3 };
    handle_key_list(&mut s, &no_selection(), Key::Char('a'));
    assert_eq!(s.anchor, FocusPane::Gist);
    assert_eq!(s.local_cursor, ListCursor::default());
}

#[test]
fn a_key_toggle_reverse_direction_resets_gist() {
    let mut s = ListScreen::new();
    s.anchor = FocusPane::Gist;
    s.gist_cursor = ListCursor { index: 1, hscroll: 4 };
    handle_key_list(&mut s, &no_selection(), Key::Char('a'));
    assert_eq!(s.anchor, FocusPane::Local);
    assert_eq!(s.gist_cursor, ListCursor::default());
}

#[test]
fn quit_takes_two_presses() {
    let mut s = ListScreen::new();
    assert_eq!(
        handle_key_list(&mut s, &no_selection(), Key::Char('q')),
        ListKeyOutcome::Nothing
    );
    assert_eq!(
        s.status.as_deref(),
        Some("Press q or Esc again to quit (any other key cancels)")
    );
    assert_eq!(
        handle_key_list(&mut s, &no_selection(), Key::Esc),
        ListKeyOutcome::Quit
    );
}

#[test]
fn another_key_cancels_a_pending_quit() {
    let mut s = ListScreen::new();
    handle_key_list(&mut s, &no_selection(), Key::Char('q'));
    handle_key_list(&mut s, &no_selection(), Key::Tab);
    assert!(!s.quit_armed);
    assert_eq!(s.status, None);
    assert_eq!(
        handle_key_list(&mut s, &no_selection(), Key::Char('q')),
        ListKeyOutcome::Nothing
    );
}

#[test]
fn slash_enters_filter_mode_and_r_rescans() {
    let mut s = ListScreen::new();
    handle_key_list(&mut s, &no_selection(), Key::Char('/'));
    assert!(s.filtering);
    s.local_cursor.index = 3;
    assert_eq!(
        handle_key_list(&mut s, &no_selection(), Key::Char('r')),
        ListKeyOutcome::RefreshLocals
    );
    assert!(s.local_recursive);
    assert_eq!(s.local_cursor.index, 0);
}

#[test]
fn keys_without_a_selection_say_what_is_missing() {
    let mut s = ListScreen::new();
    let cases = [
        ('H', "select a gist file to view revision history"),
        ('e', "select a local file to edit"),
        ('p', "select a local file and a gist to pin"),
        ('X', "select a gist file to remove"),
        ('n', "select a local file to create a gist"),
    ];
    for (c, message) in cases {
        assert_eq!(
            handle_key_list(&mut s, &no_selection(), Key::Char(c)),
            ListKeyOutcome::Nothing
        );
        assert_eq!(s.status.as_deref(), Some(message));
    }
}

#[test]
fn enter_with_nested_local_targets_its_directory() {
    let mut s = ListScreen::new();
    s.focus = FocusPane::Local;
    let out = handle_key_list(&mut s, &pair_selection(), Key::Enter);
    if let ListKeyOutcome::PreviewDiff { local_path, target, .. } = &out {
        assert_eq!(local_path.as_deref(), Some("/cwd/sub/settings.json"));
        assert_eq!(target, "/cwd/sub/settings.json");
    }
    assert_eq!(
        out,
        ListKeyOutcome::PreviewDiff {
            local_path: Some("/cwd/sub/settings.json".into()),
            gist_id: "a".into(),
            filename: "settings.json".into(),
            raw_url: None,
            target: "/cwd/sub/settings.json".into(),
            upload_orientation: true,
        }
    );
}

#[test]
fn enter_with_no_local_but_gist_selected_returns_preview() {
    let mut s = ListScreen::new();
    s.focus = FocusPane::Gist;
    let sel = ListSelection {
        local: None,
        ..pair_selection()
    };
    assert!(sel.local.is_none());
    assert_eq!(
        handle_key_list(&mut s, &sel, Key::Enter),
        ListKeyOutcome::PreviewDiff {
            local_path: None,
            gist_id: "a".into(),
            filename: "settings.json".into(),
            raw_url: None,
            target: "/cwd/settings.json".into(),
            upload_orientation: false,
        }
    );
}

#[test]
fn enter_blocks_diff_for_image_gist_file() {
    let mut s = ListScreen::new();
    let sel = ListSelection {
        diff_previewable: false,
        ..pair_selection()
    };
    let out = handle_key_list(&mut s, &sel, Key::Enter);
    assert!(matches!(out, ListKeyOutcome::DiffBlocked { .. }));
    // The reason is reported by the loop; the screen does not move.
    let mut state = initial_state();
    apply_list_outcome(&mut state, out);
    assert_eq!(state.screen, Screen::List);
}

#[test]
fn space_on_selected_gist_returns_preview_content() {
    let mut s = ListScreen::new();
    assert_eq!(
        handle_key_list(&mut s, &pair_selection(), Key::Char(' ')),
        ListKeyOutcome::PreviewContent {
            gist_id: "a".into(),
            filename: "settings.json".into(),
            raw_url: None,
        }
    );
    let sel = ListSelection {
        text_previewable: false,
        ..pair_selection()
    };
    assert!(matches!(
        handle_key_list(&mut s, &sel, Key::Char(' ')),
        ListKeyOutcome::PreviewBlocked { .. }
    ));
}

#[test]
fn d_in_gist_focus_returns_download_gist() {
    let mut s = ListScreen::new();
    s.focus = FocusPane::Gist;
    assert_eq!(
        handle_key_list(&mut s, &pair_selection(), Key::Char('d')),
        ListKeyOutcome::DownloadGist {
            gist_id: "a".into(),
            filename: "settings.json".into(),
            raw_url: None,
            target: "/cwd/settings.json".into(),
        }
    );
}

#[test]
fn d_in_local_focus_is_noop() {
    let mut s = ListScreen::new();
    s.focus = FocusPane::Local;
    assert_eq!(
        handle_key_list(&mut s, &pair_selection(), Key::Char('d')),
        ListKeyOutcome::Nothing
    );
}

#[test]
fn p_pins_unpinned_pair_then_unpins() {
    let mut s = ListScreen::new();
    assert!(matches!(
        handle_key_list(&mut s, &pair_selection(), Key::Char('p')),
        ListKeyOutcome::Pin { .. }
    ));
    let pinned = ListSelection {
        pinned_pair: true,
        gist_holds_local_name: false,
        ..pair_selection()
    };
    assert!(matches!(
        handle_key_list(&mut s, &pinned, Key::Char('p')),
        ListKeyOutcome::Unpin { .. }
    ));
}

#[test]
fn foreign_gist_blocks_pin() {
    let mut s = ListScreen::new();
    let sel = ListSelection {
        owned: false,
        ..pair_selection()
    };
    let out = handle_key_list(&mut s, &sel, Key::Char('p'));
    assert_eq!(out, ListKeyOutcome::ForeignBlocked { gist_id: "a".into() });
    // Nothing is pinned and the screen does not move; the loop says why.
    let mut state = initial_state();
    apply_list_outcome(&mut state, out);
    assert_eq!(state.screen, Screen::List);
}

#[test]
fn x_removes_selected_file_from_a_multifile_gist() {
    let mut s = ListScreen::new();
    assert_eq!(
        handle_key_list(&mut s, &pair_selection(), Key::Char('X')),
        ListKeyOutcome::ConfirmRemoveFile {
            gist_id: "a".into(),
            filename: "settings.json".into(),
            label: "Zed".into(),
            text: "Remove file \"settings.json\" from gist a (Zed).\n\nThe other files in this gist are kept. This cannot be undone.".into(),
        }
    );
    let single = ListSelection {
        file_count: 1,
        ..pair_selection()
    };
    assert_eq!(
        handle_key_list(&mut s, &single, Key::Char('X')),
        ListKeyOutcome::Nothing
    );
    assert_eq!(
        s.status.as_deref(),
        Some("settings.json is the gist's only file — use g then X to delete the gist")
    );
}

#[test]
fn n_opens_create_confirm() {
    let mut s = ListScreen::new();
    let out = handle_key_list(&mut s, &pair_selection(), Key::Char('n'));
    assert_eq!(
        out,
        ListKeyOutcome::ConfirmCreate {
            local_path: "/cwd/sub/settings.json".into(),
            text: "Create a new gist from /cwd/sub/settings.json.\n\nType an optional description, then choose visibility.".into(),
        }
    );
    let mut state = initial_state();
    apply_list_outcome(&mut state, out);
    assert!(state.is_confirm());
    assert_eq!(
        state.pending_action().cloned(),
        Some(PendingAction::Create { local_path: "/cwd/sub/settings.json".into() })
    );
}

#[test]
fn guard_matches_what_the_keys_do() {
    let sel = pair_selection();
    assert!(list_guard(&sel, FocusPane::Gist, Key::Char('d')));
    assert!(!list_guard(&sel, FocusPane::Local, Key::Char('d')));
    assert!(list_guard(&sel, FocusPane::Local, Key::Char('X')));
    assert!(!list_guard(&no_selection(), FocusPane::Local, Key::Char('g')));
    assert!(!list_guard(&sel, FocusPane::Local, Key::Char('z')));
}

#[test]
fn list_click_selects_and_focuses_gist_pane() {
    let mut s = ListScreen::new();
    s.local_cursor.index = 2;
    assert!(click_select_list(&mut s, FocusPane::Gist, Some(1)));
    assert_eq!(s.focus, FocusPane::Gist);
    assert_eq!(s.gist_cursor.index, 1);
    assert_eq!(s.local_cursor.index, 2);
}

#[test]
fn click_in_pane_blank_focuses_without_selecting() {
    let mut s = ListScreen::new();
    s.focus = FocusPane::Gist;
    assert!(!click_select_list(&mut s, FocusPane::Local, None));
    assert_eq!(s.focus, FocusPane::Local);
    assert_eq!(s.local_cursor.index, 0);
}

#[test]
fn divider_drag_and_reset() {
    let mut s = ListScreen::new();
    let area = Rect {
        x: 0,
        y: 0,
        width: 100,
        height: 20,
    };
    drag_split_divider(&mut s, 59, area);
    assert_eq!(s.split_percent, DEFAULT_SPLIT_PERCENT);
    assert!(grab_split_divider(&mut s, true, 100));
    drag_split_divider(&mut s, 59, area);
    assert_eq!(s.split_percent, 60);
    assert!(reset_split_divider(&mut s, true, 100));
    assert_eq!(s.split_percent, DEFAULT_SPLIT_PERCENT);
    assert!(!s.split_dragging);
}

#[test]
fn paths_split_and_join() {
    assert_eq!(parent_of("/cwd/sub/a.txt").as_deref(), Some("/cwd/sub"));
    assert_eq!(parent_of("/a.txt").as_deref(), Some("/"));
    assert_eq!(parent_of("a.txt").as_deref(), Some(""));
    assert_eq!(parent_of("/"), None);
    assert_eq!(join("/cwd", "a.txt"), "/cwd/a.txt");
    assert_eq!(join("/", "a.txt"), "/a.txt");
    assert_eq!(join("", "a.txt"), "a.txt");
}

fn filtering(focus: FocusPane) -> ListScreen {
    let mut s = ListScreen::new();
    s.focus = focus;
    s.filtering = true;
    s
}

#[test]
fn list_filter_routes_chars_to_focused_pane() {
    let mut s = filtering(FocusPane::Local);
    handle_key_filter(&mut s, Key::Char('j'), 2, 0);
    handle_key_filter(&mut s, Key::Char('s'), 2, 0);
    assert_eq!(s.local_filter_query.text(), "js");
    assert_eq!(s.filter_query.text(), "");
}

#[test]
fn list_filter_focus_gist_routes_to_gist_query() {
    let mut s = filtering(FocusPane::Gist);
    handle_key_filter(&mut s, Key::Char('x'), 1, 0);
    assert_eq!(s.filter_query.text(), "x");
    assert_eq!(s.local_filter_query.text(), "");
}

#[test]
fn list_filter_navigates_while_typing() {
    let mut s = filtering(FocusPane::Local);
    handle_key_filter(&mut s, Key::Down, 3, 0);
    assert_eq!(s.local_cursor.index, 1);
    assert!(s.filtering);
    handle_key_filter(&mut s, Key::Up, 3, 0);
    assert_eq!(s.local_cursor.index, 0);
}

#[test]
fn list_filter_empty_backspace_exits() {
    let mut s = filtering(FocusPane::Local);
    handle_key_filter(&mut s, Key::Char('a'), 1, 0);
    handle_key_filter(&mut s, Key::Backspace, 1, 0);
    assert!(s.filtering);
    assert_eq!(s.local_filter_query.text(), "");
    handle_key_filter(&mut s, Key::Backspace, 1, 0);
    assert!(!s.filtering);
}

#[test]
fn list_filter_tab_commits_and_switches_pane() {
    let mut s = filtering(FocusPane::Local);
    handle_key_filter(&mut s, Key::Char('j'), 1, 0);
    handle_key_filter(&mut s, Key::Tab, 1, 0);
    assert!(!s.filtering);
    assert_eq!(s.local_filter_query.text(), "j");
    assert_eq!(s.focus, FocusPane::Gist);
}

#[test]
fn list_filter_esc_clears_focused_query() {
    let mut s = filtering(FocusPane::Local);
    handle_key_filter(&mut s, Key::Char('j'), 1, 0);
    handle_key_filter(&mut s, Key::Esc, 1, 0);
    assert!(!s.filtering);
    assert_eq!(s.local_filter_query.text(), "");
}

#[test]
fn list_filter_char_resets_focused_index() {
    let mut s = filtering(FocusPane::Local);
    s.local_cursor.index = 2;
    handle_key_filter(&mut s, Key::Char('a'), 3, 0);
    assert_eq!(s.local_cursor.index, 0);
}

#[test]
fn list_filter_enter_keeps_query_and_exits() {
    let mut s = filtering(FocusPane::Local);
    handle_key_filter(&mut s, Key::Char('j'), 1, 0);
    handle_key_filter(&mut s, Key::Enter, 1, 0);
    assert!(!s.filtering);
    assert_eq!(s.local_filter_query.text(), "j");
}

#[test]
fn list_click_selects_and_focuses_local_pane() {
    let mut s = ListScreen::new();
    s.focus = FocusPane::Gist;
    s.local_cursor.hscroll = 5;
    let hit = PaneHit { rect: Rect { x: 0, y: 0, width: 20, height: 10 }, offset: 0 };
    // Row 1 is the first content row (the border is row 0).
    let index = hit.index_at(1, 3);
    assert_eq!(index, Some(0));
    click_select_list(&mut s, FocusPane::Local, index);
    assert_eq!(s.focus, FocusPane::Local);
    // A click is a selection: it clears the offset that belonged to the old row.
    assert_eq!(s.local_cursor, ListCursor::default());
}

#[test]
fn list_double_click_opens_diff() {
    let mut s = ListScreen::new();
    let hit = PaneHit { rect: Rect { x: 20, y: 0, width: 20, height: 10 }, offset: 0 };
    // Row 1 is the first gist; a double click selects it and acts as Enter.
    let index = hit.index_at(1, 2);
    click_select_list(&mut s, FocusPane::Gist, index);
    assert_eq!(s.focus, FocusPane::Gist);
    assert_eq!(s.gist_cursor.index, 0);
    let out = handle_key_list(&mut s, &pair_selection(), Key::Enter);
    assert!(matches!(out, ListKeyOutcome::PreviewDiff { .. }));
}
