use gistui::domain::{GistGroup, GistGroupSort};
use gistui::gists_screen::{
    apply_navigation_gists, build_gists_vm, click_select_gists, context_gist_id, gists_guard,
    handle_key_gists, listed_group_indices, GistGroupRow, GistsKeyOutcome, GistsState,
};
use gistui::keys::{Key, NavAction};
use gistui::list_keys::GistTypeFilter;
use gistui::text::str_lt;
use gistui::chrome::Rect;
use gistui::detail_keys::PaneHit;
use gistui::outcomes::apply_gists_outcome;
use gistui::state::{initial_state, Screen};
use gistui::view_model::ListPaneEmpty;

fn ids(v: &[&str]) -> Vec<String> {
    v.iter().map(|s| s.to_string()).collect()
}

fn group(id: &str, description: &str) -> GistGroup {
    GistGroup {
        id: id.into(),
        description: description.into(),
        public: true,
        updated_at: "2026-06-10T00:00:00Z".into(),
        created_at: "2026-06-01T00:00:00Z".into(),
        file_count: 1,
        owner_login: "me".into(),
        fork_of_id: None,
    }
}

#[test]
fn enter_on_gist_opens_detail() {
    let mut s = GistsState::new();
    let mut status = None;
    assert_eq!(
        handle_key_gists(&mut s, &mut status, &ids(&["g1"]), Key::Enter),
        GistsKeyOutcome::OpenGistDetail {
            gist_id: "g1".into()
        }
    );
}

#[test]
fn context_gist_id_uses_group_cursor_on_gists_screen() {
    let mut s = GistsState::new();
    s.cursor.index = 1;
    assert_eq!(
        context_gist_id(&s, &ids(&["a", "b"])).as_deref(),
        Some("b")
    );
    s.cursor.index = 2;
    assert_eq!(context_gist_id(&s, &ids(&["a", "b"])), None);
}

#[test]
fn o_in_gist_view_opens_browser() {
    let mut s = GistsState::new();
    let mut status = None;
    let visible = ids(&["a", "b"]);
    assert_eq!(
        handle_key_gists(&mut s, &mut status, &visible, Key::Char('o')),
        GistsKeyOutcome::OpenBrowser {
            gist_id: "a".into()
        }
    );
    assert_eq!(
        handle_key_gists(&mut s, &mut status, &visible, Key::Char('y')),
        GistsKeyOutcome::CopyGistUrl {
            gist_id: "a".into()
        }
    );
    assert_eq!(
        handle_key_gists(&mut s, &mut status, &visible, Key::Char('H')),
        GistsKeyOutcome::OpenRevisions {
            gist_id: "a".into()
        }
    );
}

#[test]
fn keys_without_a_gist_do_nothing() {
    let mut s = GistsState::new();
    let mut status = None;
    assert!(!gists_guard(false, Key::Enter));
    assert_eq!(
        handle_key_gists(&mut s, &mut status, &[], Key::Enter),
        GistsKeyOutcome::Nothing
    );
    assert_eq!(
        handle_key_gists(&mut s, &mut status, &[], Key::Char('*')),
        GistsKeyOutcome::ToggleStar
    );
}

#[test]
fn gist_view_q_returns_to_list() {
    let mut state = initial_state();
    state.screen = Screen::Gists(GistsState::new());
    let mut status = Some("x".to_string());
    let out = match &mut state.screen {
        Screen::Gists(g) => handle_key_gists(g, &mut status, &ids(&["a", "b"]), Key::Char('q')),
        _ => unreachable!(),
    };
    assert_eq!(out, GistsKeyOutcome::Leave);
    assert_eq!(status, None);
    apply_gists_outcome(&mut state, out);
    assert_eq!(state.screen, Screen::List);
}

#[test]
fn gist_view_v_cycles_visibility_filter() {
    // Gist "a" is public, gist "b" is secret; neither is starred or a fork.
    let mut a = group("a", "My Ghostty config");
    a.public = true;
    let mut b = group("b", "SSH config");
    b.public = false;
    let groups = vec![a, b];
    let starred = vec![false, false];
    let listed = |s: &GistsState| -> Vec<String> {
        listed_group_indices(&groups, &starred, s).iter().map(|&i| groups[i].id.clone()).collect()
    };
    let mut s = GistsState::new();
    let mut status = None;
    s.cursor.index = 1;
    assert_eq!(listed(&s).len(), 2);

    handle_key_gists(&mut s, &mut status, &ids(&["a", "b"]), Key::Char('v')); // -> public
    assert_eq!(s.type_filter, GistTypeFilter::Public);
    assert_eq!(s.cursor.index, 0);
    assert_eq!(listed(&s), vec!["a".to_string()]);

    handle_key_gists(&mut s, &mut status, &ids(&["a"]), Key::Char('v')); // -> secret
    assert_eq!(listed(&s), vec!["b".to_string()]);

    handle_key_gists(&mut s, &mut status, &ids(&["b"]), Key::Char('v')); // -> starred (none)
    assert_eq!(listed(&s).len(), 0);

    handle_key_gists(&mut s, &mut status, &[], Key::Char('v')); // -> forked (none here)
    assert_eq!(listed(&s).len(), 0);

    handle_key_gists(&mut s, &mut status, &[], Key::Char('v')); // -> all
    assert_eq!(s.type_filter, GistTypeFilter::All);
    assert_eq!(listed(&s).len(), 2);
}

#[test]
fn listed_gists_follow_stars_forks_and_the_text_filter() {
    let mut a = group("a", "My Ghostty config");
    a.fork_of_id = Some("orig".into());
    let b = group("b", "SSH config");
    let groups = vec![a, b];
    let mut s = GistsState::new();
    s.type_filter = GistTypeFilter::Starred;
    assert_eq!(listed_group_indices(&groups, &[false, true], &s), vec![1]);
    // A shorter star list counts the rest as not starred.
    assert!(listed_group_indices(&groups, &[], &s).is_empty());
    s.type_filter = GistTypeFilter::Forked;
    assert_eq!(listed_group_indices(&groups, &[], &s), vec![0]);
    s.type_filter = GistTypeFilter::All;
    s.filter_query = gistui::chrome::TextInput::from("SSH");
    assert_eq!(listed_group_indices(&groups, &[], &s), vec![1]);
}

#[test]
fn gist_view_s_cycles_sort_updated_then_created() {
    let mut old_upd = group("old-upd", "x");
    old_upd.updated_at = "2026-01-01T00:00:00Z".into();
    old_upd.created_at = "2026-12-01T00:00:00Z".into();
    let mut new_upd = group("new-upd", "y");
    new_upd.updated_at = "2026-06-01T00:00:00Z".into();
    new_upd.created_at = "2026-02-01T00:00:00Z".into();
    let groups = vec![old_upd, new_upd];
    let mut s = GistsState::new();
    let mut status = None;
    // Default: sort by updated (newest first).
    assert_eq!(s.sort, GistGroupSort::Updated);
    assert_eq!(groups[listed_group_indices(&groups, &[], &s)[0]].id, "new-upd");
    // s -> sort by created (newest created first).
    handle_key_gists(&mut s, &mut status, &[], Key::Char('s'));
    assert_eq!(s.sort, GistGroupSort::Created);
    assert_eq!(groups[listed_group_indices(&groups, &[], &s)[0]].id, "old-upd");
    handle_key_gists(&mut s, &mut status, &[], Key::Char('s'));
    assert_eq!(s.sort, GistGroupSort::Updated);
}

#[test]
fn gists_with_the_same_timestamp_keep_catalogue_order() {
    let mut a = group("a", "first");
    a.updated_at = "2026-03-01T00:00:00Z".into();
    let mut b = group("b", "second");
    b.updated_at = "2026-05-01T00:00:00Z".into();
    let mut c = group("c", "third");
    c.updated_at = "2026-03-01T00:00:00Z".into();
    let mut d = group("d", "fourth");
    d.updated_at = "2026-03-01T00:00:00".into(); // a prefix of the others: older
    let groups = vec![a, b, c, d];
    let s = GistsState::new();
    assert_eq!(listed_group_indices(&groups, &[], &s), vec![1, 0, 2, 3]);
}

#[test]
fn gist_view_filter_narrows_then_esc_clears() {
    let mut s = GistsState::new();
    let mut status = None;
    let visible = ids(&["a", "b"]);
    handle_key_gists(&mut s, &mut status, &visible, Key::Char('/'));
    assert!(s.filtering);
    for c in "ssh".chars() {
        handle_key_gists(&mut s, &mut status, &visible, Key::Char(c));
    }
    assert_eq!(s.filter_query.text(), "ssh");
    let groups = vec![group("a", "My Ghostty config"), group("b", "SSH config")];
    let vis = listed_group_indices(&groups, &[], &s);
    assert_eq!(vis.len(), 1);
    assert_eq!(groups[vis[0]].id, "b"); // "SSH config"
    handle_key_gists(&mut s, &mut status, &visible, Key::Esc);
    assert!(!s.filtering);
    assert!(s.filter_query.is_empty());
    assert_eq!(listed_group_indices(&groups, &[], &s).len(), 2);
}

#[test]
fn gists_filter_navigates_while_typing() {
    let mut s = GistsState::new();
    let mut status = None;
    s.filtering = true;
    let visible = ids(&["g1", "g2"]);
    handle_key_gists(&mut s, &mut status, &visible, Key::Down);
    assert_eq!(s.cursor.index, 1);
    assert!(s.filtering);
    handle_key_gists(&mut s, &mut status, &visible, Key::Up);
    assert_eq!(s.cursor.index, 0);
}

#[test]
fn gists_filter_empty_backspace_exits() {
    let mut s = GistsState::new();
    let mut status = None;
    s.filtering = true;
    handle_key_gists(&mut s, &mut status, &[], Key::Char('a'));
    handle_key_gists(&mut s, &mut status, &[], Key::Backspace);
    assert!(s.filtering);
    handle_key_gists(&mut s, &mut status, &[], Key::Backspace);
    assert!(!s.filtering);
}

#[test]
fn gists_filter_tab_is_noop() {
    let mut s = GistsState::new();
    let mut status = None;
    s.filtering = true;
    handle_key_gists(&mut s, &mut status, &[], Key::Char('a'));
    handle_key_gists(&mut s, &mut status, &[], Key::Tab);
    assert!(s.filtering);
    assert_eq!(s.filter_query.text(), "a");
}

#[test]
fn gist_view_left_right_scrolls_horizontally() {
    let mut s = GistsState::new();
    assert_eq!(s.cursor.hscroll, 0);
    apply_navigation_gists(&mut s, NavAction::Right, 2, 20);
    assert_eq!(s.cursor.hscroll, 1);
    apply_navigation_gists(&mut s, NavAction::Left, 2, 20);
    assert_eq!(s.cursor.hscroll, 0);
    apply_navigation_gists(&mut s, NavAction::Left, 2, 20);
    assert_eq!(s.cursor.hscroll, 0);
}

#[test]
fn gists_page_keys_jump_selection() {
    let mut s = GistsState::new();
    apply_navigation_gists(&mut s, NavAction::PageDown, 12, 0);
    assert_eq!(s.cursor.index, 10);
    apply_navigation_gists(&mut s, NavAction::PageUp, 12, 0);
    assert_eq!(s.cursor.index, 0);
}

#[test]
fn gists_click_selects_a_row() {
    let mut s = GistsState::new();
    assert!(click_select_gists(&mut s, Some(1)));
    assert_eq!(s.cursor.index, 1);
    assert!(!click_select_gists(&mut s, None));
}

#[test]
fn gists_vm_title_rows_and_empty_states() {
    let s = GistsState::new();
    let rows = vec![GistGroupRow {
        group: group("0123456789", "alpha"),
        counts: (0, 0, 0),
        starred: true,
    }];
    let vm = build_gists_vm(&s, &rows, 2, 1, 0, 1_781_395_200, Some("me"), None, "q back");
    assert_eq!(
        vm.pane.title.segments,
        vec!["Gists (1/2)  ·  sort:updated  ·  type:all  ·  ★ 1  ·  ⑂ 0".to_string()]
    );
    assert_eq!(vm.pane.empty, ListPaneEmpty::HasRows);
    assert!(vm.pane.rows[0].label.starts_with("★  alpha  #0123456"));
    assert_eq!(vm.pane.selected, Some(0));
    assert_eq!(vm.footer, "q back");
    assert!(vm.footer_colored);
    assert_eq!(vm.footer_title, "");

    let vm = build_gists_vm(&s, &[], 0, 0, 0, 0, None, Some("busy"), "q back");
    assert_eq!(vm.pane.empty, ListPaneEmpty::NoItems);
    assert_eq!(vm.pane.empty_message.as_deref(), Some("  📭 No gists found"));
    assert_eq!(vm.footer, "busy");

    let mut filtering = GistsState::new();
    filtering.filtering = true;
    handle_key_gists(&mut filtering, &mut None, &[], Key::Char('z'));
    let vm = build_gists_vm(&filtering, &[], 3, 0, 0, 0, None, None, "");
    assert_eq!(vm.pane.empty, ListPaneEmpty::NoFilterMatch);
    assert_eq!(vm.footer, "/z_");
    assert_eq!(vm.footer_title, "Filter (↑↓ move · Enter apply · Esc clear)");
}

#[test]
fn timestamps_order_as_their_characters() {
    assert!(str_lt("2026-01-01T00:00:00Z", "2026-06-01T00:00:00Z"));
    assert!(!str_lt("2026-06-01T00:00:00Z", "2026-01-01T00:00:00Z"));
    assert!(str_lt("2026-03-01", "2026-03-01T00:00:00Z"));
    assert!(!str_lt("2026-03-01T00:00:00Z", "2026-03-01T00:00:00Z"));
    assert!(str_lt("", "a"));
    assert!(!str_lt("b", "abc"));
}

#[test]
fn gists_click_selects_and_double_click_matches_enter() {
    let visible = ids(&["a", "b"]);
    let hit = PaneHit { rect: Rect { x: 0, y: 0, width: 40, height: 10 }, offset: 0 };
    // Row 2 is the second content row (the border is row 0).
    let index = hit.index_at(2, visible.len());
    let mut s = GistsState::new();
    let mut status = None;
    assert!(click_select_gists(&mut s, index));
    assert_eq!(s.cursor.index, 1);
    // A double click activates the same row, exactly as Enter would.
    let mut by_key = s.clone();
    let key_out = handle_key_gists(&mut by_key, &mut status, &visible, Key::Enter);
    click_select_gists(&mut s, index);
    let by_mouse = handle_key_gists(&mut s, &mut status, &visible, Key::Enter);
    assert_eq!(by_mouse, key_out);
    assert!(matches!(by_mouse, GistsKeyOutcome::OpenGistDetail { .. }));
}
