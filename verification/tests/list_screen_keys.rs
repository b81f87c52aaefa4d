use gistui::chrome::TextInput;
use gistui::domain::GistFile;
use gistui::keys::{nav_action_of, Key, NavAction};
use gistui::outcomes::apply_list_outcome;
use gistui::state::{initial_state, Screen};
use gistui::list_filter::{matching_gist_indices, visible_local_indices};
use gistui::list_keys::{
    handle_key_filter, list_screen_key, FocusPane, ListKeyOutcome, ListScreen, ListSelection,
    PaneSort,
};

fn no_selection() -> ListSelection {
    ListSelection {
        local: None,
        gist: None,
        owned: false,
        pinned_pair: false,
        gist_holds_local_name: false,
        file_count: 0,
        has_owned_gists: false,
        text_previewable: false,
        diff_previewable: false,
        context_gist_id: None,
        cwd: "/cwd".into(),
    }
}

/// A key on the List screen with two local rows and two gist rows on display.
fn press(s: &mut ListScreen, key: Key) -> ListKeyOutcome {
    if s.filtering {
        handle_key_filter(s, key, 2, 2);
        ListKeyOutcome::Nothing
    } else {
        list_screen_key(s, &no_selection(), key, 2, 2, 8)
    }
}

fn two_gists() -> Vec<GistFile> {
    let mut a = GistFile::fixture("a", "config.ghostty");
    a.description = "My Ghostty config".into();
    a.public = true;
    let mut b = GistFile::fixture("b", "ssh_config");
    b.description = "SSH config".into();
    vec![a, b]
}

fn gist_focused() -> ListScreen {
    let mut s = ListScreen::new();
    s.focus = FocusPane::Gist;
    s
}

#[test]
fn vim_j_k_move_list_selection() {
    let mut s = gist_focused();
    s.gist_cursor.index = 0;
    press(&mut s, Key::Char('j'));
    assert_eq!(s.gist_cursor.index, 1);
    press(&mut s, Key::Char('k'));
    assert_eq!(s.gist_cursor.index, 0);
}

#[test]
fn vim_h_scrolls_focused_row_left() {
    let mut s = gist_focused();
    s.gist_cursor.hscroll = 2;
    press(&mut s, Key::Char('h'));
    assert_eq!(s.gist_cursor.hscroll, 1);
}

#[test]
fn lowercase_h_does_not_open_revision_history() {
    let mut s = gist_focused();
    s.gist_cursor.index = 0;
    let out = press(&mut s, Key::Char('h'));
    assert_eq!(out, ListKeyOutcome::Nothing);
    let mut state = initial_state();
    apply_list_outcome(&mut state, out);
    assert_eq!(state.screen, Screen::List);
}

#[test]
fn local_down_clamps_to_filtered_count() {
    let paths: Vec<String> =
        ["/cwd/a.json", "/cwd/b.txt", "/cwd/c.txt"].iter().map(|p| p.to_string()).collect();
    let mut s = ListScreen::new();
    s.local_filter_query = TextInput::from("json"); // only one match
    let rows = visible_local_indices(&paths, "/cwd", &s.local_filter_query.text()).len();
    assert_eq!(rows, 1);

    list_screen_key(&mut s, &no_selection(), Key::Down, rows, 0, 0);
    assert_eq!(s.local_cursor.index, 0); // clamped: only one visible row
}

#[test]
fn moving_driver_pane_up_resets_ranked_pane() {
    let mut s = ListScreen::new();
    s.anchor = FocusPane::Local;
    s.focus = FocusPane::Local;
    s.local_cursor.index = 1;
    s.gist_cursor.index = 1;
    press(&mut s, Key::Up);
    assert_eq!(s.local_cursor.index, 0);
    assert_eq!(s.gist_cursor.index, 0);
}

#[test]
fn changing_local_selection_resets_gist_index() {
    let mut s = ListScreen::new();
    s.gist_cursor.index = 2;
    press(&mut s, Key::Down); // move the local selection down
    assert_eq!(s.gist_cursor.index, 0);
}

#[test]
fn s_cycles_local_sort_when_local_pane_focused() {
    let mut s = ListScreen::new();
    assert_eq!(s.focus, FocusPane::Local);
    assert_eq!(s.local_sort, PaneSort::Match);
    press(&mut s, Key::Char('s'));
    assert_eq!(s.local_sort, PaneSort::Name);
    press(&mut s, Key::Char('s'));
    assert_eq!(s.local_sort, PaneSort::Recent);
    press(&mut s, Key::Char('s'));
    assert_eq!(s.local_sort, PaneSort::Match);
    // The gist sort is untouched while the local pane is focused.
    assert_eq!(s.gist_sort, PaneSort::Match);
}

#[test]
fn star_key_returns_toggle_intent() {
    let mut s = ListScreen::new();
    s.gist_cursor.index = 0;
    assert_eq!(press(&mut s, Key::Char('*')), ListKeyOutcome::ToggleStar);
}

#[test]
fn slash_enters_filter_mode_and_typing_filters() {
    let gists = two_gists();
    let mut s = gist_focused();
    assert!(!s.filtering);
    press(&mut s, Key::Char('/'));
    assert!(s.filtering);
    // Type "ghostty": only the first gist matches (by file name and description).
    for c in "ghostty".chars() {
        press(&mut s, Key::Char(c));
    }
    let ranked = matching_gist_indices(&gists, &s.filter_query.text());
    assert_eq!(ranked.len(), 1);
    assert_eq!(gists[ranked[0]].gist_id, "a");
}

#[test]
fn filter_enter_keeps_query_esc_clears() {
    let mut s = gist_focused();
    press(&mut s, Key::Char('/'));
    press(&mut s, Key::Char('s'));
    press(&mut s, Key::Char('s'));
    press(&mut s, Key::Char('h'));
    press(&mut s, Key::Enter);
    assert!(!s.filtering);
    assert_eq!(s.filter_query.text(), "ssh");
    // Re-enter and Esc clears.
    press(&mut s, Key::Char('/'));
    press(&mut s, Key::Esc);
    assert!(!s.filtering);
    assert!(s.filter_query.is_empty());
}

#[test]
fn filter_backspace_deletes_last_char() {
    let mut s = gist_focused();
    press(&mut s, Key::Char('/'));
    press(&mut s, Key::Char('x'));
    press(&mut s, Key::Char('y'));
    press(&mut s, Key::Backspace);
    assert_eq!(s.filter_query.text(), "x");
}

#[test]
fn list_filter_page_down_pages_without_typing() {
    // Ctrl+f reaches the library as a page-down key.
    let mut s = ListScreen::new();
    s.filtering = true;
    s.local_filter_query = TextInput::from("f");
    handle_key_filter(&mut s, Key::PageDown, 12, 0);
    assert_eq!(s.local_cursor.index, 10);
    assert_eq!(s.local_filter_query.text(), "f");
}

#[test]
fn movement_keys_include_the_vim_keys() {
    assert_eq!(nav_action_of(Key::Char('j')), Some(NavAction::Down));
    assert_eq!(nav_action_of(Key::Char('k')), Some(NavAction::Up));
    assert_eq!(nav_action_of(Key::Char('h')), Some(NavAction::Left));
    assert_eq!(nav_action_of(Key::Char('l')), Some(NavAction::Right));
    assert_eq!(nav_action_of(Key::PageDown), Some(NavAction::PageDown));
    assert_eq!(nav_action_of(Key::Char('x')), None);
}

#[test]
fn a_list_key_with_an_outcome_does_not_also_move() {
    let mut s = ListScreen::new();
    s.local_cursor.index = 1;
    // 'r' rescans and returns to the top; it is no movement.
    assert_eq!(press(&mut s, Key::Char('r')), ListKeyOutcome::RefreshLocals);
    assert_eq!(s.local_cursor.index, 0);
}
