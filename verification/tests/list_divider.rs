use gistui::chrome::Rect;
use gistui::list_keys::{
    drag_split_divider, end_split_drag, press_list, reset_split_divider, FocusPane, ListScreen,
};
use gistui::list_pane::MIN_PANE_CELLS;
use gistui::list_split::{
    on_divider, split_hit, SplitHit, DEFAULT_SPLIT_PERCENT, MAX_SPLIT_PERCENT, MIN_SPLIT_PERCENT,
};

fn area() -> Rect {
    Rect { x: 0, y: 1, width: 100, height: 20 }
}

/// The divider of a 100-column List screen split at the default 40%.
fn split_layout() -> SplitHit {
    split_hit(area(), DEFAULT_SPLIT_PERCENT)
}

#[test]
fn split_hit_puts_the_divider_where_the_percent_says() {
    // At 40% of 100 columns the local pane owns columns 0..=39: its right border is 39.
    assert_eq!(split_layout().divider_x, 39);
    assert_eq!(split_hit(Rect { x: 10, y: 0, width: 137, height: 5 }, 40).divider_x, 10 + 55 - 1);
}

#[test]
fn dragging_the_divider_resizes_the_panes_and_release_ends_the_drag() {
    let mut s = ListScreen::new();
    let split = split_layout();

    assert!(press_list(&mut s, split, None, 39, 5));
    assert!(s.split_dragging);

    drag_split_divider(&mut s, 59, area());
    assert_eq!(s.split_percent, 60);

    end_split_drag(&mut s);
    assert!(!s.split_dragging);
    // A release after the drag must not keep resizing.
    drag_split_divider(&mut s, 20, area());
    assert_eq!(s.split_percent, 60);
}

#[test]
fn grabbing_the_divider_does_not_focus_or_select_a_pane() {
    let mut s = ListScreen::new();
    s.focus = FocusPane::Gist;
    s.local_cursor.index = 1;
    // The local pane reaches the divider, so without the grab check this would focus it.
    press_list(&mut s, split_layout(), Some((FocusPane::Local, None)), 39, 5);
    assert!(s.split_dragging);
    assert_eq!(s.focus, FocusPane::Gist);
    assert_eq!(s.local_cursor.index, 1);
}

#[test]
fn the_grab_zone_is_widened_by_one_cell_on_each_side() {
    let split = split_layout();
    for col in 38..=41 {
        let mut s = ListScreen::new();
        press_list(&mut s, split, None, col, 5);
        assert!(s.split_dragging, "col {col} missed the divider");
    }
    for col in [37, 42] {
        let mut s = ListScreen::new();
        press_list(&mut s, split, None, col, 5);
        assert!(!s.split_dragging, "col {col} grabbed the divider");
    }
}

#[test]
fn a_running_drag_ignores_the_row() {
    let mut s = ListScreen::new();
    press_list(&mut s, split_layout(), None, 39, 5);
    // The drag follows the column alone, wherever the pointer's row is.
    drag_split_divider(&mut s, 49, area());
    assert_eq!(s.split_percent, 50);
}

#[test]
fn dragging_clamps_to_a_readable_pane_width() {
    let mut s = ListScreen::new();
    press_list(&mut s, split_layout(), None, 39, 5);
    drag_split_divider(&mut s, 0, area());
    assert_eq!(s.split_percent, MIN_SPLIT_PERCENT);
    drag_split_divider(&mut s, 99, area());
    assert_eq!(s.split_percent, MAX_SPLIT_PERCENT);
}

#[test]
fn a_terminal_too_narrow_for_two_panes_has_no_grabbable_divider() {
    let mut s = ListScreen::new();
    s.focus = FocusPane::Gist;
    let width = MIN_PANE_CELLS * 2 - 1;
    let split = SplitHit { area: Rect { x: 0, y: 1, width, height: 20 }, divider_x: width / 2 };

    let grabbed = press_list(&mut s, split, Some((FocusPane::Local, None)), width / 2, 5);
    assert!(!grabbed);
    assert!(!s.split_dragging);
    // The press is not swallowed: it focuses the pane it landed in, as any other click would.
    assert_eq!(s.focus, FocusPane::Local);

    // Nor is the double-click reset.
    s.split_percent = 70;
    assert!(!reset_split_divider(&mut s, on_divider(split, width / 2, 5), width));
    assert_eq!(s.split_percent, 70);
}

#[test]
fn drag_without_grabbing_the_divider_changes_nothing() {
    let mut s = ListScreen::new();
    drag_split_divider(&mut s, 70, area());
    assert_eq!(s.split_percent, DEFAULT_SPLIT_PERCENT);
    assert!(!s.split_dragging);
}

#[test]
fn double_clicking_the_divider_restores_the_default_split() {
    let mut s = ListScreen::new();
    s.split_percent = 70;
    let split = split_layout();
    assert!(reset_split_divider(&mut s, on_divider(split, 39, 5), 100));
    assert_eq!(s.split_percent, DEFAULT_SPLIT_PERCENT);
    assert!(!s.split_dragging);
}

#[test]
fn a_press_in_a_pane_selects_its_row() {
    let mut s = ListScreen::new();
    s.focus = FocusPane::Gist;
    assert!(!press_list(&mut s, split_layout(), Some((FocusPane::Local, Some(2))), 10, 5));
    assert_eq!(s.focus, FocusPane::Local);
    assert_eq!(s.local_cursor.index, 2);
}

#[test]
fn a_press_outside_the_panes_changes_nothing() {
    let mut s = ListScreen::new();
    // Row 0 is the top bar, above the panes' area.
    assert!(!press_list(&mut s, split_layout(), None, 39, 0));
    assert!(!s.split_dragging);
    assert_eq!(s.focus, FocusPane::Local);
}
