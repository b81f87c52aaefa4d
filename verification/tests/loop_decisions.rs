use gistui::keys::Key;
use gistui::loop_step::{gate_event, pins_refresh_due, settle_comment_scroll, LoopAction, LoopEvent};
use gistui::state::{initial_state, DetailState, Screen};

#[test]
fn keys_reach_the_screen_once_per_press() {
    assert_eq!(gate_event(false, LoopEvent::Key { key: Key::Down, press: true }), LoopAction::Handle);
    assert_eq!(gate_event(false, LoopEvent::Key { key: Key::Down, press: false }), LoopAction::Ignore);
    assert_eq!(gate_event(false, LoopEvent::Mouse), LoopAction::Handle);
    assert_eq!(gate_event(false, LoopEvent::Other), LoopAction::Ignore);
}

#[test]
fn a_running_task_takes_every_event_and_esc_cancels_it() {
    assert_eq!(gate_event(true, LoopEvent::Key { key: Key::Esc, press: true }), LoopAction::CancelTask);
    assert_eq!(gate_event(true, LoopEvent::Key { key: Key::Char('q'), press: true }), LoopAction::Ignore);
    assert_eq!(gate_event(true, LoopEvent::Mouse), LoopAction::Ignore);
}

#[test]
fn pins_refresh_on_entry_on_dirt_and_on_a_count_mismatch_only() {
    assert!(pins_refresh_due(true, false, false, 2, 2)); // just entered
    assert!(pins_refresh_due(true, true, true, 2, 2)); // marked out of date
    assert!(pins_refresh_due(true, false, true, 1, 2)); // a pin was added
    assert!(!pins_refresh_due(true, false, true, 2, 2)); // not every frame
    assert!(!pins_refresh_due(false, true, false, 0, 2)); // not off the pins screen
}

#[test]
fn a_fresh_thread_lands_on_its_last_comment_once() {
    let mut state = initial_state();
    let mut d = DetailState::default();
    d.comments_scroll_to_bottom = true;
    d.scroll = 2;
    state.screen = Screen::GistDetail(d);
    settle_comment_scroll(&mut state, Some(40));
    match &state.screen {
        Screen::GistDetail(d) => {
            assert_eq!(d.scroll, 40);
            assert!(!d.comments_scroll_to_bottom);
        }
        other => panic!("expected the detail screen, got {other:?}"),
    }
    // The request is spent: a later frame leaves the scroll alone.
    settle_comment_scroll(&mut state, Some(50));
    assert!(matches!(&state.screen, Screen::GistDetail(d) if d.scroll == 40));
}

#[test]
fn settling_elsewhere_changes_nothing() {
    let mut state = initial_state();
    settle_comment_scroll(&mut state, Some(5));
    assert_eq!(state, initial_state());
}
