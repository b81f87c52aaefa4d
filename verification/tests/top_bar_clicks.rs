use gistui::chrome::Rect;
use gistui::help::{HelpState, HelpTopic};
use gistui::mouse::{handle_top_bar_click, top_bar_target, HitTarget, MouseFrame};
use gistui::state::{initial_state, Screen};
use gistui::config_screen::{handle_key_config, ConfigAction, ConfigState};
use gistui::keys::Key;
use gistui::outcomes::apply_config_outcome;
use gistui::settings::RuntimeSettings;
use gistui::gists_screen::GistsState;
use gistui::preview::PreviewState;
use gistui::scroll::ScrollBody;

fn preview_screen() -> Screen {
    Screen::Preview(PreviewState {
        title: "Preview: notes / a.txt".into(),
        body: ScrollBody::default(),
        gist_key: Some(("g1".into(), "a.txt".into())),
    })
}

fn config_screen() -> Screen {
    Screen::Config(ConfigState { index: 0 })
}

fn rect(x: u16, y: u16, width: u16, height: u16) -> Rect {
    Rect { x, y, width, height }
}

#[test]
fn top_bar_gists_click_opens_gist_manager_from_any_screen() {
    let mut state = initial_state();
    state.screen = preview_screen(); // a screen with no 'g' binding of its own
    let mut layout = MouseFrame::new();
    layout.register(HitTarget::TopGists, rect(10, 0, 7, 1));
    let hit = handle_top_bar_click(&mut state, &layout, 12, 0);
    assert_eq!(state.screen, Screen::Gists(GistsState::new()));
    assert!(hit);
}

#[test]
fn top_bar_config_click_opens_settings_from_any_screen() {
    let mut state = initial_state();
    state.screen = preview_screen();
    let mut layout = MouseFrame::new();
    layout.register(HitTarget::TopConfig, rect(28, 0, 8, 1));
    let hit = handle_top_bar_click(&mut state, &layout, 30, 0);
    assert_eq!(state.screen, config_screen());
    assert_eq!(state.nav_stack.last(), Some(&preview_screen()));
    assert!(hit);
}

#[test]
fn top_bar_help_click_opens_help_and_remembers_return_screen_from_any_screen() {
    let mut state = initial_state();
    state.screen = preview_screen();
    let mut layout = MouseFrame::new();
    layout.register(HitTarget::TopHelp, rect(30, 0, 7, 1));
    let hit = handle_top_bar_click(&mut state, &layout, 32, 0);
    assert!(matches!(state.screen, Screen::Help(h) if h.topic == HelpTopic::List));
    assert_eq!(state.nav_stack.last(), Some(&preview_screen()));
    assert!(hit);
}

#[test]
fn top_bar_config_click_while_already_on_config_does_not_trap_keyboard_exit() {
    let mut state = initial_state();
    state.screen = preview_screen();
    let mut layout = MouseFrame::new();
    layout.register(HitTarget::TopConfig, rect(28, 0, 8, 1));
    handle_top_bar_click(&mut state, &layout, 30, 0);
    assert_eq!(state.screen, config_screen());
    assert_eq!(state.nav_stack.last(), Some(&preview_screen()));

    // A second click on Config while already there must not bury the return screen.
    assert!(handle_top_bar_click(&mut state, &layout, 30, 0));
    assert_eq!(state.screen, config_screen());
    assert_eq!(state.nav_stack, vec![preview_screen()]);

    // Esc on the settings leaves them, back to the preview.
    let mut settings = RuntimeSettings::default();
    let out = match &mut state.screen {
        Screen::Config(c) => handle_key_config(c, &mut settings, Key::Esc),
        _ => unreachable!(),
    };
    assert_eq!(out, ConfigAction::Leave);
    apply_config_outcome(&mut state, &out);
    assert_eq!(state.screen, preview_screen());
    assert!(state.nav_stack.is_empty());
}

#[test]
fn a_click_beside_every_target_changes_nothing() {
    let mut state = initial_state();
    state.screen = preview_screen();
    let mut layout = MouseFrame::new();
    layout.register(HitTarget::TopGists, rect(10, 0, 7, 1));
    // One past the right edge, and the row below.
    assert!(!handle_top_bar_click(&mut state, &layout, 17, 0));
    assert!(!handle_top_bar_click(&mut state, &layout, 12, 1));
    assert_eq!(state.screen, preview_screen());
    assert!(state.nav_stack.is_empty());
}

#[test]
fn a_close_button_is_no_top_bar_shortcut() {
    let mut state = initial_state();
    let mut layout = MouseFrame::new();
    layout.register(HitTarget::Close, rect(0, 0, 3, 1));
    assert!(!handle_top_bar_click(&mut state, &layout, 1, 0));
    assert_eq!(state.screen, Screen::List);
}

#[test]
fn the_target_painted_last_wins_where_two_overlap() {
    let mut layout = MouseFrame::new();
    layout.register(HitTarget::Row(0), rect(0, 0, 20, 5));
    layout.register(HitTarget::Close, rect(18, 0, 2, 1));
    assert_eq!(layout.resolve(19, 0), Some(HitTarget::Close));
    assert_eq!(layout.resolve(5, 0), Some(HitTarget::Row(0)));
    assert_eq!(layout.resolve(25, 0), None);
}

#[test]
fn top_bar_shortcuts_run_gists_pins_config_help() {
    assert_eq!(top_bar_target(0), HitTarget::TopGists);
    assert_eq!(top_bar_target(1), HitTarget::TopPins);
    assert_eq!(top_bar_target(2), HitTarget::TopConfig);
    assert_eq!(top_bar_target(3), HitTarget::TopHelp);
}

#[test]
fn leaving_with_nowhere_to_go_back_lands_on_the_list() {
    let mut state = initial_state();
    state.screen = Screen::Help(HelpState::new());
    state.leave();
    assert_eq!(state.screen, Screen::List);
}

#[test]
fn close_button_click_outside_is_noop() {
    let mut state = initial_state();
    state.screen = Screen::Help(HelpState::new());
    let mut layout = MouseFrame::new();
    layout.register(HitTarget::Close, rect(36, 0, 5, 1));
    let before = state.clone();
    // Column 35 is just left of the close button.
    assert_eq!(layout.resolve(35, 0), None);
    assert!(!handle_top_bar_click(&mut state, &layout, 35, 0));
    assert_eq!(state, before);
    assert!(matches!(state.screen, Screen::Help(_)));
}

#[test]
fn click_off_list_screen_is_noop() {
    let mut state = initial_state();
    state.screen = Screen::Help(HelpState::new());
    let mut layout = MouseFrame::new();
    layout.register(HitTarget::Row(0), rect(20, 0, 20, 10));
    let before = state.clone();
    assert!(!handle_top_bar_click(&mut state, &layout, 25, 1));
    assert_eq!(state, before);
}
