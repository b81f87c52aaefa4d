use gistui::chrome::{Category, Rect, TextInput};
use gistui::confirm::PendingAction;
use gistui::confirm_flow::on_compact_analyze;
use gistui::keys::Key;
use gistui::palette_screen::{
    build_palette_vm, clamp_selection, execute_palette_selection, handle_key_palette,
    paints_background, palette_rect, PaletteExec, PaletteItem, PaletteKeyOutcome, PaletteMode,
    PaletteRun, PaletteState,
};
use gistui::outcomes::{apply_palette_outcome, open_palette};
use gistui::pins_screen::PinsState;
use gistui::settings::RuntimeSettings;
use gistui::state::{initial_state, Screen};

fn item(key: &str, label: &str, enabled: bool, action: PaletteExec) -> PaletteItem {
    PaletteItem {
        key_hint: key.into(),
        label: label.into(),
        category: Category::Nav,
        enabled,
        action,
    }
}

fn palette(mode: PaletteMode) -> PaletteState {
    PaletteState {
        mode,
        query: TextInput::from(""),
        selected: 0,
        anchor: None,
    }
}

#[test]
fn enabled_row_after_disabled_row_keeps_its_palette_index() {
    let items = vec![
        item("x", "Disabled", false, PaletteExec::Quit),
        item("t", "Toggle theme", true, PaletteExec::ToggleTheme),
    ];
    let mut settings = RuntimeSettings::default();
    assert_eq!(
        execute_palette_selection(&items, 0, &mut settings),
        PaletteRun::Nothing
    );
    assert_eq!(
        execute_palette_selection(&items, 1, &mut settings),
        PaletteRun::PersistSettings {
            effect: None,
            success_message: "Theme: light".into(),
        }
    );
    assert_eq!(
        execute_palette_selection(&items, 5, &mut settings),
        PaletteRun::Nothing
    );
}

#[test]
fn running_a_key_item_presses_the_key() {
    let items = vec![item("d", "download", true, PaletteExec::Key(Key::Char('d')))];
    let mut settings = RuntimeSettings::default();
    assert_eq!(
        execute_palette_selection(&items, 0, &mut settings),
        PaletteRun::PressKey(Key::Char('d'))
    );
}

#[test]
fn palette_vm_items_and_title() {
    let mut p = palette(PaletteMode::Menu);
    p.anchor = Some((10, 5));
    let items = vec![item("d", "download", true, PaletteExec::Key(Key::Char('d')))];
    let vm = build_palette_vm(&p, &items);
    assert_eq!(vm.title, "Menu");
    assert!(!vm.has_query);
    assert_eq!(vm.items.len(), 1);
    assert_eq!(vm.items[0].label, "download");
    assert!(vm.items[0].enabled);
    assert_eq!(vm.anchor, Some((10, 5)));
    assert_eq!(vm.key_width, 1);
    let vm = build_palette_vm(&palette(PaletteMode::Command), &[item("Ctrl+P", "x", true, PaletteExec::Quit)]);
    assert_eq!(vm.title, "Command palette");
    assert!(vm.has_query);
    assert_eq!(vm.key_width, 6);
}

#[test]
fn palette_vm_background_stays_blank_over_confirm() {
    let mut state = initial_state();
    assert!(paints_background(&state.screen));
    on_compact_analyze(&mut state, Ok(3), "g1".into(), "demo".into());
    assert!(matches!(
        state.pending_action(),
        Some(PendingAction::CompactGist { .. })
    ));
    assert!(!paints_background(&state.screen));
    state.screen = Screen::List;
    assert!(paints_background(&state.screen));
}

#[test]
fn palette_keys_move_run_and_close() {
    let mut p = palette(PaletteMode::Menu);
    assert_eq!(handle_key_palette(&mut p, Key::Down, 3), PaletteKeyOutcome::Nothing);
    assert_eq!(handle_key_palette(&mut p, Key::Down, 3), PaletteKeyOutcome::Nothing);
    assert_eq!(handle_key_palette(&mut p, Key::Down, 3), PaletteKeyOutcome::Nothing);
    assert_eq!(p.selected, 2);
    assert_eq!(handle_key_palette(&mut p, Key::Up, 3), PaletteKeyOutcome::Nothing);
    assert_eq!(p.selected, 1);
    assert_eq!(handle_key_palette(&mut p, Key::Enter, 3), PaletteKeyOutcome::Execute);
    assert_eq!(handle_key_palette(&mut p, Key::Char(';'), 3), PaletteKeyOutcome::Close);
    assert_eq!(handle_key_palette(&mut p, Key::Char('x'), 3), PaletteKeyOutcome::Nothing);
}

#[test]
fn command_palette_typing_edits_the_query() {
    let mut p = palette(PaletteMode::Command);
    p.selected = 2;
    assert_eq!(
        handle_key_palette(&mut p, Key::Char('g'), 3),
        PaletteKeyOutcome::QueryEdited
    );
    assert_eq!(p.query.text(), "g");
    assert_eq!(p.selected, 0);
    assert_eq!(handle_key_palette(&mut p, Key::Char(';'), 3), PaletteKeyOutcome::QueryEdited);
    assert_eq!(p.query.text(), "g;");
    assert_eq!(handle_key_palette(&mut p, Key::Esc, 3), PaletteKeyOutcome::Close);
    p.selected = 7;
    clamp_selection(&mut p, 2);
    assert_eq!(p.selected, 1);
    clamp_selection(&mut p, 0);
    assert_eq!(p.selected, 0);
}

#[test]
fn palette_panel_geometry() {
    let items = vec![item("d", "download", true, PaletteExec::Quit)];
    let area = Rect {
        x: 0,
        y: 0,
        width: 100,
        height: 30,
    };
    let vm = build_palette_vm(&palette(PaletteMode::Command), &items);
    assert_eq!(
        palette_rect(&vm, area),
        Rect {
            x: 15,
            y: 25,
            width: 70,
            height: 4
        }
    );
    let mut menu = palette(PaletteMode::Menu);
    menu.anchor = Some((90, 10));
    let vm = build_palette_vm(&menu, &items);
    assert_eq!(
        palette_rect(&vm, area),
        Rect {
            x: 55,
            y: 9,
            width: 45,
            height: 3
        }
    );
}

#[test]
fn palette_esc_returns_to_origin() {
    let mut state = initial_state();
    state.screen = Screen::Pins(PinsState::new());
    open_palette(
        &mut state,
        PaletteState { mode: PaletteMode::Menu, query: TextInput::from(""), selected: 0, anchor: None },
    );
    assert!(matches!(state.screen, Screen::Palette(_)));
    let out = match &mut state.screen {
        Screen::Palette(p) => handle_key_palette(p, Key::Esc, 3),
        _ => unreachable!(),
    };
    apply_palette_outcome(&mut state, out);
    assert!(matches!(state.screen, Screen::Pins(_)));
    assert!(state.nav_stack.is_empty());
}
