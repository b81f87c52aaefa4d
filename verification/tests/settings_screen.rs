use gistui::config_screen::{
    adjust_config_field, build_config_vm, handle_key_config, ConfigAction, ConfigState,
};
use gistui::keys::Key;
use gistui::settings::{ConfigField, RuntimeSettings, SettingsEffect};
use gistui::theme::ThemeChoice;

fn index_of(field: ConfigField) -> usize {
    ConfigField::all().iter().position(|f| *f == field).unwrap()
}

#[test]
fn config_adjust_theme_returns_persist_settings() {
    let mut settings = RuntimeSettings::default();
    let mut cfg = ConfigState { index: 0 };
    assert_eq!(settings.theme_choice(), ThemeChoice::Dark);
    let outcome = handle_key_config(&mut cfg, &mut settings, Key::Char(' '));
    assert_eq!(
        outcome,
        ConfigAction::PersistSettings { effect: None, success_message: "Theme: light".into() }
    );
    assert_eq!(settings.theme_choice(), ThemeChoice::Light);
}

#[test]
fn config_toggles_show_full_diff() {
    let mut settings = RuntimeSettings::default();
    let cfg = ConfigState { index: index_of(ConfigField::DiffShowFull) };
    assert!(!settings.diff_show_full());
    assert_eq!(
        adjust_config_field(&cfg, &mut settings, true),
        Some((None, "Show full diff: on".to_string()))
    );
    assert!(settings.diff_show_full());
}

#[test]
fn config_keys_move_and_clamp_the_selection() {
    let mut settings = RuntimeSettings::default();
    let mut cfg = ConfigState { index: 0 };
    assert_eq!(handle_key_config(&mut cfg, &mut settings, Key::Up), ConfigAction::Nothing);
    assert_eq!(cfg.index, 0);
    for _ in 0..20 {
        handle_key_config(&mut cfg, &mut settings, Key::Char('j'));
    }
    assert_eq!(cfg.index, 7);
    assert_eq!(handle_key_config(&mut cfg, &mut settings, Key::Char('q')), ConfigAction::Leave);
    assert_eq!(handle_key_config(&mut cfg, &mut settings, Key::Char('?')), ConfigAction::OpenHelp);
}

#[test]
fn mouse_toggle_asks_for_a_capture_sync() {
    let mut settings = RuntimeSettings::default();
    let mut cfg = ConfigState { index: index_of(ConfigField::Mouse) };
    assert_eq!(
        handle_key_config(&mut cfg, &mut settings, Key::Enter),
        ConfigAction::PersistSettings {
            effect: Some(SettingsEffect::SyncMouseCapture),
            success_message: "Mouse support: off".into(),
        }
    );
}

#[test]
fn numeric_field_at_its_floor_asks_for_nothing() {
    let mut settings = RuntimeSettings::default();
    let mut cfg = ConfigState { index: index_of(ConfigField::DiffContext) };
    for _ in 0..3 {
        handle_key_config(&mut cfg, &mut settings, Key::Left);
    }
    assert_eq!(settings.diff_context(), 0);
    assert_eq!(handle_key_config(&mut cfg, &mut settings, Key::Char('h')), ConfigAction::Nothing);
}

#[test]
fn config_rows_align_label_and_value_columns() {
    let settings = RuntimeSettings::default();
    let vm = build_config_vm(&settings, 2, None);
    assert_eq!(vm.rows.len(), 8);
    assert_eq!(vm.rows[0], format!("  {:<23} {:<5} terminal colours (Enter)", "Theme", "dark"));
    assert_eq!(
        vm.rows[6],
        format!("  {:<23} {:<5} directory levels to scan (←/→)", "Recursive scan depth", "3")
    );
    assert_eq!(vm.selected, 2);
}
