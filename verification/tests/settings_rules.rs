use gistui::config::{AppConfig, Preferences};
use gistui::domain::PinnedMapping;
use gistui::settings::{ConfigField, RuntimeSettings, SettingsEffect};
use gistui::theme::ThemeChoice;

#[test]
fn cli_overrides_force_effective_values_off_without_changing_preferences() {
    let config = AppConfig::default();
    let settings = RuntimeSettings::from_config(&config, true, true);
    assert!(!settings.mouse_enabled());
    assert!(!settings.update_check_enabled());
    let mut saved = AppConfig::default();
    settings.apply_to_config(&mut saved);
    assert!(saved.prefs.mouse);
    assert!(saved.prefs.check_updates);
}

#[test]
fn numeric_adjustments_clamp_and_report_no_change_at_bounds() {
    let mut config = AppConfig {
        prefs: Preferences {
            scan_depth: 20,
            diff_context: 0,
            ..Default::default()
        },
        ..AppConfig::default()
    };
    let mut settings = RuntimeSettings::from_config(&config, false, false);
    assert!(settings.adjust(ConfigField::ScanDepth, true).is_none());
    assert!(settings.adjust(ConfigField::DiffContext, false).is_none());
    assert!(settings.adjust(ConfigField::ScanDepth, false).is_some());
    assert_eq!(settings.scan_depth(), 19);
    settings.apply_to_config(&mut config);
    assert_eq!(config.prefs.diff_context, 0);
}

#[test]
fn only_mouse_adjustment_requests_external_effect() {
    let mut settings = RuntimeSettings::default();
    let change = settings.adjust(ConfigField::Mouse, true).unwrap();
    assert_eq!(change.effect, Some(SettingsEffect::SyncMouseCapture));
    let change = settings.adjust(ConfigField::Theme, true).unwrap();
    assert_eq!(change.effect, None);
}

#[test]
fn projection_updates_every_owned_field_and_preserves_the_rest() {
    let source = AppConfig {
        prefs: Preferences {
            theme: ThemeChoice::Light,
            mouse: false,
            check_updates: false,
            diff_show_full: true,
            ignore_trailing_newline: false,
            scan_depth: 5,
            diff_context: 7,
            ..Default::default()
        },
        ..AppConfig::default()
    };
    let settings = RuntimeSettings::from_config(&source, false, false);
    let mut target = AppConfig::default();
    target
        .pinned
        .push(PinnedMapping::fixture("/tmp/keep", "g1", "a.txt"));
    target.skip_dirs = vec!["keep-me".into()];
    settings.apply_to_config(&mut target);
    assert_eq!(
        target,
        AppConfig {
            pinned: target.pinned.clone(),
            skip_dirs: vec!["keep-me".into()],
            ..source
        }
    );
}

#[test]
fn toggling_a_flag_twice_restores_it() {
    let mut settings = RuntimeSettings::default();
    let before = settings.field_value(ConfigField::DiffShowFull);
    settings.adjust(ConfigField::DiffShowFull, true);
    assert_ne!(settings.field_value(ConfigField::DiffShowFull), before);
    settings.adjust(ConfigField::DiffShowFull, true);
    assert_eq!(settings.field_value(ConfigField::DiffShowFull), before);
}

#[test]
fn effective_diff_context_is_none_when_showing_full_diffs() {
    let mut settings = RuntimeSettings::default();
    assert_eq!(settings.effective_diff_context(), Some(3));
    settings.adjust(ConfigField::DiffShowFull, true);
    assert_eq!(settings.effective_diff_context(), None);
}

#[test]
fn every_field_is_listed_once() {
    let all = ConfigField::all();
    assert_eq!(all.len(), 8);
    for (i, a) in all.iter().enumerate() {
        for b in all.iter().skip(i + 1) {
            assert_ne!(a, b);
        }
    }
}
