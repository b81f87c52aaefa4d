//! Runtime ownership for persisted TUI settings and CLI force-off overrides.

use vstd::prelude::*;
use crate::config::{AppConfig, Preferences};
use crate::text::{dec, dec_string, owned};
use crate::theme::{theme_for, Theme, ThemeChoice};

verus! {

/// Fields shown on the Settings screen, in display order.
#[derive(Debug, Clone, Copy, PartialEq, Eq, Structural)]
pub enum ConfigField {
    Theme,
    Mouse,
    CheckUpdates,
    DiffShowFull,
    IgnoreTrailingNewline,
    NormalizeLineEndings,
    ScanDepth,
    DiffContext,
}

/// Whether `field` is an on/off preference.
pub open spec fn is_flag(field: ConfigField) -> bool {
    match field {
        ConfigField::Mouse | ConfigField::CheckUpdates | ConfigField::DiffShowFull
        | ConfigField::IgnoreTrailingNewline | ConfigField::NormalizeLineEndings => true,
        _ => false,
    }
}

/// Whether `field` holds a number.
pub open spec fn is_numeric_field(field: ConfigField) -> bool {
    field == ConfigField::ScanDepth || field == ConfigField::DiffContext
}

/// The upper bound a numeric field is adjusted within.
pub open spec fn numeric_max(field: ConfigField) -> u32 {
    if field == ConfigField::ScanDepth {
        20
    } else {
        50
    }
}

/// The Settings row label of `f`.
pub open spec fn label_text(f: ConfigField) -> Seq<char> {
    match f {
        ConfigField::Theme => "Theme"@,
        ConfigField::Mouse => "Mouse support"@,
        ConfigField::CheckUpdates => "Check for updates"@,
        ConfigField::DiffShowFull => "Show full diff"@,
        ConfigField::IgnoreTrailingNewline => "Ignore trailing newline"@,
        ConfigField::NormalizeLineEndings => "Normalize line endings"@,
        ConfigField::ScanDepth => "Recursive scan depth"@,
        ConfigField::DiffContext => "Diff context lines"@,
    }
}

/// The one-line description of `f`.
pub open spec fn description_text(f: ConfigField) -> Seq<char> {
    match f {
        ConfigField::Theme => "terminal colours"@,
        ConfigField::Mouse => "click and wheel input"@,
        ConfigField::CheckUpdates => "daily GitHub version check"@,
        ConfigField::DiffShowFull => "open Diff expanded"@,
        ConfigField::IgnoreTrailingNewline => "hide newline-only diffs"@,
        ConfigField::NormalizeLineEndings => "force LF on upload/create/download"@,
        ConfigField::ScanDepth => "directory levels to scan"@,
        ConfigField::DiffContext => "unchanged lines around edits"@,
    }
}

/// The line `f` gets in the Config help topic.
pub open spec fn help_text(f: ConfigField) -> Seq<char> {
    match f {
        ConfigField::Theme => "dark / light (also global T)"@,
        ConfigField::Mouse => "on / off (session still respects --no-mouse)"@,
        ConfigField::CheckUpdates => "on / off (session still respects --no-update-check)"@,
        ConfigField::DiffShowFull => "on / off (opens Diff expanded; c still toggles it)"@,
        ConfigField::IgnoreTrailingNewline => "on / off (diff + overwrite confirm)"@,
        ConfigField::NormalizeLineEndings => "on / off (LF in what upload, create, and download send / write)"@,
        ConfigField::ScanDepth => "0–20 (r recursive discovery)"@,
        ConfigField::DiffContext => "0–50 (c in Diff still toggles full vs this radius)"@,
    }
}

impl ConfigField {
    /// Every field, in display order.
    pub fn all() -> (v: Vec<ConfigField>)
        ensures
            v@ == seq![
                ConfigField::Theme,
                ConfigField::Mouse,
                ConfigField::CheckUpdates,
                ConfigField::DiffShowFull,
                ConfigField::IgnoreTrailingNewline,
                ConfigField::NormalizeLineEndings,
                ConfigField::ScanDepth,
                ConfigField::DiffContext,
            ],
    {
        vec![
            ConfigField::Theme,
            ConfigField::Mouse,
            ConfigField::CheckUpdates,
            ConfigField::DiffShowFull,
            ConfigField::IgnoreTrailingNewline,
            ConfigField::NormalizeLineEndings,
            ConfigField::ScanDepth,
            ConfigField::DiffContext,
        ]
    }

    /// The Settings row label.
    pub fn label(self) -> (s: &'static str)
        ensures
            s@ == label_text(self),
    {
        match self {
            ConfigField::Theme => "Theme",
            ConfigField::Mouse => "Mouse support",
            ConfigField::CheckUpdates => "Check for updates",
            ConfigField::DiffShowFull => "Show full diff",
            ConfigField::IgnoreTrailingNewline => "Ignore trailing newline",
            ConfigField::NormalizeLineEndings => "Normalize line endings",
            ConfigField::ScanDepth => "Recursive scan depth",
            ConfigField::DiffContext => "Diff context lines",
        }
    }

    /// The one-line description shown beside the label.
    pub fn description(self) -> (s: &'static str)
        ensures
            s@ == description_text(self),
    {
        match self {
            ConfigField::Theme => "terminal colours",
            ConfigField::Mouse => "click and wheel input",
            ConfigField::CheckUpdates => "daily GitHub version check",
            ConfigField::DiffShowFull => "open Diff expanded",
            ConfigField::IgnoreTrailingNewline => "hide newline-only diffs",
            ConfigField::NormalizeLineEndings => "force LF on upload/create/download",
            ConfigField::ScanDepth => "directory levels to scan",
            ConfigField::DiffContext => "unchanged lines around edits",
        }
    }

    /// The field's line in the Config topic of `?` help.
    pub fn help(self) -> (s: &'static str)
        ensures
            s@ == help_text(self),
    {
        match self {
            ConfigField::Theme => "dark / light (also global T)",
            ConfigField::Mouse => "on / off (session still respects --no-mouse)",
            ConfigField::CheckUpdates => "on / off (session still respects --no-update-check)",
            ConfigField::DiffShowFull => "on / off (opens Diff expanded; c still toggles it)",
            ConfigField::IgnoreTrailingNewline => "on / off (diff + overwrite confirm)",
            ConfigField::NormalizeLineEndings => {
                "on / off (LF in what upload, create, and download send / write)"
            },
            ConfigField::ScanDepth => "0–20 (r recursive discovery)",
            ConfigField::DiffContext => "0–50 (c in Diff still toggles full vs this radius)",
        }
    }

    /// Whether the field holds a number (scan depth, diff context).
    pub fn is_numeric(self) -> (r: bool)
        ensures
            r == is_numeric_field(self),
    {
        match self {
            ConfigField::ScanDepth | ConfigField::DiffContext => true,
            _ => false,
        }
    }
}

/// A side effect a settings change asks the event loop to perform.
#[derive(Debug, Clone, Copy, PartialEq, Eq, Structural)]
pub enum SettingsEffect {
    SyncMouseCapture,
}

/// What an applied adjustment reports.
#[derive(Debug, Clone, Copy, PartialEq, Eq, Structural)]
pub struct SettingsChange {
    pub effect: Option<SettingsEffect>,
}

/// The persisted preferences plus the session's CLI force-off overrides.
#[derive(Debug, Clone, PartialEq, Eq)]
pub struct RuntimeSettings {
    prefs: Preferences,
    no_mouse: bool,
    no_update_check: bool,
}

/// `p` with the on/off preference behind `field` flipped.
pub open spec fn toggle_flag(p: Preferences, field: ConfigField) -> Preferences {
    match field {
        ConfigField::Mouse => Preferences { mouse: !p.mouse, ..p },
        ConfigField::CheckUpdates => Preferences { check_updates: !p.check_updates, ..p },
        ConfigField::DiffShowFull => Preferences { diff_show_full: !p.diff_show_full, ..p },
        ConfigField::IgnoreTrailingNewline => Preferences {
            ignore_trailing_newline: !p.ignore_trailing_newline,
            ..p
        },
        ConfigField::NormalizeLineEndings => Preferences {
            normalize_line_endings: !p.normalize_line_endings,
            ..p
        },
        _ => p,
    }
}

/// The other theme.
pub open spec fn other_theme(t: ThemeChoice) -> ThemeChoice {
    match t {
        ThemeChoice::Dark => ThemeChoice::Light,
        ThemeChoice::Light => ThemeChoice::Dark,
    }
}

/// One numeric step: forward adds one (saturating) and caps at `max`; backward subtracts
/// one, saturating at 0.
pub open spec fn step_value(value: u32, max: u32, forward: bool) -> u32 {
    if forward {
        let up = if value == u32::MAX { value } else { (value + 1) as u32 };
        if up < max { up } else { max }
    } else {
        if value == 0 { 0 } else { (value - 1) as u32 }
    }
}

/// The value a numeric field holds in `p`.
pub open spec fn numeric_value(p: Preferences, field: ConfigField) -> u32 {
    if field == ConfigField::ScanDepth {
        p.scan_depth
    } else {
        p.diff_context
    }
}

/// `p` with a numeric field set to `v`.
pub open spec fn with_numeric(p: Preferences, field: ConfigField, v: u32) -> Preferences {
    if field == ConfigField::ScanDepth {
        Preferences { scan_depth: v, ..p }
    } else {
        Preferences { diff_context: v, ..p }
    }
}

/// The preferences after adjusting `field` in direction `forward`, and what the adjustment
/// reports: a flag flips (the mouse flag asking for a capture sync), the theme switches, and
/// a number steps within its bounds — reporting nothing when the step changes nothing.
pub open spec fn adjust_spec(p: Preferences, field: ConfigField, forward: bool) -> (
    Preferences,
    Option<SettingsChange>,
) {
    if is_flag(field) {
        (
            toggle_flag(p, field),
            Some(
                SettingsChange {
                    effect: if field == ConfigField::Mouse {
                        Some(SettingsEffect::SyncMouseCapture)
                    } else {
                        None
                    },
                },
            ),
        )
    } else if field == ConfigField::Theme {
        (Preferences { theme: other_theme(p.theme), ..p }, Some(SettingsChange { effect: None }))
    } else {
        let value = numeric_value(p, field);
        let next = step_value(value, numeric_max(field), forward);
        if next == value {
            (p, None)
        } else {
            (with_numeric(p, field, next), Some(SettingsChange { effect: None }))
        }
    }
}

/// `on` / `off`.
pub open spec fn on_off_text(on: bool) -> Seq<char> {
    if on {
        "on"@
    } else {
        "off"@
    }
}

/// The text the Settings screen shows for `field` under `p`.
pub open spec fn field_value_text(p: Preferences, field: ConfigField) -> Seq<char> {
    match field {
        ConfigField::Theme => match p.theme {
            ThemeChoice::Dark => "dark"@,
            ThemeChoice::Light => "light"@,
        },
        ConfigField::Mouse => on_off_text(p.mouse),
        ConfigField::CheckUpdates => on_off_text(p.check_updates),
        ConfigField::DiffShowFull => on_off_text(p.diff_show_full),
        ConfigField::IgnoreTrailingNewline => on_off_text(p.ignore_trailing_newline),
        ConfigField::NormalizeLineEndings => on_off_text(p.normalize_line_endings),
        ConfigField::ScanDepth => dec(p.scan_depth as nat),
        ConfigField::DiffContext => dec(p.diff_context as nat),
    }
}

/// How a sync compares and writes content.
#[derive(Debug, Clone, Copy, PartialEq, Eq, Structural)]
pub struct SyncPolicy {
    pub normalize_line_endings: bool,
    pub ignore_trailing_newline: bool,
}

fn on_off(on: bool) -> (s: String)
    ensures
        s@ == on_off_text(on),
{
    if on {
        owned("on")
    } else {
        owned("off")
    }
}

impl RuntimeSettings {
    /// The preferences these settings hold.
    pub closed spec fn prefs_view(&self) -> Preferences {
        self.prefs
    }

    /// Whether the session forces the mouse off.
    pub closed spec fn no_mouse_view(&self) -> bool {
        self.no_mouse
    }

    /// Whether the session forces the update check off.
    pub closed spec fn no_update_check_view(&self) -> bool {
        self.no_update_check
    }

    pub fn from_config(config: &AppConfig, no_mouse: bool, no_update_check: bool) -> (s: Self)
        ensures
            s.prefs_view() == config.prefs,
            s.no_mouse_view() == no_mouse,
            s.no_update_check_view() == no_update_check,
    {
        RuntimeSettings { prefs: config.prefs, no_mouse, no_update_check }
    }

    /// Flip the on/off preference behind `field`, if it is one; report whether it was.
    fn flag_mut(&mut self, field: ConfigField) -> (was_flag: bool)
        ensures
            was_flag == is_flag(field),
            final(self).prefs == toggle_flag(old(self).prefs, field),
            final(self).no_mouse == old(self).no_mouse,
            final(self).no_update_check == old(self).no_update_check,
    {
        match field {
            ConfigField::Mouse => {
                self.prefs.mouse = !self.prefs.mouse;
                true
            },
            ConfigField::CheckUpdates => {
                self.prefs.check_updates = !self.prefs.check_updates;
                true
            },
            ConfigField::DiffShowFull => {
                self.prefs.diff_show_full = !self.prefs.diff_show_full;
                true
            },
            ConfigField::IgnoreTrailingNewline => {
                self.prefs.ignore_trailing_newline = !self.prefs.ignore_trailing_newline;
                true
            },
            ConfigField::NormalizeLineEndings => {
                self.prefs.normalize_line_endings = !self.prefs.normalize_line_endings;
                true
            },
            ConfigField::Theme | ConfigField::ScanDepth | ConfigField::DiffContext => false,
        }
    }

    /// Adjust `field` one step (`forward` or back). `None` when the step changes nothing.
    pub fn adjust(&mut self, field: ConfigField, forward: bool) -> (r: Option<SettingsChange>)
        ensures
            (final(self).prefs_view(), r) == adjust_spec(old(self).prefs_view(), field, forward),
            final(self).no_mouse_view() == old(self).no_mouse_view(),
            final(self).no_update_check_view() == old(self).no_update_check_view(),
    {
        if self.flag_mut(field) {
            let effect = if field == ConfigField::Mouse {
                Some(SettingsEffect::SyncMouseCapture)
            } else {
                None
            };
            return Some(SettingsChange { effect });
        }
        match field {
            ConfigField::Theme => {
                self.prefs.theme = match self.prefs.theme {
                    ThemeChoice::Dark => ThemeChoice::Light,
                    ThemeChoice::Light => ThemeChoice::Dark,
                };
                Some(SettingsChange { effect: None })
            },
            _ => {
                let (value, max) = if field == ConfigField::ScanDepth {
                    (self.prefs.scan_depth, 20u32)
                } else {
                    (self.prefs.diff_context, 50u32)
                };
                let next = if forward {
                    let up = value.saturating_add(1);
                    if up < max {
                        up
                    } else {
                        max
                    }
                } else {
                    value.saturating_sub(1)
                };
                if next == value {
                    return None;
                }
                if field == ConfigField::ScanDepth {
                    self.prefs.scan_depth = next;
                } else {
                    self.prefs.diff_context = next;
                }
                Some(SettingsChange { effect: None })
            },
        }
    }

    /// Write every runtime-owned preference back into `config`, leaving pins, skip
    /// directories, and anything else in it alone.
    pub fn apply_to_config(&self, config: &mut AppConfig)
        ensures
            final(config).prefs == self.prefs_view(),
            final(config).pinned == old(config).pinned,
            final(config).skip_dirs == old(config).skip_dirs,
    {
        config.prefs = self.prefs;
    }

    /// The text the Settings screen shows for `field`.
    pub fn field_value(&self, field: ConfigField) -> (s: String)
        ensures
            s@ == field_value_text(self.prefs_view(), field),
    {
        let p = &self.prefs;
        match field {
            ConfigField::Theme => match p.theme {
                ThemeChoice::Dark => owned("dark"),
                ThemeChoice::Light => owned("light"),
            },
            ConfigField::Mouse => on_off(p.mouse),
            ConfigField::CheckUpdates => on_off(p.check_updates),
            ConfigField::DiffShowFull => on_off(p.diff_show_full),
            ConfigField::IgnoreTrailingNewline => on_off(p.ignore_trailing_newline),
            ConfigField::NormalizeLineEndings => on_off(p.normalize_line_endings),
            ConfigField::ScanDepth => dec_string(p.scan_depth as u64),
            ConfigField::DiffContext => dec_string(p.diff_context as u64),
        }
    }

    pub fn theme_choice(&self) -> (t: ThemeChoice)
        ensures
            t == self.prefs_view().theme,
    {
        self.prefs.theme
    }

    pub fn theme(&self) -> (t: Theme)
        ensures
            t == theme_for(self.prefs_view().theme),
    {
        Theme::for_choice(self.prefs.theme)
    }

    /// The mouse preference, forced off by `--no-mouse`.
    pub fn mouse_enabled(&self) -> (r: bool)
        ensures
            r == (self.prefs_view().mouse && !self.no_mouse_view()),
    {
        self.prefs.mouse && !self.no_mouse
    }

    /// The update-check preference, forced off by `--no-update-check`.
    pub fn update_check_enabled(&self) -> (r: bool)
        ensures
            r == (self.prefs_view().check_updates && !self.no_update_check_view()),
    {
        self.prefs.check_updates && !self.no_update_check
    }

    pub fn diff_show_full(&self) -> (r: bool)
        ensures
            r == self.prefs_view().diff_show_full,
    {
        self.prefs.diff_show_full
    }

    pub fn ignore_trailing_newline(&self) -> (r: bool)
        ensures
            r == self.prefs_view().ignore_trailing_newline,
    {
        self.prefs.ignore_trailing_newline
    }

    pub fn normalize_line_endings(&self) -> (r: bool)
        ensures
            r == self.prefs_view().normalize_line_endings,
    {
        self.prefs.normalize_line_endings
    }

    /// The Sync policy these settings describe.
    pub fn sync_policy(&self) -> (p: SyncPolicy)
        ensures
            p.normalize_line_endings == self.prefs_view().normalize_line_endings,
            p.ignore_trailing_newline == self.prefs_view().ignore_trailing_newline,
    {
        SyncPolicy {
            normalize_line_endings: self.prefs.normalize_line_endings,
            ignore_trailing_newline: self.prefs.ignore_trailing_newline,
        }
    }

    pub fn scan_depth(&self) -> (r: u32)
        ensures
            r == self.prefs_view().scan_depth,
    {
        self.prefs.scan_depth
    }

    pub fn diff_context(&self) -> (r: u32)
        ensures
            r == self.prefs_view().diff_context,
    {
        self.prefs.diff_context
    }

    /// The context radius a diff is built with: `None` (the whole file) when full diffs are
    /// on, else the configured radius.
    pub fn effective_diff_context(&self) -> (r: Option<usize>)
        ensures
            r == (if self.prefs_view().diff_show_full {
                None
            } else {
                Some(self.prefs_view().diff_context as usize)
            }),
    {
        if self.prefs.diff_show_full {
            None
        } else {
            Some(self.prefs.diff_context as usize)
        }
    }
}

impl Default for RuntimeSettings {
    fn default() -> (s: Self)
        ensures
            s.prefs_view() == crate::config::default_prefs(),
            !s.no_mouse_view(),
            !s.no_update_check_view(),
    {
        let config = AppConfig::default();
        Self::from_config(&config, false, false)
    }
}

/// Adjusting an on/off field or the theme twice, in either direction, restores every
/// preference.
pub proof fn law_toggle_twice_restores(p: Preferences, field: ConfigField, f1: bool, f2: bool)
    requires
        !is_numeric_field(field),
    ensures
        adjust_spec(adjust_spec(p, field, f1).0, field, f2).0 == p,
{
}

/// An adjustment reports no change exactly when it leaves every preference as it was.
pub proof fn law_none_iff_unchanged(p: Preferences, field: ConfigField, forward: bool)
    ensures
        adjust_spec(p, field, forward).1.is_none() <==> adjust_spec(p, field, forward).0 == p,
{
    if !is_flag(field) && field != ConfigField::Theme {
        let value = numeric_value(p, field);
        let next = step_value(value, numeric_max(field), forward);
        if next != value {
            assert(numeric_value(with_numeric(p, field, next), field) == next);
        }
    }
}

/// A forward step never leaves a numeric field above its bound, and a backward step from a
/// value within the bound stays within it.
pub proof fn law_numeric_stays_within_bounds(p: Preferences, field: ConfigField, forward: bool)
    requires
        is_numeric_field(field),
        forward || numeric_value(p, field) <= numeric_max(field),
    ensures
        numeric_value(adjust_spec(p, field, forward).0, field) <= numeric_max(field),
{
}

/// Only an adjustment of the mouse field asks the event loop for a side effect.
pub proof fn law_only_mouse_requests_an_effect(p: Preferences, field: ConfigField, forward: bool)
    ensures
        (adjust_spec(p, field, forward).1 matches Some(c) && c.effect.is_some()) <==> field
            == ConfigField::Mouse,
{
}

/// Every field shows the same value after its settings are written into a configuration and
/// read back from it, whatever the configuration held and whatever the CLI overrides are.
pub proof fn law_field_values_survive_save_and_reload(
    s: RuntimeSettings,
    target: AppConfig,
    field: ConfigField,
    no_mouse: bool,
    no_update_check: bool,
)
    ensures
        field_value_text(AppConfig { prefs: s.prefs_view(), ..target }.prefs, field)
            == field_value_text(s.prefs_view(), field),
{
}

/// Every field's value changes when it is adjusted forward from a fresh configuration.
pub proof fn law_every_field_changes_from_default(field: ConfigField)
    ensures
        adjust_spec(crate::config::default_prefs(), field, true).1.is_some(),
        field_value_text(adjust_spec(crate::config::default_prefs(), field, true).0, field)
            != field_value_text(crate::config::default_prefs(), field),
{
    let p = crate::config::default_prefs();
    let q = adjust_spec(p, field, true).0;
    reveal_strlit("on");
    reveal_strlit("off");
    reveal_strlit("dark");
    reveal_strlit("light");
    assert("on"@.len() != "off"@.len());
    assert("dark"@.len() != "light"@.len());
    if is_numeric_field(field) {
        lemma_dec_injective(numeric_value(q, field) as nat, numeric_value(p, field) as nat);
    }
}

/// Distinct numbers render differently.
pub proof fn lemma_dec_injective(a: nat, b: nat)
    requires
        a != b,
    ensures
        dec(a) != dec(b),
    decreases a + b,
{
    crate::text::lemma_dec_nonempty(a);
    crate::text::lemma_dec_nonempty(b);
    if a < 10 && b < 10 {
        assert(dec(a)[0] != dec(b)[0]);
    } else if a < 10 {
        crate::text::lemma_dec_nonempty(b / 10);
        assert(dec(b).len() >= 2);
    } else if b < 10 {
        crate::text::lemma_dec_nonempty(a / 10);
        assert(dec(a).len() >= 2);
    } else if a % 10 != b % 10 {
        assert(dec(a).last() != dec(b).last());
    } else {
        lemma_dec_injective(a / 10, b / 10);
        if dec(a) == dec(b) {
            assert(dec(a).drop_last() =~= dec(a / 10));
            assert(dec(b).drop_last() =~= dec(b / 10));
        }
    }
}

} // verus!
