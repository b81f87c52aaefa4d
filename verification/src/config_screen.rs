//! The Settings screen: one row per preference, keys that move between rows and change the
//! selected value, and the message each change reports once saved.

use vstd::prelude::*;
use crate::detail_keys::{index_at_spec, point_in, point_in_spec, PaneHit};
use crate::keys::{Key, NavAction};
use crate::settings::{
    adjust_spec, description_text, field_value_text, is_numeric_field, label_text, ConfigField,
    RuntimeSettings, SettingsEffect,
};
use crate::text::{owned, push_char, push_str};

verus! {

/// State of the Settings screen: the selected row.
#[derive(Debug, Clone, Copy, PartialEq, Eq, Structural)]
pub struct ConfigState {
    pub index: usize,
}

/// Number of rows (one per preference).
pub const FIELD_COUNT: usize = 8;

/// The preferences, in display order.
pub open spec fn fields() -> Seq<ConfigField> {
    seq![
        ConfigField::Theme,
        ConfigField::Mouse,
        ConfigField::CheckUpdates,
        ConfigField::DiffShowFull,
        ConfigField::IgnoreTrailingNewline,
        ConfigField::NormalizeLineEndings,
        ConfigField::ScanDepth,
        ConfigField::DiffContext,
    ]
}

/// The field on row `i` (the theme when `i` is past the end).
pub open spec fn field_at(i: int) -> ConfigField {
    if 0 <= i < fields().len() {
        fields()[i]
    } else {
        ConfigField::Theme
    }
}

/// What a key on the Settings screen asks the rest of the program to do.
#[derive(Debug, Clone, PartialEq, Eq)]
pub enum ConfigAction {
    Nothing,
    Leave,
    OpenHelp,
    /// Save the settings; perform `effect`; report `success_message` once saved.
    PersistSettings { effect: Option<SettingsEffect>, success_message: String },
}

/// The message a change of `field` reports: the field's label and its new value.
pub open spec fn change_message(s: RuntimeSettings, field: ConfigField) -> Seq<char> {
    label_text(field) + ": "@ + field_value_text(s.prefs_view(), field)
}

fn field_on(index: usize) -> (f: ConfigField)
    ensures
        f == field_at(index as int),
{
    let all = ConfigField::all();
    if index < all.len() {
        all[index]
    } else {
        ConfigField::Theme
    }
}

/// Toggle or nudge the selected field. `None` when the step changes nothing; otherwise the
/// change's effect and the message to report once it is saved.
pub fn adjust_config_field(cfg: &ConfigState, settings: &mut RuntimeSettings, forward: bool) -> (r: Option<(Option<SettingsEffect>, String)>)
    ensures
        ({
            let field = field_at(cfg.index as int);
            let (p, change) = adjust_spec(old(settings).prefs_view(), field, forward);
            &&& final(settings).prefs_view() == p
            &&& final(settings).no_mouse_view() == old(settings).no_mouse_view()
            &&& final(settings).no_update_check_view() == old(settings).no_update_check_view()
            &&& match change {
                Some(c) => r matches Some((effect, message)) && effect == c.effect && message@
                    == change_message(*final(settings), field),
                None => r is None,
            }
        }),
{
    let field = field_on(cfg.index);
    let change = settings.adjust(field, forward);
    match change {
        Some(c) => {
            let mut message = owned(field.label());
            push_str(&mut message, ": ");
            let value = settings.field_value(field);
            push_str(&mut message, value.as_str());
            Some((c.effect, message))
        },
        None => None,
    }
}

/// The row a move lands on: up stops at the first row, down at the last.
pub open spec fn moved_index(index: usize, down: bool) -> usize {
    if down {
        if index + 1 < FIELD_COUNT {
            (index + 1) as usize
        } else {
            index
        }
    } else if index == 0 {
        0
    } else {
        (index - 1) as usize
    }
}

fn move_index(cfg: &mut ConfigState, down: bool)
    ensures
        final(cfg).index == moved_index(old(cfg).index, down),
{
    if down {
        if cfg.index < FIELD_COUNT - 1 {
            cfg.index = cfg.index + 1;
        }
    } else if cfg.index > 0 {
        cfg.index = cfg.index - 1;
    }
}

/// Whether `key` moves the selection down (`Some(true)`), up (`Some(false)`), or neither.
pub open spec fn move_of(key: Key) -> Option<bool> {
    match key {
        Key::Up | Key::Char('k') => Some(false),
        Key::Down | Key::Char('j') => Some(true),
        _ => None,
    }
}

/// Whether `key` steps the selected field forward (`Some(true)`), back (`Some(false)`), or
/// neither.
pub open spec fn step_of(key: Key) -> Option<bool> {
    match key {
        Key::Enter | Key::Char(' ') | Key::Right | Key::Char('l') => Some(true),
        Key::Left | Key::Char('h') => Some(false),
        _ => None,
    }
}

/// Keys on the Settings screen: `q`/Esc leave, Up/Down (`k`/`j`) move between rows,
/// Enter/Space/Right (`l`) step the selected field forward and Left (`h`) back — asking to
/// persist when the step changed something — and `?` opens help.
pub fn handle_key_config(cfg: &mut ConfigState, settings: &mut RuntimeSettings, key: Key) -> (a: ConfigAction)
    ensures
        key == Key::Char('q') || key == Key::Esc ==> a == ConfigAction::Leave && *final(cfg)
            == *old(cfg) && *final(settings) == *old(settings),
        key == Key::Char('?') ==> a == ConfigAction::OpenHelp && *final(cfg) == *old(cfg)
            && *final(settings) == *old(settings),
        move_of(key) matches Some(down) ==> a == ConfigAction::Nothing && final(cfg).index
            == moved_index(old(cfg).index, down) && *final(settings) == *old(settings),
        step_of(key) matches Some(forward) ==> {
            let field = field_at(old(cfg).index as int);
            let (p, change) = adjust_spec(old(settings).prefs_view(), field, forward);
            &&& *final(cfg) == *old(cfg)
            &&& final(settings).prefs_view() == p
            &&& final(settings).no_mouse_view() == old(settings).no_mouse_view()
            &&& final(settings).no_update_check_view() == old(settings).no_update_check_view()
            &&& match change {
                Some(c) => a matches ConfigAction::PersistSettings { effect, success_message }
                    && effect == c.effect && success_message@ == change_message(
                    *final(settings),
                    field,
                ),
                None => a == ConfigAction::Nothing,
            }
        },
        !(key == Key::Char('q') || key == Key::Esc || key == Key::Char('?') || move_of(key) is Some
            || step_of(key) is Some) ==> a == ConfigAction::Nothing && *final(cfg) == *old(cfg)
            && *final(settings) == *old(settings),
{
    match key {
        Key::Esc => ConfigAction::Leave,
        Key::Up => {
            move_index(cfg, false);
            ConfigAction::Nothing
        },
        Key::Down => {
            move_index(cfg, true);
            ConfigAction::Nothing
        },
        Key::Enter | Key::Right => match adjust_config_field(cfg, settings, true) {
            Some((effect, success_message)) => ConfigAction::PersistSettings { effect, success_message },
            None => ConfigAction::Nothing,
        },
        Key::Left => match adjust_config_field(cfg, settings, false) {
            Some((effect, success_message)) => ConfigAction::PersistSettings { effect, success_message },
            None => ConfigAction::Nothing,
        },
        Key::Char(c) => if c == 'q' {
            ConfigAction::Leave
        } else if c == 'k' {
            move_index(cfg, false);
            ConfigAction::Nothing
        } else if c == 'j' {
            move_index(cfg, true);
            ConfigAction::Nothing
        } else if c == ' ' || c == 'l' {
            match adjust_config_field(cfg, settings, true) {
                Some((effect, success_message)) => ConfigAction::PersistSettings {
                    effect,
                    success_message,
                },
                None => ConfigAction::Nothing,
            }
        } else if c == 'h' {
            match adjust_config_field(cfg, settings, false) {
                Some((effect, success_message)) => ConfigAction::PersistSettings {
                    effect,
                    success_message,
                },
                None => ConfigAction::Nothing,
            }
        } else if c == '?' {
            ConfigAction::OpenHelp
        } else {
            ConfigAction::Nothing
        },
        _ => ConfigAction::Nothing,
    }
}

/// Arrow navigation on the Settings screen: Up and Down move the selection; other moves are
/// not navigation here (Left/Right change the value, which needs a save).
pub fn apply_navigation_config(cfg: &mut ConfigState, action: NavAction) -> (r: bool)
    ensures
        action == NavAction::Up ==> r && final(cfg).index == moved_index(old(cfg).index, false),
        action == NavAction::Down ==> r && final(cfg).index == moved_index(old(cfg).index, true),
        !(action == NavAction::Up || action == NavAction::Down) ==> !r && *final(cfg) == *old(cfg),
{
    match action {
        NavAction::Up => {
            move_index(cfg, false);
            true
        },
        NavAction::Down => {
            move_index(cfg, true);
            true
        },
        _ => false,
    }
}

/// Select the clicked row; `true` when a row was hit.
pub fn click_select_config(cfg: &mut ConfigState, col: u16, row: u16, pane: Option<PaneHit>) -> (r: bool)
    ensures
        match pane {
            Some(hit) => if point_in_spec(hit.rect, col as int, row as int) {
                match index_at_spec(hit, row as int, FIELD_COUNT as nat) {
                    Some(i) => r && final(cfg).index == i,
                    None => !r && *final(cfg) == *old(cfg),
                }
            } else {
                !r && *final(cfg) == *old(cfg)
            },
            None => !r && *final(cfg) == *old(cfg),
        },
{
    if let Some(hit) = pane {
        if point_in(hit.rect, col, row) {
            if let Some(idx) = hit.index_at(row, FIELD_COUNT) {
                cfg.index = idx;
                return true;
            }
        }
    }
    false
}

/// `t` padded with spaces to `w` characters (left-aligned; never cut).
pub open spec fn pad(t: Seq<char>, w: nat) -> Seq<char> {
    if t.len() >= w {
        t
    } else {
        t + Seq::new((w - t.len()) as nat, |i: int| ' ')
    }
}

fn push_padded(s: &mut String, t: &str, w: usize)
    ensures
        final(s)@ == old(s)@ + pad(t@, w as nat),
{
    push_str(s, t);
    let n = t.unicode_len();
    let ghost base = s@;
    if n < w {
        let mut k: usize = n;
        while k < w
            invariant
                n <= k <= w,
                n == t@.len(),
                s@ == base + Seq::new((k - n) as nat, |i: int| ' '),
            decreases w - k,
        {
            push_char(s, ' ');
            k = k + 1;
            assert(s@ =~= base + Seq::new((k - n) as nat, |i: int| ' '));
        }
    }
    assert(s@ =~= old(s)@ + pad(t@, w as nat));
}

/// The row a field gets: label and value in aligned columns, then the description and the
/// key that changes it.
pub open spec fn config_row(settings: RuntimeSettings, field: ConfigField) -> Seq<char> {
    "  "@ + pad(label_text(field), 23) + " "@ + pad(field_value_text(settings.prefs_view(), field), 5)
        + " "@ + description_text(field) + " ("@ + (if is_numeric_field(field) {
        "←/→"@
    } else {
        "Enter"@
    }) + ")"@
}

/// What the Settings screen paints: its rows, the selected one, and the status message.
#[derive(Debug, Clone, PartialEq, Eq)]
pub struct ConfigVm {
    pub rows: Vec<String>,
    pub selected: usize,
    pub status: Option<String>,
}

/// The Settings rows for `settings`, row `selected` selected, with `status` below.
pub fn build_config_vm(settings: &RuntimeSettings, selected: usize, status: Option<String>) -> (vm: ConfigVm)
    ensures
        vm.rows@.len() == fields().len(),
        forall|i: int| 0 <= i < vm.rows@.len() ==> #[trigger] vm.rows@[i]@ == config_row(*settings, fields()[i]),
        vm.selected == selected,
        vm.status == status,
{
    let all = ConfigField::all();
    let mut rows: Vec<String> = Vec::new();
    let mut i: usize = 0;
    while i < all.len()
        invariant
            all@ == fields(),
            i <= all@.len(),
            rows@.len() == i,
            forall|k: int| 0 <= k < i ==> #[trigger] rows@[k]@ == config_row(*settings, fields()[k]),
        decreases all@.len() - i,
    {
        let field = all[i];
        let mut row = owned("  ");
        push_padded(&mut row, field.label(), 23);
        push_str(&mut row, " ");
        let value = settings.field_value(field);
        push_padded(&mut row, value.as_str(), 5);
        push_str(&mut row, " ");
        push_str(&mut row, field.description());
        push_str(&mut row, " (");
        push_str(&mut row, if field.is_numeric() {
            "←/→"
        } else {
            "Enter"
        });
        push_str(&mut row, ")");
        rows.push(row);
        i = i + 1;
    }
    ConfigVm { rows, selected, status }
}

} // verus!
