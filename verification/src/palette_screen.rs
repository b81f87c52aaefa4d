//! The command palette and the context menu: their keys, what running an item does, the
//! rows they paint, and where the panel sits.

use vstd::prelude::*;
use crate::chrome::{Category, Rect, TextInput};
use crate::keys::{apply_edit, edit_spec, Key};
use crate::settings::{adjust_spec, field_value_text, ConfigField, RuntimeSettings, SettingsEffect};
use crate::state::Screen;
use crate::text::{owned, push_str};

verus! {

/// The palette's two forms: a menu of the screen's actions, or a command palette with a
/// query box.
#[derive(Debug, Clone, Copy, PartialEq, Eq, Structural)]
pub enum PaletteMode {
    Menu,
    Command,
}

/// What running a palette item does: press a key on the screen below, or one of the
/// actions that reach across screens.
#[derive(Debug, Clone, Copy, PartialEq, Eq, Structural)]
pub enum PaletteExec {
    Key(Key),
    GoToGists,
    GoToPins,
    OpenHelp,
    OpenConfig,
    ToggleTheme,
    Quit,
}

/// One palette item.
pub struct PaletteItem {
    pub key_hint: String,
    pub label: String,
    pub category: Category,
    pub enabled: bool,
    pub action: PaletteExec,
}

/// The palette's own state.
#[derive(Debug, Clone, PartialEq, Eq)]
pub struct PaletteState {
    pub mode: PaletteMode,
    pub query: TextInput,
    /// The highlighted row among the visible items.
    pub selected: usize,
    /// Where a menu opened by a click is anchored.
    pub anchor: Option<(u16, u16)>,
}

/// What a key on the palette asks the rest of the program to do.
#[derive(Debug, Clone, Copy, PartialEq, Eq, Structural)]
pub enum PaletteKeyOutcome {
    Nothing,
    /// Close the palette, back to the screen below.
    Close,
    /// Run the highlighted item.
    Execute,
    /// The query changed: the visible items are to be filtered again, and the highlight
    /// pulled back within them.
    QueryEdited,
}

/// The highlight after `Up` (one row up, stopping at the first) or `Down` (one row down,
/// stopping at the last of `len`).
pub open spec fn moved_selection(selected: usize, len: nat, down: bool) -> usize {
    if down {
        if len > 0 && selected + 1 < len {
            (selected + 1) as usize
        } else {
            selected
        }
    } else if selected > 0 {
        (selected - 1) as usize
    } else {
        0
    }
}

/// Apply `key` to the palette, which shows `len` items. `Esc` closes it (so does `;` in a
/// menu); `Up`/`Down` move the highlight; `Enter` runs the highlighted item. In a command
/// palette any other key edits the query, the highlight going back to the first row when
/// the query changed.
pub fn handle_key_palette(p: &mut PaletteState, key: Key, len: usize) -> (out: PaletteKeyOutcome)
    requires
        old(p).query.well_formed(),
        old(p).query.text_view().len() < usize::MAX,
    ensures
        final(p).query.well_formed(),
        final(p).mode == old(p).mode,
        final(p).anchor == old(p).anchor,
        key == Key::Up || key == Key::Down ==> {
            &&& out == PaletteKeyOutcome::Nothing
            &&& final(p).selected == moved_selection(old(p).selected, len as nat, key == Key::Down)
            &&& final(p).query == old(p).query
        },
        key == Key::Enter ==> out == PaletteKeyOutcome::Execute && final(p).selected == old(
            p,
        ).selected && final(p).query == old(p).query,
        key == Key::Esc ==> out == PaletteKeyOutcome::Close && final(p).selected == old(p).selected
            && final(p).query == old(p).query,
        !(key == Key::Up || key == Key::Down || key == Key::Enter || key == Key::Esc) ==> if old(
            p,
        ).mode == PaletteMode::Menu {
            &&& out == (if key == Key::Char(';') {
                PaletteKeyOutcome::Close
            } else {
                PaletteKeyOutcome::Nothing
            })
            &&& final(p).selected == old(p).selected
            &&& final(p).query == old(p).query
        } else {
            let e = edit_spec(old(p).query.text_view(), old(p).query.cursor_view(), key);
            &&& out == PaletteKeyOutcome::QueryEdited
            &&& (final(p).query.text_view(), final(p).query.cursor_view()) == e
            &&& final(p).selected == (if e.0 != old(p).query.text_view() {
                0
            } else {
                old(p).selected
            })
        },
{
    if key == Key::Up {
        if p.selected > 0 {
            p.selected = p.selected - 1;
        }
        return PaletteKeyOutcome::Nothing;
    }
    if key == Key::Down {
        if len > 0 && p.selected < len - 1 {
            p.selected = p.selected + 1;
        }
        return PaletteKeyOutcome::Nothing;
    }
    if key == Key::Enter {
        return PaletteKeyOutcome::Execute;
    }
    if key == Key::Esc {
        return PaletteKeyOutcome::Close;
    }
    match p.mode {
        PaletteMode::Menu => {
            if key == Key::Char(';') {
                PaletteKeyOutcome::Close
            } else {
                PaletteKeyOutcome::Nothing
            }
        },
        PaletteMode::Command => {
            let changed = apply_edit(&mut p.query, key);
            if changed {
                p.selected = 0;
            }
            PaletteKeyOutcome::QueryEdited
        },
    }
}

/// Pull the highlight back onto the last of `len` visible items (the first when none).
pub fn clamp_selection(p: &mut PaletteState, len: usize)
    ensures
        final(p).selected == (if len == 0 {
            0
        } else if old(p).selected >= len {
            (len - 1) as usize
        } else {
            old(p).selected
        }),
        final(p).mode == old(p).mode,
        final(p).query == old(p).query,
        final(p).anchor == old(p).anchor,
{
    if len == 0 {
        p.selected = 0;
    } else if p.selected >= len {
        p.selected = len - 1;
    }
}

/// What running the highlighted palette item asks for. The palette is closed and the screen
/// below restored first, whatever the item does.
#[derive(Debug, Clone, PartialEq, Eq)]
pub enum PaletteRun {
    /// No item is highlighted, or it is disabled: the palette stays.
    Nothing,
    /// Press `key` on the screen below.
    PressKey(Key),
    GoToGists,
    GoToPins,
    OpenHelp,
    OpenConfig,
    /// The theme was switched: save the settings, then show `success_message`.
    PersistSettings { effect: Option<SettingsEffect>, success_message: String },
    Quit,
}

/// Run the highlighted item among the visible `items`. A missing or disabled item does
/// nothing; the theme toggle switches the theme in `settings` and reports it as
/// `Theme: <value>`.
pub fn execute_palette_selection(
    items: &[PaletteItem],
    selected: usize,
    settings: &mut RuntimeSettings,
) -> (out: PaletteRun)
    ensures
        ({
            let runs = selected < items@.len() && items@[selected as int].enabled;
            let toggles = runs && items@[selected as int].action == PaletteExec::ToggleTheme;
            &&& final(settings).prefs_view() == (if toggles {
                adjust_spec(old(settings).prefs_view(), ConfigField::Theme, true).0
            } else {
                old(settings).prefs_view()
            })
            &&& final(settings).no_mouse_view() == old(settings).no_mouse_view()
            &&& final(settings).no_update_check_view() == old(settings).no_update_check_view()
            &&& if !runs {
                out == PaletteRun::Nothing
            } else {
                match items@[selected as int].action {
                    PaletteExec::Key(k) => out == PaletteRun::PressKey(k),
                    PaletteExec::GoToGists => out == PaletteRun::GoToGists,
                    PaletteExec::GoToPins => out == PaletteRun::GoToPins,
                    PaletteExec::OpenHelp => out == PaletteRun::OpenHelp,
                    PaletteExec::OpenConfig => out == PaletteRun::OpenConfig,
                    PaletteExec::Quit => out == PaletteRun::Quit,
                    PaletteExec::ToggleTheme => out matches PaletteRun::PersistSettings {
                        effect,
                        success_message,
                    } && effect is None && success_message@ == "Theme: "@ + field_value_text(
                        final(settings).prefs_view(),
                        ConfigField::Theme,
                    ),
                }
            }
        }),
{
    if selected >= items.len() || !items[selected].enabled {
        return PaletteRun::Nothing;
    }
    match items[selected].action {
        PaletteExec::Key(k) => PaletteRun::PressKey(k),
        PaletteExec::GoToGists => PaletteRun::GoToGists,
        PaletteExec::GoToPins => PaletteRun::GoToPins,
        PaletteExec::OpenHelp => PaletteRun::OpenHelp,
        PaletteExec::OpenConfig => PaletteRun::OpenConfig,
        PaletteExec::Quit => PaletteRun::Quit,
        PaletteExec::ToggleTheme => {
            let change = settings.adjust(ConfigField::Theme, true);
            let mut m = owned("Theme: ");
            let v = settings.field_value(ConfigField::Theme);
            push_str(&mut m, v.as_str());
            let effect = match change {
                Some(c) => c.effect,
                None => None,
            };
            PaletteRun::PersistSettings { effect, success_message: m }
        },
    }
}

/// A palette row as painted.
pub struct PaletteRowVm {
    pub key_hint: String,
    pub label: String,
    pub category: Category,
    pub enabled: bool,
}

/// What the palette paints over the screen below.
pub struct PaletteVm {
    pub title: &'static str,
    /// A query box is shown (command palette).
    pub has_query: bool,
    pub query: TextInput,
    pub selected: usize,
    pub items: Vec<PaletteRowVm>,
    /// Cells the widest key hint takes, at least one.
    pub key_width: usize,
    pub mode: PaletteMode,
    pub anchor: Option<(u16, u16)>,
}

/// Cells of the widest key hint among the first `n` items, at least one.
pub open spec fn key_width_spec(items: Seq<PaletteItem>, n: int) -> nat
    decreases n,
{
    if n <= 0 {
        1
    } else {
        let w = items[n - 1].key_hint@.len();
        let rest = key_width_spec(items, n - 1);
        if w > rest {
            w
        } else {
            rest
        }
    }
}

/// Whether a palette over `origin` paints that screen behind it: not over a confirm, which
/// stays blank behind the panel.
pub fn paints_background(origin: &Screen) -> (r: bool)
    ensures
        r == !(*origin is Confirm),
{
    match origin {
        Screen::Confirm(_) => false,
        _ => true,
    }
}

/// Build what the palette paints from its state and its visible `items`.
pub fn build_palette_vm(p: &PaletteState, items: &[PaletteItem]) -> (vm: PaletteVm)
    ensures
        vm.title@ == (match p.mode {
            PaletteMode::Menu => "Menu"@,
            PaletteMode::Command => "Command palette"@,
        }),
        vm.has_query == (p.mode == PaletteMode::Command),
        vm.query.text_view() == p.query.text_view(),
        vm.query.cursor_view() == p.query.cursor_view(),
        vm.selected == p.selected,
        vm.mode == p.mode,
        vm.anchor == p.anchor,
        vm.key_width == key_width_spec(items@, items@.len() as int),
        vm.items@.len() == items@.len(),
        forall|i: int|
            0 <= i < items@.len() ==> {
                &&& vm.items@[i].key_hint@ == items@[i].key_hint@
                &&& vm.items@[i].label@ == items@[i].label@
                &&& vm.items@[i].category == items@[i].category
                &&& vm.items@[i].enabled == items@[i].enabled
            },
{
    let mut rows: Vec<PaletteRowVm> = Vec::new();
    let mut width: usize = 1;
    let mut i: usize = 0;
    while i < items.len()
        invariant
            i <= items@.len(),
            rows@.len() == i,
            width == key_width_spec(items@, i as int),
            forall|j: int|
                0 <= j < i ==> {
                    &&& rows@[j].key_hint@ == items@[j].key_hint@
                    &&& rows@[j].label@ == items@[j].label@
                    &&& rows@[j].category == items@[j].category
                    &&& rows@[j].enabled == items@[j].enabled
                },
        decreases items@.len() - i,
    {
        let it = &items[i];
        let w = it.key_hint.unicode_len();
        if w > width {
            width = w;
        }
        rows.push(
            PaletteRowVm {
                key_hint: owned(it.key_hint.as_str()),
                label: owned(it.label.as_str()),
                category: it.category,
                enabled: it.enabled,
            },
        );
        i = i + 1;
    }
    PaletteVm {
        title: match p.mode {
            PaletteMode::Menu => "Menu",
            PaletteMode::Command => "Command palette",
        },
        has_query: p.mode == PaletteMode::Command,
        query: p.query.duplicate(),
        selected: p.selected,
        items: rows,
        key_width: width,
        mode: p.mode,
        anchor: p.anchor,
    }
}

/// Cells the widest palette row takes among the first `n`: two cells of margin, the key
/// column, two cells of gutter, the label; 20 when there are no rows.
pub open spec fn content_width_spec(items: Seq<PaletteRowVm>, key_width: nat, n: int) -> nat
    decreases n,
{
    if n <= 0 {
        20
    } else {
        let w = 2 + key_width + 2 + items[n - 1].label@.len();
        let rest = if n == 1 {
            0
        } else {
            content_width_spec(items, key_width, n - 1)
        };
        if w > rest {
            w
        } else {
            rest
        }
    }
}

/// `v` clamped into `[lo, hi]`.
pub open spec fn clamp_spec(v: int, lo: int, hi: int) -> int {
    if v < lo {
        lo
    } else if v > hi {
        hi
    } else {
        v
    }
}

/// `a - b`, or 0.
pub open spec fn sat_sub(a: int, b: int) -> int {
    if a > b {
        a - b
    } else {
        0
    }
}

/// Where the palette panel sits on a screen of `area`: a command palette takes 70% of the
/// width and a menu 45%, never less than its widest row plus a border, never more than the
/// screen less a cell on each side; it is as tall as its rows (one at least) plus the query
/// line and a border, within the screen less a row above and below. A menu opened by a click
/// is centred on the click column and starts just above it; anything else is centred near
/// the bottom.
pub open spec fn palette_rect_spec(vm: PaletteVm, area: Rect) -> Rect {
    let n = vm.items@.len();
    let content = content_width_spec(vm.items@, vm.key_width as nat, n as int);
    let min_w = if content + 4 > u16::MAX {
        u16::MAX as int
    } else {
        (content + 4) as int
    };
    let max_w = if area.width >= 3 {
        area.width - 2
    } else {
        1
    };
    let width = clamp_spec(
        if vm.has_query {
            area.width * 70 / 100
        } else {
            area.width * 45 / 100
        },
        min_w,
        max_w,
    );
    let body = (if n > 0 {
        n as int
    } else {
        1
    }) + (if vm.has_query {
        1int
    } else {
        0
    });
    let max_h = if area.height >= 3 {
        area.height - 2
    } else {
        1
    };
    let height = clamp_spec(body + 2, 3, max_h);
    let (x, y) = match (vm.mode, vm.anchor) {
        (PaletteMode::Menu, Some((col, row))) => {
            let cx = sat_sub(col as int, width / 2);
            let cy = sat_sub(row as int, 1);
            (
                if cx < sat_sub(area.width as int, width) {
                    cx
                } else {
                    sat_sub(area.width as int, width)
                },
                if cy < sat_sub(area.height as int, height) {
                    cy
                } else {
                    sat_sub(area.height as int, height)
                },
            )
        },
        _ => (sat_sub(area.width as int, width) / 2, sat_sub(sat_sub(area.height as int, height), 1)),
    };
    Rect { x: x as u16, y: y as u16, width: width as u16, height: height as u16 }
}

/// Every row is no wider than the widest.
proof fn lemma_rows_within(items: Seq<PaletteRowVm>, kw: nat, n: int)
    requires
        0 < n <= items.len(),
    ensures
        forall|j: int| 0 <= j < n ==> 2 + kw + 2 + items[j].label@.len() <= content_width_spec(
            items,
            kw,
            n,
        ),
    decreases n,
{
    if n > 1 {
        lemma_rows_within(items, kw, n - 1);
    }
}

/// Where the palette panel sits on a screen of `area` (see [`palette_rect_spec`]). The
/// screen must leave room for the panel: at least five rows, and as wide as the widest row
/// plus a border and a cell on each side.
pub fn palette_rect(vm: &PaletteVm, area: Rect) -> (r: Rect)
    requires
        area.height >= 5,
        content_width_spec(vm.items@, vm.key_width as nat, vm.items@.len() as int) + 4 <= (if area.width
            >= 3 {
            area.width - 2
        } else {
            1
        }),
    ensures
        r == palette_rect_spec(*vm, area),
{
    let n = vm.items.len();
    let ghost kw = vm.key_width as nat;
    proof {
        if n > 0 {
            lemma_rows_within(vm.items@, kw, n as int);
        }
    }
    let mut best: usize = 0;
    let mut i: usize = 0;
    while i < n
        invariant
            i <= n,
            n == vm.items@.len(),
            kw == vm.key_width as nat,
            i == 0 ==> best == 0,
            i > 0 ==> best == content_width_spec(vm.items@, kw, i as int),
            n > 0 ==> forall|j: int|
                0 <= j < n ==> 2 + kw + 2 + vm.items@[j].label@.len() <= content_width_spec(
                    vm.items@,
                    kw,
                    n as int,
                ),
            content_width_spec(vm.items@, kw, n as int) <= u16::MAX,
        decreases n - i,
    {
        assert(2 + kw + 2 + vm.items@[i as int].label@.len() <= u16::MAX);
        let w = 2 + vm.key_width + 2 + vm.items[i].label.unicode_len();
        if w > best {
            best = w;
        }
        i = i + 1;
    }
    let content: u32 = if n == 0 {
        20
    } else {
        best as u32
    };
    let min_w: u32 = content + 4;
    let max_w: u32 = if area.width >= 3 {
        (area.width - 2) as u32
    } else {
        1
    };
    let base: u32 = if vm.has_query {
        (area.width as u32) * 70 / 100
    } else {
        (area.width as u32) * 45 / 100
    };
    let width: u32 = if base < min_w {
        min_w
    } else if base > max_w {
        max_w
    } else {
        base
    };
    let body: u32 = (if n > 0 {
        if n > 70000 {
            70000u32
        } else {
            n as u32
        }
    } else {
        1
    }) + (if vm.has_query {
        1u32
    } else {
        0
    });
    let max_h: u32 = (area.height - 2) as u32;
    let height: u32 = if body + 2 > max_h {
        max_h
    } else {
        body + 2
    };
    let aw = area.width as u32;
    let ah = area.height as u32;
    let (x, y) = match (vm.mode, vm.anchor) {
        (PaletteMode::Menu, Some((col, row))) => {
            let cx: u32 = if (col as u32) > width / 2 {
                col as u32 - width / 2
            } else {
                0
            };
            let cy: u32 = if row > 1 {
                (row - 1) as u32
            } else {
                0
            };
            let room_x: u32 = if aw > width {
                aw - width
            } else {
                0
            };
            let room_y: u32 = if ah > height {
                ah - height
            } else {
                0
            };
            (if cx < room_x {
                cx
            } else {
                room_x
            }, if cy < room_y {
                cy
            } else {
                room_y
            })
        },
        _ => {
            let room_x: u32 = if aw > width {
                aw - width
            } else {
                0
            };
            let room_y: u32 = if ah > height {
                ah - height
            } else {
                0
            };
            (room_x / 2, if room_y > 1 {
                room_y - 1
            } else {
                0
            })
        },
    };
    Rect { x: x as u16, y: y as u16, width: width as u16, height: height as u16 }
}

} // verus!
