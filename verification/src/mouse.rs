//! Where a click lands: the targets a frame registered while painting, and the top bar's
//! shortcuts, which open their screen from wherever the user is.

use vstd::prelude::*;
use crate::chrome::Rect;
use crate::config_screen::ConfigState;
use crate::gists_screen::GistsState;
use crate::help::HelpState;
use crate::pins_screen::PinsState;
use crate::screens::{help_opened_on, help_topic_for};
use crate::state::{went_back, AppState, Screen};

verus! {

/// Something a click can hit.
#[derive(Debug, Clone, Copy, PartialEq, Eq, Structural)]
pub enum HitTarget {
    /// The top bar's `(g)ists` shortcut.
    TopGists,
    /// The top bar's `(p)ins` shortcut.
    TopPins,
    /// The top bar's `(c)onfig` shortcut.
    TopConfig,
    /// The top bar's `(?)help` shortcut.
    TopHelp,
    /// A modal's close button.
    Close,
    /// Row `n` of the list on display.
    Row(usize),
}

/// The targets one painted frame registered, in painting order.
#[derive(Debug, Clone, PartialEq, Eq)]
pub struct MouseFrame {
    pub targets: Vec<(HitTarget, Rect)>,
}

/// Cell (`col`, `row`) lies in `r`.
pub open spec fn in_rect(r: Rect, col: u16, row: u16) -> bool {
    r.x <= col < r.x + r.width && r.y <= row < r.y + r.height
}

/// The target hit at (`col`, `row`) among the first `n` registered: the last registered one
/// that covers the cell, since what is painted later lies on top.
pub open spec fn resolve_spec(targets: Seq<(HitTarget, Rect)>, col: u16, row: u16, n: nat) -> Option<HitTarget>
    decreases n,
{
    if n == 0 {
        None
    } else if in_rect(targets[n - 1].1, col, row) {
        Some(targets[n - 1].0)
    } else {
        resolve_spec(targets, col, row, (n - 1) as nat)
    }
}

/// The top bar's shortcut at position `index`, left to right: gists, pins, config, then help.
pub open spec fn top_bar_target_spec(index: usize) -> HitTarget {
    if index == 0 {
        HitTarget::TopGists
    } else if index == 1 {
        HitTarget::TopPins
    } else if index == 2 {
        HitTarget::TopConfig
    } else {
        HitTarget::TopHelp
    }
}

/// The target the top bar's shortcut at `index` registers (see [`top_bar_target_spec`]).
pub fn top_bar_target(index: usize) -> (t: HitTarget)
    ensures
        t == top_bar_target_spec(index),
{
    if index == 0 {
        HitTarget::TopGists
    } else if index == 1 {
        HitTarget::TopPins
    } else if index == 2 {
        HitTarget::TopConfig
    } else {
        HitTarget::TopHelp
    }
}

impl MouseFrame {
    /// A frame with nothing registered yet.
    pub fn new() -> (f: MouseFrame)
        ensures
            f.targets@.len() == 0,
    {
        MouseFrame { targets: Vec::new() }
    }

    /// Register `target` as painted over `area`.
    pub fn register(&mut self, target: HitTarget, area: Rect)
        ensures
            final(self).targets@ == old(self).targets@.push((target, area)),
    {
        self.targets.push((target, area));
    }

    /// The target a click at (`col`, `row`) hits (see [`resolve_spec`]).
    pub fn resolve(&self, col: u16, row: u16) -> (r: Option<HitTarget>)
        ensures
            r == resolve_spec(self.targets@, col, row, self.targets@.len()),
    {
        let mut i: usize = self.targets.len();
        while i > 0
            invariant
                i <= self.targets@.len(),
                forall|k: int|
                    i <= k < self.targets@.len() ==> !in_rect(
                        #[trigger] self.targets@[k].1,
                        col,
                        row,
                    ),
                resolve_spec(self.targets@, col, row, self.targets@.len()) == resolve_spec(
                    self.targets@,
                    col,
                    row,
                    i as nat,
                ),
            decreases i,
        {
            let (target, r) = self.targets[i - 1];
            let inside = r.x <= col && (col as u32) < (r.x as u32) + (r.width as u32) && r.y <= row
                && (row as u32) < (r.y as u32) + (r.height as u32);
            if inside {
                return Some(target);
            }
            i = i - 1;
        }
        None
    }
}

/// A screen the top bar opens over the one on display, by kind: the gist manager, the pins
/// and the settings as they open, or the help page in the given state.
#[derive(Debug, Clone, Copy, PartialEq, Eq, Structural)]
pub enum TopScreen {
    Gists,
    Pins,
    Config,
    Help(HelpState),
}

/// The screen a top-bar shortcut opens over `from`: the gist manager, the pins, the
/// settings, or the help page on `from`'s topic.
pub open spec fn top_bar_screen(target: HitTarget, from: Screen) -> Option<TopScreen> {
    match target {
        HitTarget::TopGists => Some(TopScreen::Gists),
        HitTarget::TopPins => Some(TopScreen::Pins),
        HitTarget::TopConfig => Some(TopScreen::Config),
        HitTarget::TopHelp => Some(TopScreen::Help(help_opened_on(from))),
        _ => None,
    }
}

/// `s` is the screen `to` as it opens: the gist manager or the pins at their first row with
/// no filter, the settings at their first row, the help page in the given state.
pub open spec fn shows(s: Screen, to: TopScreen) -> bool {
    match (s, to) {
        (Screen::Gists(g), TopScreen::Gists) => g.is_fresh(),
        (Screen::Pins(p), TopScreen::Pins) => p.is_fresh(),
        (Screen::Config(c), TopScreen::Config) => c == ConfigState { index: 0 },
        (Screen::Help(h), TopScreen::Help(t)) => h == t,
        _ => false,
    }
}

/// `s` is a screen of the same kind as the top-bar screen `to` (the help page on any topic
/// counts as the help page).
pub open spec fn same_kind(s: Screen, to: TopScreen) -> bool {
    match (s, to) {
        (Screen::Gists(_), TopScreen::Gists) => true,
        (Screen::Pins(_), TopScreen::Pins) => true,
        (Screen::Config(_), TopScreen::Config) => true,
        (Screen::Help(_), TopScreen::Help(_)) => true,
        _ => false,
    }
}

/// Open `to` over the screen on display, which is remembered to return to. When a screen of
/// its kind is already on display nothing changes, so a second click does not bury the way
/// back.
pub open spec fn opened_over(s0: AppState, s1: AppState, to: TopScreen) -> bool {
    &&& if same_kind(s0.screen, to) {
        &&& s1.screen == s0.screen
        &&& s1.nav_stack == s0.nav_stack
    } else {
        &&& shows(s1.screen, to)
        &&& s1.nav_stack@ == s0.nav_stack@.push(s0.screen)
    }
    &&& s1.status == s0.status
    &&& s1.gist_list_stale == s0.gist_list_stale
    &&& s1.revisions_stale == s0.revisions_stale
}

/// Whether `screen` is of the same kind as the top-bar screen `to`.
fn is_same_kind(screen: &Screen, to: TopScreen) -> (r: bool)
    ensures
        r == same_kind(*screen, to),
{
    match (screen, to) {
        (Screen::Gists(_), TopScreen::Gists) => true,
        (Screen::Pins(_), TopScreen::Pins) => true,
        (Screen::Config(_), TopScreen::Config) => true,
        (Screen::Help(_), TopScreen::Help(_)) => true,
        _ => false,
    }
}

/// The screen `to` as it opens.
pub fn opening_screen(to: TopScreen) -> (s: Screen)
    ensures
        shows(s, to),
{
    match to {
        TopScreen::Gists => Screen::Gists(GistsState::new()),
        TopScreen::Pins => Screen::Pins(PinsState::new()),
        TopScreen::Config => Screen::Config(ConfigState { index: 0 }),
        TopScreen::Help(h) => Screen::Help(h),
    }
}

/// Open the top-bar screen `to` over the screen on display (see [`opened_over`]).
pub fn open_over(state: &mut AppState, to: TopScreen)
    ensures
        opened_over(*old(state), *final(state), to),
{
    if is_same_kind(&state.screen, to) {
        return;
    }
    let mut previous = opening_screen(to);
    core::mem::swap(&mut previous, &mut state.screen);
    state.nav_stack.push(previous);
}

/// A click at (`col`, `row`): when it hits a top-bar shortcut, that shortcut's screen opens
/// over whatever is on display, from any screen. Returns whether it did; any other click
/// is left to the screen on display, and changes nothing here.
pub fn handle_top_bar_click(state: &mut AppState, frame: &MouseFrame, col: u16, row: u16) -> (hit: bool)
    ensures
        match resolve_spec(frame.targets@, col, row, frame.targets@.len()) {
            Some(t) => match top_bar_screen(t, old(state).screen) {
                Some(to) => hit && opened_over(*old(state), *final(state), to),
                None => !hit && *final(state) == *old(state),
            },
            None => !hit && *final(state) == *old(state),
        },
{
    let target = frame.resolve(col, row);
    match target {
        Some(HitTarget::TopGists) => {
            open_over(state, TopScreen::Gists);
            true
        },
        Some(HitTarget::TopPins) => {
            open_over(state, TopScreen::Pins);
            true
        },
        Some(HitTarget::TopConfig) => {
            open_over(state, TopScreen::Config);
            true
        },
        Some(HitTarget::TopHelp) => {
            let topic = help_topic_for(&state.screen);
            open_over(
                state,
                TopScreen::Help(HelpState { topic, index_open: false, index_sel: 0, scroll: 0 }),
            );
            true
        },
        _ => false,
    }
}

/// Clicking the same top-bar shortcut twice leaves the state as one click did: the way
/// back is remembered once.
pub proof fn law_second_click_changes_nothing(
    s0: AppState,
    s1: AppState,
    s2: AppState,
    target: HitTarget,
)
    requires
        top_bar_screen(target, s0.screen) is Some,
        opened_over(s0, s1, top_bar_screen(target, s0.screen)->0),
        opened_over(s1, s2, top_bar_screen(target, s1.screen)->0),
    ensures
        s2.screen == s1.screen,
        s2.nav_stack@ == s1.nav_stack@,
        s2.status == s1.status,
{
}

/// Going back from a screen a top-bar shortcut opened returns to the screen it was opened
/// over, with the way back as it was before.
pub proof fn law_back_returns_to_where_it_was_opened(s0: AppState, s1: AppState, s2: AppState, to: TopScreen)
    requires
        !same_kind(s0.screen, to),
        opened_over(s0, s1, to),
        went_back(s1, s2),
    ensures
        s2.screen == s0.screen,
        s2.nav_stack@ == s0.nav_stack@,
        s2.status == s0.status,
{
    assert(s0.nav_stack@.push(s0.screen).drop_last() =~= s0.nav_stack@);
}

} // verus!
