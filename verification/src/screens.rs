//! What every screen answers the same way: the help topic `?` opens on it, how far a
//! mouse-wheel tick scrolls it, and opening the help page over it.

use vstd::prelude::*;
use crate::help::{HelpState, HelpTopic};
use crate::state::{AppState, DetailFocus, Screen};

verus! {

/// The help topic that `?` opens on `s`: each screen's own topic; the screens that have
/// none (the diff, the preview, a confirm, the palette and the help page itself) open the
/// List topic.
pub open spec fn screen_help_topic(s: Screen) -> HelpTopic {
    match s {
        Screen::List => HelpTopic::List,
        Screen::Pins(_) => HelpTopic::Pins,
        Screen::Gists(_) => HelpTopic::GistManager,
        Screen::GistDetail(_) => HelpTopic::GistDetail,
        Screen::Revisions(_) => HelpTopic::Revisions,
        Screen::Diff(_) => HelpTopic::List,
        Screen::Preview(_) => HelpTopic::List,
        Screen::Help(_) => HelpTopic::List,
        Screen::Config(_) => HelpTopic::Config,
        Screen::Confirm(_) => HelpTopic::List,
        Screen::Palette(_) => HelpTopic::List,
    }
}

/// The help topic `?` opens on `s` (see [`screen_help_topic`]).
pub fn help_topic_for(s: &Screen) -> (t: HelpTopic)
    ensures
        t == screen_help_topic(*s),
{
    match s {
        Screen::List => HelpTopic::List,
        Screen::Pins(_) => HelpTopic::Pins,
        Screen::Gists(_) => HelpTopic::GistManager,
        Screen::GistDetail(_) => HelpTopic::GistDetail,
        Screen::Revisions(_) => HelpTopic::Revisions,
        Screen::Diff(_) => HelpTopic::List,
        Screen::Preview(_) => HelpTopic::List,
        Screen::Help(_) => HelpTopic::List,
        Screen::Config(_) => HelpTopic::Config,
        Screen::Confirm(_) => HelpTopic::List,
        Screen::Palette(_) => HelpTopic::List,
    }
}

/// The help page as it opens over `s`: on `s`'s topic, index closed, at the top.
pub open spec fn help_opened_on(s: Screen) -> HelpState {
    HelpState { topic: screen_help_topic(s), index_open: false, index_sel: 0, scroll: 0 }
}

/// Open the help page on the topic of the screen on display, which is remembered to return
/// to.
pub fn open_help(st: &mut AppState)
    ensures
        final(st).screen == Screen::Help(help_opened_on(old(st).screen)),
        final(st).nav_stack@ == old(st).nav_stack@.push(old(st).screen),
        final(st).status == old(st).status,
        final(st).gist_list_stale == old(st).gist_list_stale,
        final(st).revisions_stale == old(st).revisions_stale,
{
    let topic = help_topic_for(&st.screen);
    let mut previous = Screen::Help(
        HelpState { topic, index_open: false, index_sel: 0, scroll: 0 },
    );
    core::mem::swap(&mut previous, &mut st.screen);
    st.nav_stack.push(previous);
}

/// Rows a mouse-wheel tick moves on `s`: three on the bodies that scroll by lines (the diff,
/// the preview, a confirm's text, a help topic, the detail screen's comments), one on the
/// lists and the palette.
pub open spec fn screen_wheel_step(s: Screen) -> usize {
    match s {
        Screen::List => 1,
        Screen::Pins(_) => 1,
        Screen::Gists(_) => 1,
        Screen::GistDetail(d) => if d.focus == DetailFocus::Comments {
            3
        } else {
            1
        },
        Screen::Revisions(_) => 1,
        Screen::Diff(_) => 3,
        Screen::Preview(_) => 3,
        Screen::Help(h) => if h.index_open {
            1
        } else {
            3
        },
        Screen::Config(_) => 1,
        Screen::Confirm(_) => 3,
        Screen::Palette(_) => 1,
    }
}

/// Rows a mouse-wheel tick moves on the screen on display (see [`screen_wheel_step`]).
pub fn wheel_step_for(st: &AppState) -> (n: usize)
    ensures
        n == screen_wheel_step(st.screen),
{
    match &st.screen {
        Screen::List => crate::list_keys::wheel_step(),
        Screen::Pins(_) => 1,
        Screen::Gists(_) => 1,
        Screen::GistDetail(_) => crate::state::wheel_step(st),
        Screen::Revisions(_) => crate::revisions::wheel_step(),
        Screen::Diff(_) => crate::diff_screen::wheel_step(),
        Screen::Preview(_) => crate::preview::wheel_step(),
        Screen::Help(h) => crate::help::wheel_step(h),
        Screen::Config(_) => 1,
        Screen::Confirm(_) => crate::confirm::wheel_step(),
        Screen::Palette(_) => 1,
    }
}

} // verus!
