//! The event loop's own decisions, between painting a frame and handling an event: whether an
//! event reaches the screens while a background task runs, when the pins' sync states are
//! worked out again, and where a freshly loaded comment thread is scrolled to.

use vstd::prelude::*;
use crate::keys::Key;
use crate::state::{AppState, Screen};

verus! {

/// An input event, as far as the loop tells them apart.
#[derive(Debug, Clone, Copy, PartialEq, Eq, Structural)]
pub enum LoopEvent {
    /// A key; `press` is false for the release and repeat reports some terminals send.
    Key { key: Key, press: bool },
    Mouse,
    Other,
}

/// What the loop does with an event.
#[derive(Debug, Clone, Copy, PartialEq, Eq, Structural)]
pub enum LoopAction {
    /// Hand it to the screen on display.
    Handle,
    /// Drop it.
    Ignore,
    /// Cancel the background task that is running.
    CancelTask,
}

/// What becomes of `ev` when a background task runs (`busy`) or not: a key counts only when
/// pressed, so that no key acts twice; while a task runs, its overlay takes every event, and
/// `Esc` cancels the task.
pub open spec fn gate_spec(busy: bool, ev: LoopEvent) -> LoopAction {
    match ev {
        LoopEvent::Key { key, press } => if !press {
            LoopAction::Ignore
        } else if busy {
            if key == Key::Esc {
                LoopAction::CancelTask
            } else {
                LoopAction::Ignore
            }
        } else {
            LoopAction::Handle
        },
        LoopEvent::Mouse => if busy {
            LoopAction::Ignore
        } else {
            LoopAction::Handle
        },
        LoopEvent::Other => LoopAction::Ignore,
    }
}

/// What becomes of `ev` (see [`gate_spec`]).
pub fn gate_event(busy: bool, ev: LoopEvent) -> (a: LoopAction)
    ensures
        a == gate_spec(busy, ev),
{
    match ev {
        LoopEvent::Key { key, press } => if !press {
            LoopAction::Ignore
        } else if busy {
            if key == Key::Esc {
                LoopAction::CancelTask
            } else {
                LoopAction::Ignore
            }
        } else {
            LoopAction::Handle
        },
        LoopEvent::Mouse => if busy {
            LoopAction::Ignore
        } else {
            LoopAction::Handle
        },
        LoopEvent::Other => LoopAction::Ignore,
    }
}

/// Whether the pins' sync states are to be worked out again before this frame: only while
/// the pins are on display (`pins_active`), and then when they were marked out of date, when
/// the pins screen was not on display at the last frame (it was just entered or returned
/// to), or when the cache does not hold one state per pin. Never on every frame.
pub open spec fn pins_refresh_spec(
    pins_active: bool,
    dirty: bool,
    was_active: bool,
    cache_len: nat,
    pinned_len: nat,
) -> bool {
    pins_active && (dirty || !was_active || cache_len != pinned_len)
}

/// Whether the pins' sync states are to be worked out again (see [`pins_refresh_spec`]).
pub fn pins_refresh_due(
    pins_active: bool,
    dirty: bool,
    was_active: bool,
    cache_len: usize,
    pinned_len: usize,
) -> (r: bool)
    ensures
        r == pins_refresh_spec(pins_active, dirty, was_active, cache_len as nat, pinned_len as nat),
{
    pins_active && (dirty || !was_active || cache_len != pinned_len)
}

/// After a frame was painted: a detail screen that asked to show the end of its comment
/// thread is scrolled to `max`, the last scroll the painted thread allows (left where it is
/// when the frame did not say), and the request is dropped. Anything else is unchanged.
pub fn settle_comment_scroll(st: &mut AppState, max: Option<u16>)
    ensures
        match old(st).screen {
            Screen::GistDetail(d0) => if d0.comments_scroll_to_bottom {
                &&& final(st).screen matches Screen::GistDetail(d1) && d1 == (crate::state::DetailState {
                    scroll: match max {
                        Some(m) => m,
                        None => d0.scroll,
                    },
                    comments_scroll_to_bottom: false,
                    ..d0
                })
                &&& final(st).nav_stack == old(st).nav_stack
                &&& final(st).status == old(st).status
                &&& final(st).gist_list_stale == old(st).gist_list_stale
                &&& final(st).revisions_stale == old(st).revisions_stale
            } else {
                *final(st) == *old(st)
            },
            _ => *final(st) == *old(st),
        },
{
    match &mut st.screen {
        Screen::GistDetail(d) => {
            if d.comments_scroll_to_bottom {
                match max {
                    Some(m) => d.scroll = m,
                    None => {},
                }
                d.comments_scroll_to_bottom = false;
            }
        },
        _ => {},
    }
}

/// While a background task runs, no event reaches a screen: only `Esc` does anything, and
/// that is to cancel the task.
pub proof fn law_busy_loop_hands_nothing_on(ev: LoopEvent)
    ensures
        gate_spec(true, ev) != LoopAction::Handle,
        gate_spec(true, ev) == LoopAction::CancelTask <==> ev == (LoopEvent::Key {
            key: Key::Esc,
            press: true,
        }),
{
}

} // verus!
