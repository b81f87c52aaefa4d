//! Keys as the screens read them, and the line-editing keys of a text input.

use vstd::prelude::*;
use crate::chrome::TextInput;

verus! {

/// A key press, as far as the screens tell keys apart.
#[derive(Debug, Clone, Copy, PartialEq, Eq, Structural)]
pub enum Key {
    Char(char),
    Enter,
    Esc,
    Tab,
    Backspace,
    Delete,
    Left,
    Right,
    Up,
    Down,
    Home,
    End,
    PageUp,
    PageDown,
    Other,
}

/// A movement within the focused list or pane.
#[derive(Debug, Clone, Copy, PartialEq, Eq, Structural)]
pub enum NavAction {
    Down,
    Up,
    PageDown,
    PageUp,
    Right,
    Left,
}

/// Rows a page key moves.
pub const PAGE_SCROLL: u16 = 10;

/// What an editing key does to an input with text `t` and caret `c`: the new text and caret.
pub open spec fn edit_spec(t: Seq<char>, c: nat, key: Key) -> (Seq<char>, nat) {
    match key {
        Key::Char(ch) => (t.insert(c as int, ch), c + 1),
        Key::Backspace => if c == 0 {
            (t, c)
        } else {
            (t.remove(c - 1), (c - 1) as nat)
        },
        Key::Delete => if c == t.len() {
            (t, c)
        } else {
            (t.remove(c as int), c)
        },
        Key::Left => if c == 0 {
            (t, c)
        } else {
            (t, (c - 1) as nat)
        },
        Key::Right => if c == t.len() {
            (t, c)
        } else {
            (t, c + 1)
        },
        Key::Home => (t, 0),
        Key::End => (t, t.len()),
        _ => (t, c),
    }
}

/// Apply a line-editing key to `input`: typing inserts at the caret, Backspace and Delete
/// remove around it, arrows, Home and End move it; other keys leave the input alone.
/// Returns whether the text changed.
pub fn apply_edit(input: &mut TextInput, key: Key) -> (changed: bool)
    requires
        old(input).well_formed(),
        old(input).text_view().len() < usize::MAX,
    ensures
        final(input).well_formed(),
        (final(input).text_view(), final(input).cursor_view()) == edit_spec(
            old(input).text_view(),
            old(input).cursor_view(),
            key,
        ),
        changed == (final(input).text_view() != old(input).text_view()),
{
    let ghost before = input.text_view();
    match key {
        Key::Char(c) => {
            input.insert(c);
            assert(input.text_view().len() == before.len() + 1);
            true
        },
        Key::Backspace => {
            let at_start = input.cursor() == 0;
            input.backspace();
            if !at_start {
                assert(input.text_view().len() + 1 == before.len());
            }
            !at_start
        },
        Key::Delete => {
            let at_end = input.cursor() == input.len();
            input.delete_forward();
            if !at_end {
                assert(input.text_view().len() + 1 == before.len());
            }
            !at_end
        },
        Key::Left => {
            input.left();
            false
        },
        Key::Right => {
            input.right();
            false
        },
        Key::Home => {
            input.home();
            false
        },
        Key::End => {
            input.end();
            false
        },
        _ => false,
    }
}

/// The movement a key asks for on a screen that is not taking text: the arrows and the page
/// keys, and the vim keys `h` `j` `k` `l` for left, down, up and right.
pub open spec fn nav_action_spec(key: Key) -> Option<NavAction> {
    if key == Key::Down || key == Key::Char('j') {
        Some(NavAction::Down)
    } else if key == Key::Up || key == Key::Char('k') {
        Some(NavAction::Up)
    } else if key == Key::PageDown {
        Some(NavAction::PageDown)
    } else if key == Key::PageUp {
        Some(NavAction::PageUp)
    } else if key == Key::Right || key == Key::Char('l') {
        Some(NavAction::Right)
    } else if key == Key::Left || key == Key::Char('h') {
        Some(NavAction::Left)
    } else {
        None
    }
}

/// The movement `key` asks for (see [`nav_action_spec`]).
pub fn nav_action_of(key: Key) -> (r: Option<NavAction>)
    ensures
        r == nav_action_spec(key),
{
    if key == Key::Down || key == Key::Char('j') {
        Some(NavAction::Down)
    } else if key == Key::Up || key == Key::Char('k') {
        Some(NavAction::Up)
    } else if key == Key::PageDown {
        Some(NavAction::PageDown)
    } else if key == Key::PageUp {
        Some(NavAction::PageUp)
    } else if key == Key::Right || key == Key::Char('l') {
        Some(NavAction::Right)
    } else if key == Key::Left || key == Key::Char('h') {
        Some(NavAction::Left)
    } else {
        None
    }
}

} // verus!
