//! Terminal colours and the two themes the Settings screen switches between.

use vstd::prelude::*;

verus! {

/// A terminal colour (the named ANSI palette plus the terminal default).
#[derive(Debug, Clone, Copy, PartialEq, Eq, Structural)]
pub enum Color {
    Reset,
    Black,
    Red,
    Green,
    Yellow,
    Blue,
    Magenta,
    Cyan,
    Gray,
    DarkGray,
    White,
}

/// The persisted theme preference.
#[derive(Debug, Clone, Copy, PartialEq, Eq, Structural)]
pub enum ThemeChoice {
    Dark,
    Light,
}

/// The colours every screen paints with.
#[derive(Debug, Clone, Copy, PartialEq, Eq, Structural)]
pub struct Theme {
    pub fg: Color,
    pub bg: Color,
    pub accent: Color,
    pub fg_on_accent: Color,
    pub dim: Color,
    pub del_color: Color,
    pub ins_color: Color,
    pub write_color: Color,
    pub notice_color: Color,
    pub gist_label_color: Color,
}

/// The dark theme.
pub open spec fn dark_theme() -> Theme {
    Theme {
        fg: Color::White,
        bg: Color::Reset,
        accent: Color::Cyan,
        fg_on_accent: Color::Black,
        dim: Color::DarkGray,
        del_color: Color::Red,
        ins_color: Color::Green,
        write_color: Color::Green,
        notice_color: Color::Yellow,
        gist_label_color: Color::Blue,
    }
}

/// The light theme.
pub open spec fn light_theme() -> Theme {
    Theme {
        fg: Color::Black,
        bg: Color::Reset,
        accent: Color::Blue,
        fg_on_accent: Color::White,
        dim: Color::Gray,
        del_color: Color::Red,
        ins_color: Color::Green,
        write_color: Color::Green,
        notice_color: Color::Magenta,
        gist_label_color: Color::Blue,
    }
}

/// The theme a preference selects.
pub open spec fn theme_for(choice: ThemeChoice) -> Theme {
    match choice {
        ThemeChoice::Dark => dark_theme(),
        ThemeChoice::Light => light_theme(),
    }
}

impl Theme {
    /// The dark theme.
    pub fn dark() -> (t: Theme)
        ensures
            t == dark_theme(),
    {
        Theme {
            fg: Color::White,
            bg: Color::Reset,
            accent: Color::Cyan,
            fg_on_accent: Color::Black,
            dim: Color::DarkGray,
            del_color: Color::Red,
            ins_color: Color::Green,
            write_color: Color::Green,
            notice_color: Color::Yellow,
            gist_label_color: Color::Blue,
        }
    }

    /// The light theme.
    pub fn light() -> (t: Theme)
        ensures
            t == light_theme(),
    {
        Theme {
            fg: Color::Black,
            bg: Color::Reset,
            accent: Color::Blue,
            fg_on_accent: Color::White,
            dim: Color::Gray,
            del_color: Color::Red,
            ins_color: Color::Green,
            write_color: Color::Green,
            notice_color: Color::Magenta,
            gist_label_color: Color::Blue,
        }
    }

    /// The theme for a persisted preference.
    pub fn for_choice(choice: ThemeChoice) -> (t: Theme)
        ensures
            t == theme_for(choice),
    {
        match choice {
            ThemeChoice::Dark => Theme::dark(),
            ThemeChoice::Light => Theme::light(),
        }
    }
}

} // verus!
