//! Shared terminal chrome: footers, modal geometry, the spinner, inline text inputs, and
//! styled-span scrolling.

use vstd::prelude::*;
use crate::text::{chars_of, is_whitespace, is_ws, owned, push_char, push_str, string_of};
use crate::theme::{Color, Theme};

verus! {

/// A rectangle of terminal cells.
#[derive(Debug, Clone, Copy, PartialEq, Eq, Structural)]
pub struct Rect {
    pub x: u16,
    pub y: u16,
    pub width: u16,
    pub height: u16,
}

/// What a key's action risks, which decides its accent.
#[derive(Debug, Clone, Copy, PartialEq, Eq, Structural)]
pub enum Category {
    Nav,
    Read,
    Write,
    Destructive,
}

/// A run of text with the style a painter gives it.
#[derive(Debug, Clone, PartialEq, Eq)]
pub struct StyledText {
    pub text: String,
    pub fg: Option<Color>,
    pub bold: bool,
    pub reversed: bool,
}

/// The default (idle) footer hint.
pub const MINIMAL_HINT: &'static str = "; Menu · Ctrl+p Palette";

/// Footer text + whether to colourise it: a one-shot status message (shown plain) when
/// present, else the colourised key `hints`.
pub fn footer_with_status(status: Option<&str>, hints: &str) -> (r: (String, bool))
    ensures
        match status {
            Some(m) => r.0@ == m@ && !r.1,
            None => r.0@ == hints@ && r.1,
        },
{
    match status {
        Some(message) => (owned(message), false),
        None => (owned(hints), true),
    }
}

// ---------------------------------------------------------------------------------------------
// Word-wrap sizing
// ---------------------------------------------------------------------------------------------

/// First index at or after `i` that is whitespace or the end of `t`.
pub open spec fn word_end(t: Seq<char>, i: int) -> int
    decreases t.len() - i,
{
    if i < 0 || i >= t.len() || is_ws(t[i]) {
        if i < 0 {
            0
        } else if i > t.len() {
            t.len() as int
        } else {
            i
        }
    } else {
        word_end(t, i + 1)
    }
}

pub proof fn lemma_word_end_bound(t: Seq<char>, i: int)
    requires
        0 <= i <= t.len(),
    ensures
        i <= word_end(t, i) <= t.len(),
        i < t.len() && !is_ws(t[i]) ==> word_end(t, i) > i,
        forall|k: int| i <= k < word_end(t, i) ==> !is_ws(#[trigger] t[k]),
        word_end(t, i) < t.len() ==> is_ws(t[word_end(t, i)]),
    decreases t.len() - i,
{
    if i < t.len() && !is_ws(t[i]) {
        lemma_word_end_bound(t, i + 1);
    }
}

/// The whitespace-separated words of `t[i..]` (`str::split_whitespace`).
pub open spec fn words_from(t: Seq<char>, i: int) -> Seq<Seq<char>>
    decreases t.len() - i,
{
    if i < 0 || i >= t.len() {
        seq![]
    } else if is_ws(t[i]) {
        words_from(t, i + 1)
    } else {
        proof {
            lemma_word_end_bound(t, i);
        }
        seq![t.subrange(i, word_end(t, i))] + words_from(t, word_end(t, i))
    }
}

/// `n` saturated into `u16`.
pub open spec fn sat16(n: int) -> u16 {
    if n > u16::MAX {
        u16::MAX
    } else if n < 0 {
        0
    } else {
        n as u16
    }
}

/// Start a `w`-cell word on a fresh line: a word wider than the line is hard-broken and costs
/// the extra rows it takes. Returns the line count and the column after the word.
pub open spec fn place_word(lines: u16, w: nat, width: nat) -> (u16, nat) {
    if w > width && width > 0 {
        (
            sat16(lines + (((w - 1) / width as int) as u16)),
            if w % width == 0 {
                width
            } else {
                w % width
            },
        )
    } else {
        (lines, w)
    }
}

/// Lines a greedy word wrap uses for `words`, starting at `lines` with `col` cells taken.
pub open spec fn fold_words(words: Seq<Seq<char>>, lines: u16, col: nat, width: nat) -> u16
    decreases words.len(),
{
    if words.len() == 0 {
        lines
    } else {
        let w = words[0].len();
        let (l2, c2) = if col == 0 {
            place_word(lines, w, width)
        } else if col + 1 + w <= width {
            (lines, col + 1 + w)
        } else {
            place_word(sat16(lines + 1), w, width)
        };
        fold_words(words.drop_first(), l2, c2, width)
    }
}

/// Greedy word-wrap line count at `width` (one line for zero width).
pub open spec fn wrap_line_count_spec(t: Seq<char>, width: nat) -> u16 {
    if width == 0 {
        1
    } else {
        fold_words(words_from(t, 0), 1, 0, width)
    }
}

fn place(lines: u16, w: usize, width: usize) -> (r: (u16, usize))
    requires
        width > 0,
    ensures
        (r.0, r.1 as nat) == place_word(lines, w as nat, width as nat),
{
    if w > width {
        let extra = ((w - 1) / width) as u16;
        (lines.saturating_add(extra), if w % width == 0 {
            width
        } else {
            w % width
        })
    } else {
        (lines, w)
    }
}

/// Greedy word-wrap line count, matching how a wrapping paragraph breaks space-separated
/// words at `width`. Used to size the footer block to its content.
pub fn wrap_line_count(text: &str, width: u16) -> (n: u16)
    ensures
        n == wrap_line_count_spec(text@, width as nat),
{
    if width == 0 {
        return 1;
    }
    let width = width as usize;
    let t = chars_of(text);
    let len = t.len();
    let mut lines: u16 = 1;
    let mut col: usize = 0;
    let mut i: usize = 0;
    while i < len
        invariant
            len == t@.len(),
            t@ == text@,
            i <= len,
            width > 0,
            width <= u16::MAX,
            col <= width,
            wrap_line_count_spec(text@, width as nat) == fold_words(
                words_from(t@, i as int),
                lines,
                col as nat,
                width as nat,
            ),
        decreases len - i,
    {
        if is_whitespace(t[i]) {
            i = i + 1;
        } else {
            let start = i;
            let mut e = i;
            while e < len && !is_whitespace(t[e])
                invariant
                    start <= e <= len,
                    len == t@.len(),
                    word_end(t@, start as int) == word_end(t@, e as int),
                decreases len - e,
            {
                e = e + 1;
            }
            proof {
                lemma_word_end_bound(t@, start as int);
                let ws = words_from(t@, start as int);
                assert(ws == seq![t@.subrange(start as int, e as int)] + words_from(t@, e as int));
                assert(ws.drop_first() =~= words_from(t@, e as int));
            }
            let w = e - start;
            if col == 0 {
                let (l2, c2) = place(lines, w, width);
                lines = l2;
                col = c2;
            } else if col < width && w <= width - col - 1 {
                col = col + 1 + w;
            } else {
                let (l2, c2) = place(lines.saturating_add(1), w, width);
                lines = l2;
                col = c2;
            }
            i = e;
        }
    }
    lines
}

/// Height to reserve for a footer: `0` when both `text` and `title` are empty, else the
/// content rows (one for a colourised hint line, the wrapped count at the inner width for
/// plain text) plus a row for a non-empty title.
pub open spec fn footer_height_spec(text: Seq<char>, width: nat, title: Seq<char>, colored: bool) -> int {
    if text.len() == 0 && title.len() == 0 {
        0
    } else {
        let content = if text.len() == 0 {
            0
        } else if colored {
            1
        } else {
            let n = wrap_line_count_spec(text, if width >= 2 { (width - 2) as nat } else { 0 });
            if n >= 1 {
                n as int
            } else {
                1
            }
        };
        content + if title.len() > 0 {
            1int
        } else {
            0
        }
    }
}

/// Height to reserve for a screen's footer row.
pub fn footer_height(text: &str, width: u16, title: &str, colored: bool) -> (h: u16)
    ensures
        h == sat16(footer_height_spec(text@, width as nat, title@, colored)),
{
    let text_empty = text.unicode_len() == 0;
    let title_empty = title.unicode_len() == 0;
    if text_empty && title_empty {
        return 0;
    }
    let content: u16 = if text_empty {
        0
    } else if colored {
        1
    } else {
        let n = wrap_line_count(text, width.saturating_sub(2));
        if n >= 1 {
            n
        } else {
            1
        }
    };
    content.saturating_add(if title_empty {
        0
    } else {
        1
    })
}

/// The accent a key gets from what its action risks: destructive → the delete colour, write
/// → the write colour, navigation and reads → the accent.
pub open spec fn category_color_spec(category: Category, theme: Theme) -> Color {
    match category {
        Category::Destructive => theme.del_color,
        Category::Write => theme.write_color,
        Category::Nav | Category::Read => theme.accent,
    }
}

/// Colour a command key by what its action does.
pub fn category_color(category: Category, theme: &Theme) -> (c: Color)
    ensures
        c == category_color_spec(category, *theme),
{
    match category {
        Category::Destructive => theme.del_color,
        Category::Write => theme.write_color,
        Category::Nav | Category::Read => theme.accent,
    }
}

// ---------------------------------------------------------------------------------------------
// Modal geometry
// ---------------------------------------------------------------------------------------------

/// `v` clamped into `[lo, hi]` (`Ord::clamp`; `lo <= hi`).
pub open spec fn clamp(v: int, lo: int, hi: int) -> int {
    if v < lo {
        lo
    } else if v > hi {
        hi
    } else {
        v
    }
}

fn clamp_u16(v: u16, lo: u16, hi: u16) -> (r: u16)
    requires
        lo <= hi,
    ensures
        r == clamp(v as int, lo as int, hi as int),
{
    if v < lo {
        lo
    } else if v > hi {
        hi
    } else {
        v
    }
}

/// Width of a centred modal: 60% of the frame, at least `min` cells (when the frame allows)
/// and at most the frame less two.
pub open spec fn modal_width(area_width: u16, min: u16) -> u16 {
    let max_width: int = if area_width >= 3 {
        area_width - 2
    } else {
        1
    };
    let lo: int = if max_width < min {
        max_width
    } else {
        min as int
    };
    clamp(((area_width as int * 60 / 100) as u16) as int, lo, max_width) as u16
}

/// Centred modal rect sized to fit `body` (clamped to the frame).
pub open spec fn centered_modal_spec(area: Rect, body: Seq<char>) -> Rect {
    let width = modal_width(area.width, 20);
    let inner: nat = if width >= 4 {
        (width - 4) as nat
    } else {
        0
    };
    let lines = wrap_line_count_spec(body, inner);
    let body_lines: int = if lines >= 1 {
        lines as int
    } else {
        1
    };
    let max_height: int = if area.height >= 3 {
        area.height - 2
    } else {
        1
    };
    let lo: int = if max_height < 3 {
        max_height
    } else {
        3
    };
    let height = clamp(sat16(body_lines + 2) as int, lo, max_height) as u16;
    Rect {
        x: (if area.width >= width {
            (area.width - width) / 2
        } else {
            0
        }) as u16,
        y: (if area.height >= height {
            (area.height - height) / 2
        } else {
            0
        }) as u16,
        width,
        height,
    }
}

fn modal_width_of(area_width: u16, min: u16) -> (w: u16)
    requires
        min >= 1,
    ensures
        w == modal_width(area_width, min),
        1 <= w,
        w <= area_width || area_width == 0,
{
    let max_width = if area_width >= 3 {
        area_width - 2
    } else {
        1
    };
    let lo = if max_width < min {
        max_width
    } else {
        min
    };
    let sixty = ((area_width as u32) * 60 / 100) as u16;
    clamp_u16(sixty, lo, max_width)
}

/// Centered modal rect sized to fit `body` (clamped to the frame).
pub fn centered_modal_rect(area: Rect, body: &str) -> (r: Rect)
    ensures
        r == centered_modal_spec(area, body@),
{
    let width = modal_width_of(area.width, 20);
    let inner_width = width.saturating_sub(4);
    let lines = wrap_line_count(body, inner_width);
    let body_lines = if lines >= 1 {
        lines
    } else {
        1
    };
    let max_height = if area.height >= 3 {
        area.height - 2
    } else {
        1
    };
    let lo = if max_height < 3 {
        max_height
    } else {
        3
    };
    let height = clamp_u16(body_lines.saturating_add(2), lo, max_height);
    Rect {
        x: area.width.saturating_sub(width) / 2,
        y: area.height.saturating_sub(height) / 2,
        width,
        height,
    }
}

/// Every confirm is the same width — 60% of the frame, at least 24 cells when it allows.
pub fn confirm_modal_width(area: Rect) -> (w: u16)
    ensures
        w == modal_width(area.width, 24),
{
    modal_width_of(area.width, 24)
}

/// Centred modal rect for a confirm body of `body_rows` laid-out rows: two borders plus one
/// blank row of padding above and below.
pub open spec fn centered_confirm_spec(area: Rect, body_rows: u16) -> Rect {
    let width = modal_width(area.width, 24);
    let max_height: int = if area.height >= 3 {
        area.height - 2
    } else {
        1
    };
    let lo: int = if max_height < 3 {
        max_height
    } else {
        3
    };
    let height = clamp(sat16(body_rows + 4) as int, lo, max_height) as u16;
    Rect {
        x: (if area.width >= width {
            (area.width - width) / 2
        } else {
            0
        }) as u16,
        y: (if area.height >= height {
            (area.height - height) / 2
        } else {
            0
        }) as u16,
        width,
        height,
    }
}

/// Centred modal rect for a confirm body of `body_rows` rows.
pub fn centered_confirm_rect(area: Rect, body_rows: u16) -> (r: Rect)
    ensures
        r == centered_confirm_spec(area, body_rows),
{
    let width = confirm_modal_width(area);
    let max_height = if area.height >= 3 {
        area.height - 2
    } else {
        1
    };
    let lo = if max_height < 3 {
        max_height
    } else {
        3
    };
    let height = clamp_u16(body_rows.saturating_add(4), lo, max_height);
    Rect {
        x: area.width.saturating_sub(width) / 2,
        y: area.height.saturating_sub(height) / 2,
        width,
        height,
    }
}

/// A centred modal lies inside the frame it is centred in.
pub proof fn law_centered_modal_inside_frame(area: Rect, body: Seq<char>, rows: u16)
    requires
        area.width >= 3,
        area.height >= 3,
    ensures
        ({
            let r = centered_modal_spec(area, body);
            r.x + r.width <= area.width && r.y + r.height <= area.height
        }),
        ({
            let r = centered_confirm_spec(area, rows);
            r.x + r.width <= area.width && r.y + r.height <= area.height
        }),
{
}

// ---------------------------------------------------------------------------------------------
// Spinner
// ---------------------------------------------------------------------------------------------

/// Number of spinner frames.
pub const SPINNER_FRAME_COUNT: usize = 10;

/// Spinner frame `i` (braille dots; single-width).
pub open spec fn spinner_frame(i: int) -> Seq<char> {
    if i == 0 {
        seq!['⠋']
    } else if i == 1 {
        seq!['⠙']
    } else if i == 2 {
        seq!['⠹']
    } else if i == 3 {
        seq!['⠸']
    } else if i == 4 {
        seq!['⠼']
    } else if i == 5 {
        seq!['⠴']
    } else if i == 6 {
        seq!['⠦']
    } else if i == 7 {
        seq!['⠧']
    } else if i == 8 {
        seq!['⠇']
    } else {
        seq!['⠏']
    }
}

/// The spinner glyph for the given tick, reduced modulo the frame count.
pub fn spinner_glyph(frame: usize) -> (s: String)
    ensures
        s@ == spinner_frame((frame % 10) as int),
{
    let i = frame % SPINNER_FRAME_COUNT;
    let c = if i == 0 {
        '⠋'
    } else if i == 1 {
        '⠙'
    } else if i == 2 {
        '⠹'
    } else if i == 3 {
        '⠸'
    } else if i == 4 {
        '⠼'
    } else if i == 5 {
        '⠴'
    } else if i == 6 {
        '⠦'
    } else if i == 7 {
        '⠧'
    } else if i == 8 {
        '⠇'
    } else {
        '⠏'
    };
    let mut s = String::new();
    push_char(&mut s, c);
    s
}

/// Adjacent ticks show different glyphs, and the cycle repeats every ten ticks.
pub proof fn law_spinner_cycles(frame: nat)
    ensures
        spinner_frame((frame % 10) as int) != spinner_frame(((frame + 1) % 10) as int),
        spinner_frame((frame % 10) as int) == spinner_frame(((frame + 10) % 10) as int),
{
    let a = (frame % 10) as int;
    let b = ((frame + 1) % 10) as int;
    assert(spinner_frame(a)[0] != spinner_frame(b)[0]);
}

// ---------------------------------------------------------------------------------------------
// Text inputs
// ---------------------------------------------------------------------------------------------

/// A single-line text input with a caret.
#[derive(Debug, Clone, PartialEq, Eq)]
pub struct TextInput {
    chars: Vec<char>,
    cursor: usize,
}

impl TextInput {
    /// The characters typed.
    pub closed spec fn text_view(&self) -> Seq<char> {
        self.chars@
    }

    /// The caret position, in characters.
    pub closed spec fn cursor_view(&self) -> nat {
        self.cursor as nat
    }

    /// The input's invariant: the caret sits within the text.
    pub open spec fn well_formed(&self) -> bool {
        self.cursor_view() <= self.text_view().len()
    }

    /// An input holding `text`, caret at the end.
    pub fn from(text: &str) -> (t: TextInput)
        ensures
            t.well_formed(),
            t.text_view() == text@,
            t.cursor_view() == text@.len(),
    {
        let chars = chars_of(text);
        let cursor = chars.len();
        TextInput { chars, cursor }
    }

    /// Move the caret one character left, stopping at the start.
    pub fn left(&mut self)
        requires
            old(self).well_formed(),
        ensures
            final(self).well_formed(),
            final(self).text_view() == old(self).text_view(),
            final(self).cursor_view() == (if old(self).cursor_view() == 0 {
                0
            } else {
                (old(self).cursor_view() - 1) as nat
            }),
    {
        if self.cursor > 0 {
            self.cursor = self.cursor - 1;
        }
    }

    /// Move the caret one character right, stopping at the end.
    pub fn right(&mut self)
        requires
            old(self).well_formed(),
        ensures
            final(self).well_formed(),
            final(self).text_view() == old(self).text_view(),
            final(self).cursor_view() == (if old(self).cursor_view() == old(
                self,
            ).text_view().len() {
                old(self).cursor_view()
            } else {
                old(self).cursor_view() + 1
            }),
    {
        if self.cursor < self.chars.len() {
            self.cursor = self.cursor + 1;
        }
    }

    /// Insert `c` at the caret and move past it.
    pub fn insert(&mut self, c: char)
        requires
            old(self).well_formed(),
        ensures
            final(self).well_formed(),
            final(self).text_view() == old(self).text_view().insert(
                old(self).cursor_view() as int,
                c,
            ),
            final(self).cursor_view() == old(self).cursor_view() + 1,
    {
        self.chars.insert(self.cursor, c);
        let n = self.chars.len();
        assert(self.cursor < n);
        self.cursor = self.cursor + 1;
    }

    /// A copy of this input: the same text, the caret in the same place.
    pub fn duplicate(&self) -> (t: TextInput)
        ensures
            t.text_view() == self.text_view(),
            t.cursor_view() == self.cursor_view(),
            t.well_formed() == self.well_formed(),
    {
        let mut chars: Vec<char> = Vec::new();
        let mut i: usize = 0;
        while i < self.chars.len()
            invariant
                i <= self.chars@.len(),
                chars@ == self.chars@.take(i as int),
            decreases self.chars@.len() - i,
        {
            chars.push(self.chars[i]);
            i = i + 1;
            assert(chars@ =~= self.chars@.take(i as int));
        }
        assert(self.chars@.take(self.chars@.len() as int) =~= self.chars@);
        TextInput { chars, cursor: self.cursor }
    }

    /// Move the caret to the start.
    pub fn home(&mut self)
        requires
            old(self).well_formed(),
        ensures
            final(self).well_formed(),
            final(self).text_view() == old(self).text_view(),
            final(self).cursor_view() == 0,
    {
        self.cursor = 0;
    }

    /// Move the caret past the last character.
    pub fn end(&mut self)
        requires
            old(self).well_formed(),
        ensures
            final(self).well_formed(),
            final(self).text_view() == old(self).text_view(),
            final(self).cursor_view() == old(self).text_view().len(),
    {
        self.cursor = self.chars.len();
    }

    /// Delete the character before the caret (nothing at the start).
    pub fn backspace(&mut self)
        requires
            old(self).well_formed(),
        ensures
            final(self).well_formed(),
            old(self).cursor_view() == 0 ==> *final(self) == *old(self),
            old(self).cursor_view() > 0 ==> final(self).text_view() == old(self).text_view().remove(
                old(self).cursor_view() - 1,
            ) && final(self).cursor_view() == old(self).cursor_view() - 1,
    {
        if self.cursor > 0 {
            self.chars.remove(self.cursor - 1);
            self.cursor = self.cursor - 1;
        }
    }

    /// Delete the character under the caret (nothing at the end).
    pub fn delete_forward(&mut self)
        requires
            old(self).well_formed(),
        ensures
            final(self).well_formed(),
            final(self).cursor_view() == old(self).cursor_view(),
            old(self).cursor_view() == old(self).text_view().len() ==> final(self).text_view() == old(
                self,
            ).text_view(),
            old(self).cursor_view() < old(self).text_view().len() ==> final(self).text_view() == old(
                self,
            ).text_view().remove(old(self).cursor_view() as int),
    {
        if self.cursor < self.chars.len() {
            self.chars.remove(self.cursor);
        }
    }

    /// Empty the input.
    pub fn clear(&mut self)
        ensures
            final(self).well_formed(),
            final(self).text_view().len() == 0,
            final(self).cursor_view() == 0,
    {
        self.chars = Vec::new();
        self.cursor = 0;
    }

    /// Number of characters typed.
    pub fn len(&self) -> (n: usize)
        ensures
            n == self.text_view().len(),
    {
        self.chars.len()
    }

    /// Whether nothing is typed.
    pub fn is_empty(&self) -> (r: bool)
        ensures
            r == (self.text_view().len() == 0),
    {
        self.chars.len() == 0
    }

    /// The caret position.
    pub fn cursor(&self) -> (c: usize)
        ensures
            c == self.cursor_view(),
    {
        self.cursor
    }

    /// The text typed.
    pub fn text(&self) -> (s: String)
        ensures
            s@ == self.text_view(),
    {
        string_of(self.chars.as_slice())
    }
}

/// A plain run of text, or no run at all when the text is empty.
pub open spec fn opt_run(t: Seq<char>) -> Seq<(Seq<char>, bool)> {
    if t.len() == 0 {
        Seq::<(Seq<char>, bool)>::empty()
    } else {
        seq![(t, false)]
    }
}

/// The runs of an inline input line: `prefix`, the text before the caret, the character under
/// the caret reversed (a reversed space when the caret is at the end), the rest, `suffix` —
/// empty runs left out.
pub open spec fn input_line_spec(prefix: Seq<char>, text: Seq<char>, cursor: nat, suffix: Seq<
    char,
>) -> Seq<(Seq<char>, bool)> {
    let c = if cursor <= text.len() {
        cursor as int
    } else {
        text.len() as int
    };
    let mid = if c < text.len() {
        seq![(seq![text[c]], true)] + opt_run(text.subrange(c + 1, text.len() as int))
    } else {
        seq![(seq![' '], true)]
    };
    opt_run(prefix) + opt_run(text.subrange(0, c)) + mid + opt_run(suffix)
}

/// The (text, reversed) view of a list of runs.
pub open spec fn runs_view(v: Seq<StyledText>) -> Seq<(Seq<char>, bool)> {
    v.map_values(|s: StyledText| (s.text@, s.reversed))
}

fn run(text: String, reversed: bool) -> (s: StyledText)
    ensures
        s.text == text,
        s.reversed == reversed,
        s.fg.is_none(),
        !s.bold,
{
    StyledText { text, fg: None, bold: false, reversed }
}

/// Every run is in the default colour and not bold: only reversal sets a run off.
pub open spec fn plain_runs(v: Seq<StyledText>) -> bool {
    forall|i: int| 0 <= i < v.len() ==> (#[trigger] v[i]).fg.is_none() && !v[i].bold
}

fn push_run(v: &mut Vec<StyledText>, text: String, reversed: bool)
    requires
        plain_runs(old(v)@),
    ensures
        runs_view(final(v)@) == runs_view(old(v)@).push((text@, reversed)),
        plain_runs(final(v)@),
{
    let ghost before = v@;
    v.push(run(text, reversed));
    assert(runs_view(v@) =~= runs_view(before).push((text@, reversed)));
}

/// A styled line for an active inline text input: `prefix`, then the input text with a
/// reverse-video block cursor at its real position, then `suffix`. A cursor at the end reverses
/// a trailing space so the caret is always visible.
pub fn input_line(prefix: &str, input: &TextInput, suffix: &str) -> (v: Vec<StyledText>)
    requires
        input.well_formed(),
    ensures
        runs_view(v@) == input_line_spec(prefix@, input.text_view(), input.cursor_view(), suffix@),
        plain_runs(v@),
{
    let chars = &input.chars;
    let cursor = input.cursor;
    let ghost t = chars@;
    let mut spans: Vec<StyledText> = Vec::new();
    assert(runs_view(spans@) =~= Seq::<(Seq<char>, bool)>::empty());
    if prefix.unicode_len() > 0 {
        push_run(&mut spans, owned(prefix), false);
    }
    assert(runs_view(spans@) =~= opt_run(prefix@));
    if cursor > 0 {
        push_run(&mut spans, crate::text::string_of_range(chars.as_slice(), 0, cursor), false);
    }
    assert(runs_view(spans@) =~= opt_run(prefix@) + opt_run(t.subrange(0, cursor as int)));
    let ghost head = runs_view(spans@);
    if cursor < chars.len() {
        let mut under = String::new();
        push_char(&mut under, chars[cursor]);
        push_run(&mut spans, under, true);
        if cursor + 1 < chars.len() {
            push_run(
                &mut spans,
                crate::text::string_of_range(chars.as_slice(), cursor + 1, chars.len()),
                false,
            );
        }
        assert(runs_view(spans@) =~= head + (seq![(seq![t[cursor as int]], true)] + opt_run(
            t.subrange(cursor + 1, t.len() as int),
        )));
    } else {
        proof {
            reveal_strlit(" ");
        }
        let space = owned(" ");
        assert(space@ =~= seq![' ']);
        push_run(&mut spans, space, true);
        assert(runs_view(spans@) =~= head + seq![(seq![' '], true)]);
    }
    let ghost body = runs_view(spans@);
    if suffix.unicode_len() > 0 {
        push_run(&mut spans, owned(suffix), false);
    }
    assert(runs_view(spans@) =~= body + opt_run(suffix@));
    spans
}

// ---------------------------------------------------------------------------------------------
// Horizontal scroll of styled runs
// ---------------------------------------------------------------------------------------------

/// The view of a styled run: its characters, colour, boldness and reversal.
pub open spec fn styled_view(s: StyledText) -> (Seq<char>, Option<Color>, bool, bool) {
    (s.text@, s.fg, s.bold, s.reversed)
}

/// The views of a list of styled runs.
pub open spec fn styled_views(v: Seq<StyledText>) -> Seq<(Seq<char>, Option<Color>, bool, bool)> {
    v.map_values(|s: StyledText| styled_view(s))
}

/// Runs `v` with their first `skip` characters, counted across runs, dropped: runs scrolled
/// off entirely disappear, the run the cut falls in keeps its tail and its style.
pub open spec fn scroll_runs(v: Seq<(Seq<char>, Option<Color>, bool, bool)>, skip: nat) -> Seq<
    (Seq<char>, Option<Color>, bool, bool),
>
    decreases v.len(),
{
    if v.len() == 0 {
        Seq::empty()
    } else {
        let r = v[0];
        if skip >= r.0.len() {
            scroll_runs(v.drop_first(), (skip - r.0.len()) as nat)
        } else {
            seq![(r.0.skip(skip as int), r.1, r.2, r.3)] + scroll_runs(v.drop_first(), 0)
        }
    }
}

/// The characters of runs `v`, joined.
pub open spec fn joined(v: Seq<(Seq<char>, Option<Color>, bool, bool)>) -> Seq<char>
    decreases v.len(),
{
    if v.len() == 0 {
        Seq::empty()
    } else {
        v[0].0 + joined(v.drop_first())
    }
}

fn char_count(s: &str) -> (n: usize)
    ensures
        n == s@.len(),
{
    s.unicode_len()
}

/// Drop the first `hscroll` characters across a line of styled runs, keeping each remaining
/// character's style.
pub fn apply_hscroll_spans(spans: Vec<StyledText>, hscroll: usize) -> (v: Vec<StyledText>)
    ensures
        styled_views(v@) == scroll_runs(styled_views(spans@), hscroll as nat),
{
    let mut skip = hscroll;
    let mut out: Vec<StyledText> = Vec::new();
    let mut i: usize = 0;
    assert(styled_views(spans@).skip(0) =~= styled_views(spans@));
    assert(styled_views(out@) + scroll_runs(styled_views(spans@), hscroll as nat) =~= scroll_runs(
        styled_views(spans@),
        hscroll as nat,
    ));
    while i < spans.len()
        invariant
            i <= spans@.len(),
            scroll_runs(styled_views(spans@), hscroll as nat) == styled_views(out@) + scroll_runs(
                styled_views(spans@).skip(i as int),
                skip as nat,
            ),
        decreases spans@.len() - i,
    {
        let span = &spans[i];
        let len = char_count(span.text.as_str());
        let ghost rest = styled_views(spans@).skip(i as int);
        assert(rest.drop_first() =~= styled_views(spans@).skip(i + 1));
        if skip >= len {
            skip = skip - len;
        } else {
            let v = chars_of(span.text.as_str());
            let content = crate::text::string_of_range(v.as_slice(), skip, v.len());
            let ghost prev = out@;
            out.push(StyledText { text: content, fg: span.fg, bold: span.bold, reversed: span.reversed });
            assert(v@.subrange(skip as int, v@.len() as int) =~= span.text@.skip(skip as int));
            assert(styled_views(out@) =~= styled_views(prev).push(
                (span.text@.skip(skip as int), span.fg, span.bold, span.reversed),
            ));
            assert(styled_views(prev) + (seq![(span.text@.skip(skip as int), span.fg, span.bold, span.reversed)] + scroll_runs(
                rest.drop_first(),
                0,
            )) =~= styled_views(out@) + scroll_runs(rest.drop_first(), 0));
            skip = 0;
        }
        i = i + 1;
    }
    assert(styled_views(spans@).skip(spans@.len() as int) =~= Seq::empty());
    assert(styled_views(out@) + Seq::empty() =~= styled_views(out@));
    out
}

pub proof fn lemma_scroll_runs_joined(v: Seq<(Seq<char>, Option<Color>, bool, bool)>, skip: nat)
    ensures
        joined(scroll_runs(v, skip)) == (if skip >= joined(v).len() {
            Seq::empty()
        } else {
            joined(v).skip(skip as int)
        }),
    decreases v.len(),
{
    if v.len() == 0 {
    } else {
        let r = v[0];
        lemma_scroll_runs_joined(v.drop_first(), if skip >= r.0.len() {
            (skip - r.0.len()) as nat
        } else {
            0
        });
        let j = joined(v.drop_first());
        assert(joined(v) == r.0 + j);
        if skip >= r.0.len() {
            if skip < joined(v).len() {
                assert((r.0 + j).skip(skip as int) =~= j.skip(skip - r.0.len()));
            }
        } else {
            let t = seq![(r.0.skip(skip as int), r.1, r.2, r.3)];
            assert(joined(t + scroll_runs(v.drop_first(), 0)) == r.0.skip(skip as int) + joined(
                scroll_runs(v.drop_first(), 0),
            )) by {
                assert((t + scroll_runs(v.drop_first(), 0)).drop_first() =~= scroll_runs(
                    v.drop_first(),
                    0,
                ));
            }
            assert(j.skip(0) =~= j);
            assert((r.0 + j).skip(skip as int) =~= r.0.skip(skip as int) + j);
        }
    }
}

/// Scrolling a line of styled runs shows exactly the line's text with its first `hscroll`
/// characters dropped (nothing once the whole line is scrolled off).
pub proof fn law_scrolled_runs_show_the_scrolled_text(
    spans: Seq<StyledText>,
    hscroll: nat,
)
    ensures
        joined(scroll_runs(styled_views(spans), hscroll)) == (if hscroll >= joined(
            styled_views(spans),
        ).len() {
            Seq::empty()
        } else {
            joined(styled_views(spans)).skip(hscroll as int)
        }),
{
    lemma_scroll_runs_joined(styled_views(spans), hscroll);
}

} // verus!
