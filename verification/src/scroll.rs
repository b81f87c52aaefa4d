//! Shared body text + scroll offsets for Diff, Confirm, and Preview.
//!
//! Vertical max is the last addressable line (`lines - 1`; empty → 0). Horizontal max is
//! [`hscroll_max_among`]: the longest line's character count less one. Wrap is not this type's
//! job — callers zero `hscroll` themselves when wrapping.

use vstd::prelude::*;
use crate::text::{line_stats, lines_of, max_len};

verus! {

/// Scrollable text body: content plus vertical and horizontal offsets.
#[derive(Debug, Clone, PartialEq, Eq)]
pub struct ScrollBody {
    pub text: String,
    pub scroll: u16,
    pub hscroll: u16,
}

/// `n` clamped into `u16`.
pub open spec fn clamp_u16(n: int) -> u16 {
    if n < 0 {
        0
    } else if n > u16::MAX {
        u16::MAX
    } else {
        n as u16
    }
}

/// Last addressable line index of `text` (empty body → 0), clamped to `u16`.
pub open spec fn vscroll_max_of(text: Seq<char>) -> u16 {
    clamp_u16(lines_of(text).len() - 1)
}

/// Horizontal cap for `text`: the longest line's character count less one (0 when there are
/// no characters), clamped to `u16`.
pub open spec fn hscroll_max_of(text: Seq<char>) -> u16 {
    clamp_u16(max_len(lines_of(text)) - 1)
}

/// Horizontal scroll cap over the lines of `text`: the longest line's char count less one.
pub fn hscroll_max_among(text: &str) -> (m: u16)
    ensures
        m == hscroll_max_of(text@),
{
    let (_, longest) = line_stats(text);
    if longest == 0 {
        0
    } else if longest - 1 > 65535 {
        65535
    } else {
        (longest - 1) as u16
    }
}

/// The body after one line down: one more, unless already at the cap.
pub open spec fn down_spec(b: ScrollBody) -> ScrollBody {
    ScrollBody {
        scroll: if b.scroll < vscroll_max_of(b.text@) {
            (b.scroll + 1) as u16
        } else {
            b.scroll
        },
        ..b
    }
}

/// The body after one line up: one less, saturating at 0.
pub open spec fn up_spec(b: ScrollBody) -> ScrollBody {
    ScrollBody { scroll: if b.scroll == 0 { 0 } else { (b.scroll - 1) as u16 }, ..b }
}

/// The body after paging down by `lines`: saturating add, then clamped at the cap.
pub open spec fn page_down_spec(b: ScrollBody, lines: u16) -> ScrollBody {
    let sum = clamp_u16(b.scroll + lines);
    let max = vscroll_max_of(b.text@);
    ScrollBody { scroll: if sum < max { sum } else { max }, ..b }
}

/// The body after paging up by `lines`, saturating at 0.
pub open spec fn page_up_spec(b: ScrollBody, lines: u16) -> ScrollBody {
    ScrollBody { scroll: clamp_u16(b.scroll - lines), ..b }
}

/// The body after one character right: one more, unless at the longest line's cap.
pub open spec fn right_spec(b: ScrollBody) -> ScrollBody {
    ScrollBody {
        hscroll: if b.hscroll < hscroll_max_of(b.text@) {
            (b.hscroll + 1) as u16
        } else {
            b.hscroll
        },
        ..b
    }
}

/// The body after one character left, saturating at 0.
pub open spec fn left_spec(b: ScrollBody) -> ScrollBody {
    ScrollBody { hscroll: if b.hscroll == 0 { 0 } else { (b.hscroll - 1) as u16 }, ..b }
}

/// Both offsets within their caps.
pub open spec fn within_caps(b: ScrollBody) -> bool {
    b.scroll <= vscroll_max_of(b.text@) && b.hscroll <= hscroll_max_of(b.text@)
}

impl Default for ScrollBody {
    fn default() -> (b: Self)
        ensures
            b.text@ == Seq::<char>::empty(),
            b.scroll == 0,
            b.hscroll == 0,
    {
        ScrollBody { text: String::new(), scroll: 0, hscroll: 0 }
    }
}

impl ScrollBody {
    /// Last addressable line index (empty body → 0).
    fn vscroll_max(&self) -> (m: u16)
        ensures
            m == vscroll_max_of(self.text@),
    {
        let (count, _) = line_stats(self.text.as_str());
        if count == 0 {
            0
        } else if count - 1 > 65535 {
            65535
        } else {
            (count - 1) as u16
        }
    }

    /// Move down one line, clamped at the last line.
    pub fn down(&mut self)
        ensures
            *final(self) == down_spec(*old(self)),
    {
        let max = self.vscroll_max();
        if self.scroll < max {
            self.scroll = self.scroll + 1;
        }
    }

    /// Move up one line, saturating at 0.
    pub fn up(&mut self)
        ensures
            *final(self) == up_spec(*old(self)),
    {
        self.scroll = self.scroll.saturating_sub(1);
    }

    /// Page down by `lines`, clamped at the last line.
    pub fn page_down(&mut self, lines: u16)
        ensures
            *final(self) == page_down_spec(*old(self), lines),
    {
        let max = self.vscroll_max();
        let sum = self.scroll.saturating_add(lines);
        self.scroll = if sum < max {
            sum
        } else {
            max
        };
    }

    /// Page up by `lines`, saturating at 0.
    pub fn page_up(&mut self, lines: u16)
        ensures
            *final(self) == page_up_spec(*old(self), lines),
    {
        self.scroll = self.scroll.saturating_sub(lines);
    }

    /// Move right one character, clamped at the longest line.
    pub fn right(&mut self)
        ensures
            *final(self) == right_spec(*old(self)),
    {
        let max = hscroll_max_among(self.text.as_str());
        if self.hscroll < max {
            self.hscroll = self.hscroll + 1;
        }
    }

    /// Move left one character, saturating at 0.
    pub fn left(&mut self)
        ensures
            *final(self) == left_spec(*old(self)),
    {
        self.hscroll = self.hscroll.saturating_sub(1);
    }
}

/// Every scroll step keeps a body whose offsets are within their caps within them.
pub proof fn law_steps_keep_offsets_within_caps(b: ScrollBody, lines: u16)
    requires
        within_caps(b),
    ensures
        within_caps(down_spec(b)),
        within_caps(up_spec(b)),
        within_caps(page_down_spec(b, lines)),
        within_caps(page_up_spec(b, lines)),
        within_caps(right_spec(b)),
        within_caps(left_spec(b)),
{
}

/// Paging down never leaves the vertical offset past the last line, whatever it was before.
pub proof fn law_page_down_lands_within_cap(b: ScrollBody, lines: u16)
    ensures
        page_down_spec(b, lines).scroll <= vscroll_max_of(b.text@),
{
}

/// One line down then one line up returns to the start, unless the body was already at
/// its last line.
pub proof fn law_down_then_up_restores(b: ScrollBody)
    requires
        b.scroll < vscroll_max_of(b.text@),
    ensures
        up_spec(down_spec(b)) == b,
{
}

/// One character right then one left returns to the start, unless already at the cap.
pub proof fn law_right_then_left_restores(b: ScrollBody)
    requires
        b.hscroll < hscroll_max_of(b.text@),
    ensures
        left_spec(right_spec(b)) == b,
{
}

/// Up, page up, and left never move past the top-left corner, and from it they change
/// nothing.
pub proof fn law_backward_steps_saturate_at_zero(b: ScrollBody, lines: u16)
    requires
        b.scroll == 0,
        b.hscroll == 0,
    ensures
        up_spec(b) == b,
        page_up_spec(b, lines) == b,
        left_spec(b) == b,
{
}

} // verus!
