//! Geometry of the List screen's two side-by-side panes: where the divider sits, how far a
//! drag may move it, and which split puts it under the pointer.

use vstd::prelude::*;
use crate::chrome::Rect;
use crate::list_pane::MIN_PANE_CELLS;

verus! {

/// Share of the List screen's width the local pane starts with, and what a double-click on
/// the divider restores.
pub const DEFAULT_SPLIT_PERCENT: u16 = 40;

/// Percent band the divider drag is confined to, before the absolute width floor.
pub const MIN_SPLIT_PERCENT: u16 = 15;

/// Upper end of the percent band the divider drag is confined to.
pub const MAX_SPLIT_PERCENT: u16 = 85;

/// Cells the local pane gets for `percent` of `width`, rounded to the nearest cell.
pub open spec fn split_cells_spec(percent: int, width: int) -> u16 {
    ((width * percent + 50) / 100) as u16
}

/// Cells the local pane gets for `percent` of `width`. The single source of the split
/// geometry: paint sizes the panes with it and the drag clamp reasons in terms of it.
/// Rounds to nearest, matching a percentage layout constraint.
pub fn split_cells(percent: u16, width: u16) -> (c: u16)
    ensures
        c == split_cells_spec(percent as int, width as int),
{
    let w = width as u32;
    let p = percent as u32;
    assert(w * p <= 65535 * 65535) by (nonlinear_arith)
        requires
            w <= 65535,
            p <= 65535,
    ;
    ((w * p + 50) / 100) as u16
}

/// Where the divider was painted: the area the two panes share, and the column of the local
/// pane's right border.
#[derive(Debug, Clone, Copy, PartialEq, Eq, Structural)]
pub struct SplitHit {
    pub area: Rect,
    pub divider_x: u16,
}

/// The divider painted for `percent` of `area`: the local pane takes
/// [`split_cells_spec`] cells, so its right border is the last of them (the last column a
/// terminal can address, should that lie beyond it).
pub open spec fn split_hit_spec(area: Rect, percent: u16) -> SplitHit {
    let cells = split_cells_spec(percent as int, area.width as int);
    SplitHit {
        area,
        divider_x: if cells == 0 {
            area.x
        } else if area.x + cells - 1 > u16::MAX {
            u16::MAX
        } else {
            (area.x + cells - 1) as u16
        },
    }
}

/// The divider painted for `percent` of `area` (see [`split_hit_spec`]).
pub fn split_hit(area: Rect, percent: u16) -> (h: SplitHit)
    ensures
        h == split_hit_spec(area, percent),
{
    let cells = split_cells(percent, area.width);
    let divider_x = if cells == 0 {
        area.x
    } else {
        let x = area.x as u32 + cells as u32 - 1;
        if x > 65535 {
            u16::MAX
        } else {
            x as u16
        }
    };
    SplitHit { area, divider_x }
}

/// A press at (`col`, `row`) lands in the divider's grab zone: the two border columns
/// (the local pane's right and the gist pane's left) widened by one cell on each side,
/// on a row of the panes.
pub open spec fn on_divider_spec(hit: SplitHit, col: u16, row: u16) -> bool {
    &&& hit.divider_x <= col + 1
    &&& col <= hit.divider_x + 2
    &&& hit.area.y <= row < hit.area.y + hit.area.height
}

/// Whether a press at (`col`, `row`) lands in the divider's grab zone (see
/// [`on_divider_spec`]).
pub fn on_divider(hit: SplitHit, col: u16, row: u16) -> (r: bool)
    ensures
        r == on_divider_spec(hit, col, row),
{
    (hit.divider_x as u32) <= (col as u32) + 1 && (col as u32) <= (hit.divider_x as u32) + 2
        && hit.area.y <= row && (row as u32) < (hit.area.y as u32) + (hit.area.height as u32)
}

/// Lowest percent whose split leaves the local pane [`MIN_PANE_CELLS`] cells:
/// `ceil((min * 100 - 50) / width)`.
pub open spec fn split_low(width: int) -> int {
    (MIN_PANE_CELLS * 100 - 50 + width - 1) / width
}

/// Highest percent whose split leaves the gist pane [`MIN_PANE_CELLS`] cells:
/// `floor(((width - min) * 100 + 49) / width)`.
pub open spec fn split_high(width: int) -> int {
    ((width - MIN_PANE_CELLS) * 100 + 49) / width
}

/// The allowed band of split percents at `width`, as `(low, high)`.
pub open spec fn split_band(width: int) -> (int, int) {
    let low = if split_low(width) < MIN_SPLIT_PERCENT {
        MIN_SPLIT_PERCENT as int
    } else {
        split_low(width)
    };
    let high = if split_high(width) > MAX_SPLIT_PERCENT {
        MAX_SPLIT_PERCENT as int
    } else {
        split_high(width)
    };
    (low, high)
}

/// The split a drag to `percent` settles on at `width`: clamped into the band, `None` when
/// the width cannot hold two readable panes at any split.
pub open spec fn clamp_split_spec(percent: int, width: int) -> Option<u16> {
    let (low, high) = split_band(width);
    if width < MIN_PANE_CELLS * 2 || low > high {
        None
    } else if percent < low {
        Some(low as u16)
    } else if percent > high {
        Some(high as u16)
    } else {
        Some(percent as u16)
    }
}

/// Clamp a requested split to the percent band and to [`MIN_PANE_CELLS`] on both sides.
/// `None` when `width` cannot hold two readable panes at any split — the caller then leaves
/// the layout alone rather than painting two slits.
pub fn clamp_split_percent(percent: u16, width: u16) -> (r: Option<u16>)
    ensures
        r == clamp_split_spec(percent as int, width as int),
{
    if width < MIN_PANE_CELLS * 2 {
        return None;
    }
    let w = width as u32;
    let min_cells = MIN_PANE_CELLS as u32;
    let low32 = (min_cells * 100 - 50 + w - 1) / w;
    let high32 = ((w - min_cells) * 100 + 49) / w;
    assert(low32 <= 1350) by (nonlinear_arith)
        requires
            low32 == (1350 + w - 1) / (w as int),
            w >= 28,
    ;
    assert(high32 <= 100) by (nonlinear_arith)
        requires
            high32 == ((w - 14) * 100 + 49) / (w as int),
            w >= 28,
    ;
    let low = if (low32 as u16) < MIN_SPLIT_PERCENT {
        MIN_SPLIT_PERCENT
    } else {
        low32 as u16
    };
    let high = if (high32 as u16) > MAX_SPLIT_PERCENT {
        MAX_SPLIT_PERCENT
    } else {
        high32 as u16
    };
    if low > high {
        None
    } else if percent < low {
        Some(low)
    } else if percent > high {
        Some(high)
    } else {
        Some(percent)
    }
}

/// The percent that puts the local pane's right border under `col` of `area`.
pub open spec fn percent_for_col_spec(area: Rect, col: int) -> u16 {
    let cells = (if col >= area.x {
        col - area.x
    } else {
        0
    }) + 1;
    let width = if area.width >= 1 {
        area.width as int
    } else {
        1
    };
    let p = (cells * 100 + width / 2) / width;
    (if p > 100 {
        100
    } else {
        p
    }) as u16
}

/// Percent that puts the local pane's right border under `col`. Rounds to the nearest
/// percent: above 100 columns one percent is worth more than one cell, so the divider
/// snaps to the closest reachable column instead of drifting behind the pointer.
pub fn percent_for_col(area: Rect, col: u16) -> (p: u16)
    ensures
        p == percent_for_col_spec(area, col as int),
{
    let cells = (col.saturating_sub(area.x) as u32) + 1;
    let width = if area.width >= 1 {
        area.width as u32
    } else {
        1
    };
    let p = (cells * 100 + width / 2) / width;
    if p > 100 {
        100
    } else {
        p as u16
    }
}

proof fn lemma_ceil_div_mul(a: int, w: int, q: int)
    requires
        w > 0,
        a >= 0,
        q >= (a + w - 1) / w,
    ensures
        q * w >= a,
{
    assert(((a + w - 1) / w) * w >= a) by (nonlinear_arith)
        requires
            w > 0,
            a >= 0,
    {
        let k = (a + w - 1) / w;
        let r = (a + w - 1) % w;
        assert(a + w - 1 == k * w + r);
    }
    assert(q * w >= ((a + w - 1) / w) * w) by (nonlinear_arith)
        requires
            w > 0,
            q >= (a + w - 1) / w,
    ;
}

proof fn lemma_floor_div_mul(b: int, w: int, q: int)
    requires
        w > 0,
        q <= b / w,
    ensures
        q * w <= b,
{
    assert((b / w) * w <= b) by (nonlinear_arith)
        requires
            w > 0,
    {
        assert(b == (b / w) * w + b % w);
    }
    assert(q * w <= (b / w) * w) by (nonlinear_arith)
        requires
            w > 0,
            q <= b / w,
    ;
}

/// Any split the drag clamp settles on keeps both panes at least [`MIN_PANE_CELLS`] wide and
/// stays inside the percent band.
pub proof fn law_clamped_split_keeps_both_panes_readable(percent: int, width: u16)
    requires
        clamp_split_spec(percent, width as int) is Some,
    ensures
        ({
            let q = clamp_split_spec(percent, width as int)->0;
            &&& MIN_SPLIT_PERCENT <= q <= MAX_SPLIT_PERCENT
            &&& split_cells_spec(q as int, width as int) >= MIN_PANE_CELLS
            &&& width - split_cells_spec(q as int, width as int) >= MIN_PANE_CELLS
        }),
{
    let w = width as int;
    let q = clamp_split_spec(percent, w)->0 as int;
    let (low, high) = split_band(w);
    assert(low <= q <= high);
    lemma_ceil_div_mul(1350, w, q);
    lemma_floor_div_mul((w - 14) * 100 + 49, w, q);
    assert(w * q == q * w) by (nonlinear_arith);
    assert(0 <= (w * q + 50) / 100 <= w - 14);
}

/// A pane width that holds two readable panes always has a split to offer.
pub proof fn law_wide_enough_always_splits(percent: int, width: u16)
    requires
        width >= MIN_PANE_CELLS * 2,
    ensures
        clamp_split_spec(percent, width as int) is Some,
{
    let w = width as int;
    let a = 1350 + w - 1;
    let b = (w - 14) * 100 + 49;
    assert(a / w <= b / w) by (nonlinear_arith)
        requires
            w >= 28,
            a == 1349 + w,
            b == 100 * w - 1351,
    {
        vstd::arithmetic::div_mod::lemma_div_is_ordered(a, b, w);
    }
    assert(b / w >= 15) by (nonlinear_arith)
        requires
            w >= 28,
            b == 100 * w - 1351,
    {
        vstd::arithmetic::div_mod::lemma_div_is_ordered(15 * w, b, w);
        vstd::arithmetic::div_mod::lemma_div_by_multiple(15, w);
    }
    assert(a / w <= 85) by (nonlinear_arith)
        requires
            w >= 28,
            a == 1349 + w,
    {
        vstd::arithmetic::div_mod::lemma_div_is_ordered(a, 85 * w, w);
        vstd::arithmetic::div_mod::lemma_div_by_multiple(85, w);
    }
}

/// Clamping an already-clamped split changes nothing.
pub proof fn law_clamp_is_idempotent(percent: int, width: u16)
    requires
        clamp_split_spec(percent, width as int) is Some,
    ensures
        clamp_split_spec(clamp_split_spec(percent, width as int)->0 as int, width as int)
            == clamp_split_spec(percent, width as int),
{
}

/// Dragging the divider to a column lands the local pane's right border within the cells one
/// percent buys (`width / 100 + 1`) of that column, for any column inside the area.
pub proof fn law_divider_lands_under_the_pointer(area: Rect, col: u16)
    requires
        area.width >= 1,
        area.x <= col,
        col < area.x + area.width,
    ensures
        ({
            let landed = split_cells_spec(percent_for_col_spec(area, col as int) as int, area.width as int) - 1
                + area.x;
            let step = area.width / 100 + 1;
            col - step <= landed <= col + step
        }),
{
    let w = area.width as int;
    let c = col - area.x + 1;
    let p = (c * 100 + w / 2) / w;
    assert(0 <= p <= 100) by (nonlinear_arith)
        requires
            1 <= c <= w,
            p == (c * 100 + w / 2) / w,
    {
        vstd::arithmetic::div_mod::lemma_div_is_ordered(c * 100 + w / 2, 101 * w - 1, w);
        vstd::arithmetic::div_mod::lemma_fundamental_div_mod(101 * w - 1, w);
    }
    assert(p * w <= c * 100 + w / 2 && p * w > c * 100 + w / 2 - w) by (nonlinear_arith)
        requires
            w >= 1,
            c >= 1,
            p == (c * 100 + w / 2) / w,
    {
        vstd::arithmetic::div_mod::lemma_fundamental_div_mod(c * 100 + w / 2, w);
    }
    let s = (w * p + 50) / 100;
    assert(w * p == p * w) by (nonlinear_arith);
    assert(100 * s <= w * p + 50 && 100 * s > w * p - 50);
    assert(w * p <= 100 * w) by (nonlinear_arith)
        requires
            0 <= p <= 100,
            w >= 1,
    ;
    assert(s <= w);
    assert(c - (w / 100 + 1) <= s <= c + (w / 100 + 1));
}

} // verus!
