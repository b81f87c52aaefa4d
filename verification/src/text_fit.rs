//! Width-aware text fitting helpers.
//!
//! Widths are terminal cells as ratatui measures a span. A string's width is not in general
//! the sum of its characters' widths (emoji sequences and a few ligatures are measured as a
//! whole), so the contracts below speak of [`cell_width_of`] for whole strings and of
//! [`char_w`], the width of a one-character string, where the code measures character by
//! character.

use vstd::prelude::*;
use crate::view_model::PaneTitleVm;
use crate::text::{owned, 
    chars_of, is_ws, lemma_ws_run_back_bound, push_char, push_str, string_of, string_of_range,
    trailing_ws, trim_end, ws_run_back,
};

verus! {

/// Width in terminal cells of a string with characters `s`, as ratatui measures a span.
pub uninterp spec fn cell_width_of(s: Seq<char>) -> nat;

/// Every character is printable ASCII (space through `~`).
pub open spec fn printable_ascii(s: Seq<char>) -> bool {
    forall|i: int| 0 <= i < s.len() ==> 0x20 <= #[trigger] (s[i] as u32) <= 0x7E
}

/// Width of `text` in terminal cells — the same measure ratatui truncates a title by, so a
/// double-width glyph is not silently clipped by the block after we let it through.
///
/// Calls ratatui's `Span::raw(text).width()`, which measures with `unicode-width`. The
/// contract names the result [`cell_width_of`] of the characters; the one fact it states
/// beyond that is the documented rule that a printable ASCII character is one cell wide and
/// such characters form no multi-character sequence, so a printable ASCII string is as wide as
/// it is long. Nothing else about the measure (wide glyphs, emoji sequences) is stated.
#[verifier::external_body]
pub fn cell_width(text: &str) -> (w: usize)
    ensures
        w as nat == cell_width_of(text@),
        printable_ascii(text@) ==> w == text@.len(),
{
    ratatui::text::Span::raw(text).width()
}

/// Width of the one-character string `c`.
pub open spec fn char_w(c: char) -> nat {
    cell_width_of(seq![c])
}

/// Width of the one-character string `c`.
pub fn char_width(c: char) -> (w: usize)
    ensures
        w == char_w(c),
{
    let mut s = String::new();
    push_char(&mut s, c);
    assert(s@ =~= seq![c]);
    cell_width(s.as_str())
}

/// Width of the characters `v`, measured as one string.
pub fn chars_width(v: &[char]) -> (w: usize)
    ensures
        w == cell_width_of(v@),
{
    let s = string_of(v);
    cell_width(s.as_str())
}

/// How many characters of `t[i..]` fit in `budget` cells when `used` are already spent,
/// taking characters one by one and stopping at the first that does not fit.
pub open spec fn fit_count_from(t: Seq<char>, i: int, used: nat, budget: nat) -> nat
    decreases t.len() - i,
{
    if i < 0 || i >= t.len() || used + char_w(t[i]) > budget {
        0
    } else {
        1 + fit_count_from(t, i + 1, used + char_w(t[i]), budget)
    }
}

/// How many leading characters of `t` fit in `budget` cells, measured character by character.
pub open spec fn fit_count(t: Seq<char>, budget: nat) -> nat {
    fit_count_from(t, 0, 0, budget)
}

/// Sum of the characters' own widths.
pub open spec fn sum_w(s: Seq<char>) -> nat
    decreases s.len(),
{
    if s.len() == 0 {
        0
    } else {
        sum_w(s.drop_last()) + char_w(s.last())
    }
}

pub proof fn lemma_fit_count_from_bound(t: Seq<char>, i: int, used: nat, budget: nat)
    requires
        0 <= i <= t.len(),
    ensures
        i + fit_count_from(t, i, used, budget) <= t.len(),
    decreases t.len() - i,
{
    if i < t.len() && used + char_w(t[i]) <= budget {
        lemma_fit_count_from_bound(t, i + 1, used + char_w(t[i]), budget);
    }
}

/// The ellipsis that marks a clipped value.
pub const ELLIPSIS: &'static str = "…";

/// Separator between the segments of a pane title.
pub const TITLE_SEP: &'static str = " · ";

/// Shortest elided context worth painting: `…` plus at least three cells.
pub const MIN_ELIDED_WIDTH: usize = 4;

/// What [`truncate_end`] returns: `t` itself when it fits; nothing when not even the
/// ellipsis fits; otherwise the longest character-by-character prefix that fits beside the
/// ellipsis, with trailing whitespace dropped, then `…`.
pub open spec fn truncate_end_spec(t: Seq<char>, width: nat) -> Seq<char> {
    let ell = cell_width_of("…"@);
    if cell_width_of(t) <= width {
        t
    } else if width == 0 || width < ell {
        seq![]
    } else {
        trim_end(t.take(fit_count(t, (width - ell) as nat) as int)) + "…"@
    }
}

/// Longest prefix of `t` whose characters fit `budget` cells one by one, and that count.
fn clip_prefix(t: &[char], budget: usize) -> (k: usize)
    ensures
        k == fit_count(t@, budget as nat),
        k <= t@.len(),
{
    let mut used: usize = 0;
    let mut i: usize = 0;
    while i < t.len()
        invariant
            i <= t@.len(),
            used <= budget,
            fit_count(t@, budget as nat) == i + fit_count_from(t@, i as int, used as nat, budget as nat),
        ensures
            fit_count(t@, budget as nat) == i,
        decreases t.len() - i,
    {
        let cells = char_width(t[i]);
        if cells > budget - used {
            break;
        }
        used = used + cells;
        i = i + 1;
    }
    proof {
        lemma_fit_count_from_bound(t@, 0, 0, budget as nat);
    }
    i
}

/// Width-aware end truncation: a value that fits is returned unchanged; a value that does
/// not is cut on a character boundary and marked with `…`. Wide glyphs are never split — a
/// leftover cell is left empty rather than showing half a character.
pub fn truncate_end(text: &str, width: usize) -> (r: String)
    ensures
        r@ == truncate_end_spec(text@, width as nat),
{
    if cell_width(text) <= width {
        let v = chars_of(text);
        return string_of(v.as_slice());
    }
    if width == 0 {
        return String::new();
    }
    let ellipsis_width = cell_width(ELLIPSIS);
    if width < ellipsis_width {
        return String::new();
    }
    let budget = width - ellipsis_width;
    let v = chars_of(text);
    let k = clip_prefix(v.as_slice(), budget);
    let kept = string_of_range(v.as_slice(), 0, k);
    let ghost taken = v@.take(k as int);
    let kv = chars_of(kept.as_str());
    let tw = trailing_ws(kv.as_slice(), k);
    proof {
        assert(kv@ =~= taken);
    }
    let mut out = string_of_range(kv.as_slice(), 0, k - tw);
    push_str(&mut out, ELLIPSIS);
    proof {
        assert(kv@.subrange(0, (k - tw) as int) =~= trim_end(taken));
    }
    out
}

/// The widths of a character put in front add up.
pub proof fn lemma_sum_w_prepend(c: char, s: Seq<char>)
    ensures
        sum_w(seq![c] + s) == char_w(c) + sum_w(s),
    decreases s.len(),
{
    let cs = seq![c] + s;
    if s.len() > 0 {
        lemma_sum_w_prepend(c, s.drop_last());
        assert(cs.drop_last() =~= seq![c] + s.drop_last());
        assert(cs.last() == s.last());
    } else {
        assert(cs.drop_last() =~= Seq::<char>::empty());
        assert(cs.last() == c);
        assert(sum_w(Seq::<char>::empty()) == 0);
        assert(s =~= Seq::<char>::empty());
    }
}

/// A prefix is no wider, character by character, than the whole.
pub proof fn lemma_sum_w_take(s: Seq<char>, k: int)
    requires
        0 <= k <= s.len(),
    ensures
        sum_w(s.take(k)) <= sum_w(s),
    decreases s.len(),
{
    if k < s.len() {
        lemma_sum_w_take(s.drop_last(), k);
        assert(s.drop_last().take(k) =~= s.take(k));
    } else {
        assert(s.take(k) =~= s);
    }
}

/// The characters the fitting loop takes from `t[i..]`, with `used` cells spent, fit the
/// budget one by one.
pub proof fn lemma_fit_count_from_fits(t: Seq<char>, i: int, used: nat, budget: nat)
    requires
        0 <= i <= t.len(),
        used <= budget,
    ensures
        used + sum_w(t.subrange(i, i + fit_count_from(t, i, used, budget))) <= budget,
    decreases t.len() - i,
{
    let n = fit_count_from(t, i, used, budget);
    if i < t.len() && used + char_w(t[i]) <= budget {
        lemma_fit_count_from_fits(t, i + 1, used + char_w(t[i]), budget);
        lemma_fit_count_from_bound(t, i + 1, used + char_w(t[i]), budget);
        let rest = t.subrange(i + 1, i + n);
        assert(t.subrange(i, i + n) =~= seq![t[i]] + rest);
        lemma_sum_w_prepend(t[i], rest);
    } else {
        assert(t.subrange(i, i + n) =~= Seq::<char>::empty());
    }
}

/// What [`truncate_end`] returns fits `width`: the value itself only when it is measured to
/// fit; otherwise nothing, or a prefix whose characters, each measured as ratatui measures a
/// one-character span, take with the ellipsis no more than `width` cells.
pub proof fn law_truncate_end_fits(t: Seq<char>, width: nat)
    ensures
        cell_width_of(t) <= width ==> truncate_end_spec(t, width) == t,
        cell_width_of(t) > width && width >= cell_width_of("…"@) && width > 0 ==> {
            let kept = trim_end(t.take(fit_count(t, (width - cell_width_of("…"@)) as nat) as int));
            &&& truncate_end_spec(t, width) == kept + "…"@
            &&& sum_w(kept) + cell_width_of("…"@) <= width
        },
        cell_width_of(t) > width && (width == 0 || width < cell_width_of("…"@)) ==> truncate_end_spec(
            t,
            width,
        ).len() == 0,
{
    let ell = cell_width_of("…"@);
    if cell_width_of(t) > width && width >= ell && width > 0 {
        let b = (width - ell) as nat;
        let k = fit_count(t, b);
        lemma_fit_count_from_fits(t, 0, 0, b);
        lemma_fit_count_from_bound(t, 0, 0, b);
        assert(t.subrange(0, k as int) =~= t.take(k as int));
        let taken = t.take(k as int);
        let n = ws_run_back(taken, taken.len() as int);
        lemma_ws_run_back_bound(taken, taken.len() as int);
        lemma_sum_w_take(taken, taken.len() - n);
    }
}

/// Title sitting on a bordered block: the two corner glyphs are not available.
pub fn fit_block_title(title: &str, area_width: u16) -> (r: String)
    ensures
        r@ == truncate_end_spec(title@, (if area_width >= 2 { area_width - 2 } else { 0 }) as nat),
{
    truncate_end(title, area_width.saturating_sub(2) as usize)
}

// ---------------------------------------------------------------------------------------------
// Pane titles
// ---------------------------------------------------------------------------------------------

/// The character views of a list of strings.
pub open spec fn views(v: Seq<String>) -> Seq<Seq<char>> {
    v.map_values(|s: String| s@)
}

/// `segs` joined with `sep` between neighbours.
pub open spec fn join_with(segs: Seq<Seq<char>>, sep: Seq<char>) -> Seq<char>
    decreases segs.len(),
{
    if segs.len() == 0 {
        seq![]
    } else if segs.len() == 1 {
        segs[0]
    } else {
        join_with(segs.drop_last(), sep) + sep + segs.last()
    }
}

/// Cells segment `i` costs: its separator (none before the head) plus the segment.
pub open spec fn seg_cost(segs: Seq<Seq<char>>, i: int) -> nat {
    (if i == 0 {
        0
    } else {
        cell_width_of(" · "@)
    }) + cell_width_of(segs[i])
}

/// How many of `segs[i..]` join whole into `width` cells with `used` already spent.
pub open spec fn seg_fit_from(segs: Seq<Seq<char>>, i: int, used: nat, width: nat) -> nat
    decreases segs.len() - i,
{
    if i < 0 || i >= segs.len() || used + seg_cost(segs, i) > width {
        0
    } else {
        1 + seg_fit_from(segs, i + 1, used + seg_cost(segs, i), width)
    }
}

/// Cells the first `k` segments cost, separators included.
pub open spec fn cost_sum(segs: Seq<Seq<char>>, k: int) -> nat
    decreases k,
{
    if k <= 0 {
        0
    } else {
        cost_sum(segs, k - 1) + seg_cost(segs, k - 1)
    }
}

/// What [`fit_segments`] returns, as (text, cells used, segments shown): the segments that
/// join whole into `width`, stopping at the first that does not fit; when not even the head
/// fits, the head clipped by [`truncate_end_spec`] and no segment counted as shown.
pub open spec fn fit_segments_spec(segs: Seq<Seq<char>>, width: nat) -> (Seq<char>, nat, nat) {
    let shown = seg_fit_from(segs, 0, 0, width);
    if shown == 0 && segs.len() > 0 {
        let t = truncate_end_spec(segs[0], width);
        (t, cell_width_of(t), 0)
    } else {
        (join_with(segs.take(shown as int), " · "@), cost_sum(segs, shown as int), shown)
    }
}

/// Index of the first character of `t` (from `i` on) whose suffix fits `budget` cells, or
/// `t.len()` when none does.
pub open spec fn suffix_start_from(t: Seq<char>, i: int, budget: nat) -> int
    decreases t.len() - i,
{
    if i < 0 || i >= t.len() {
        t.len() as int
    } else if cell_width_of(t.skip(i)) <= budget {
        i
    } else {
        suffix_start_from(t, i + 1, budget)
    }
}

/// What [`elide_start`] returns: `…` followed by the longest tail of `t` that fits in one
/// cell less than `room`.
pub open spec fn elide_start_spec(t: Seq<char>, room: nat) -> Seq<char> {
    let budget: nat = if room >= 1 {
        (room - 1) as nat
    } else {
        0
    };
    "…"@ + t.skip(suffix_start_from(t, 0, budget))
}

/// The segments a title shows, as [`fit_segments_spec`] gives them: with the short head in
/// place of the head when that shows more segments.
pub open spec fn title_segments_spec(
    segs: Seq<Seq<char>>,
    short_head: Option<Seq<char>>,
    width: nat,
) -> (Seq<char>, nat, nat) {
    let full = fit_segments_spec(segs, width);
    match short_head {
        Some(short) => if full.2 < segs.len() {
            let abbreviated = fit_segments_spec(segs.update(0, short), width);
            if abbreviated.2 > full.2 {
                abbreviated
            } else {
                full
            }
        } else {
            full
        },
        None => full,
    }
}

/// What [`fit_title`] returns for a title with `segs`, optional short head and context.
pub open spec fn fit_title_spec(
    segs: Seq<Seq<char>>,
    short_head: Option<Seq<char>>,
    context: Option<Seq<char>>,
    width: nat,
) -> Seq<char> {
    let fitted = title_segments_spec(segs, short_head, width);
    if fitted.2 == 0 {
        fitted.0
    } else {
        match context {
            Some(c) => if c.len() == 0 {
                fitted.0
            } else {
                let sep = if fitted.0.len() == 0 {
                    ""@
                } else {
                    " · "@
                };
                let spent = fitted.1 + cell_width_of(sep);
                let room: nat = if width >= spent {
                    (width - spent) as nat
                } else {
                    0
                };
                if cell_width_of(c) <= room {
                    fitted.0 + sep + c
                } else if room >= 4 {
                    fitted.0 + sep + elide_start_spec(c, room)
                } else {
                    fitted.0
                }
            },
            None => fitted.0,
        }
    }
}

/// How much of a title's segments fits a width, and what that cost.
pub struct FittedSegments {
    pub text: String,
    pub used: usize,
    /// Segments joined whole. Fewer than `segments.len()` means state was dropped.
    pub shown: usize,
}

/// Join `segments` greedily, stopping at the first one that does not fit.
pub fn fit_segments(segments: &[String], width: usize) -> (r: FittedSegments)
    ensures
        (r.text@, r.used as nat, r.shown as nat) == fit_segments_spec(views(segments@), width as nat),
        r.shown <= segments@.len(),
        r.shown > 0 ==> r.used <= width,
{
    let ghost segs = views(segments@);
    let n = segments.len();
    let sep_w = cell_width(TITLE_SEP);
    let mut text = String::new();
    let mut used: usize = 0;
    let mut i: usize = 0;
    while i < n
        invariant
            n == segments@.len(),
            segs == views(segments@),
            sep_w == cell_width_of(" · "@),
            i <= n,
            used <= width,
            used == cost_sum(segs, i as int),
            text@ == join_with(segs.take(i as int), " · "@),
            seg_fit_from(segs, 0, 0, width as nat) == i + seg_fit_from(
                segs,
                i as int,
                used as nat,
                width as nat,
            ),
        decreases n - i,
    {
        proof {
            assert(segs[i as int] == segments@[i as int]@);
        }
        let seg_w = cell_width(segments[i].as_str());
        let sw = if i == 0 {
            0
        } else {
            sep_w
        };
        let room = width - used;
        if seg_w > room || sw > room - seg_w {
            if i == 0 {
                let t = truncate_end(segments[0].as_str(), width);
                let tw = cell_width(t.as_str());
                return FittedSegments { text: t, used: tw, shown: 0 };
            }
            return FittedSegments { text, used, shown: i };
        }
        let ghost before = text@;
        if i > 0 {
            push_str(&mut text, TITLE_SEP);
        }
        push_str(&mut text, segments[i].as_str());
        proof {
            assert(segs.take(i + 1).drop_last() =~= segs.take(i as int));
            if i == 0 {
                assert(text@ =~= segs[0]);
            } else {
                assert(text@ =~= before + " · "@ + segs[i as int]);
            }
        }
        used = used + sw + seg_w;
        i = i + 1;
    }
    proof {
        assert(segs.take(n as int) =~= segs);
    }
    FittedSegments { text, used, shown: n }
}

/// `text` shortened to `room` cells by dropping its head behind a leading `…`.
pub fn elide_start(text: &str, room: usize) -> (r: String)
    ensures
        r@ == elide_start_spec(text@, room as nat),
{
    let tail_budget = room.saturating_sub(1);
    let v = chars_of(text);
    let n = v.len();
    let mut start: usize = 0;
    while start < n
        invariant
            n == v@.len(),
            v@ == text@,
            start <= n,
            suffix_start_from(text@, 0, tail_budget as nat) == suffix_start_from(
                text@,
                start as int,
                tail_budget as nat,
            ),
        ensures
            start <= n,
            suffix_start_from(text@, 0, tail_budget as nat) == start,
        decreases n - start,
    {
        let tail = string_of_range(v.as_slice(), start, n);
        proof {
            assert(tail@ =~= text@.skip(start as int));
        }
        if cell_width(tail.as_str()) <= tail_budget {
            break;
        }
        start = start + 1;
    }
    let mut out = String::new();
    push_str(&mut out, ELLIPSIS);
    let tail = string_of_range(v.as_slice(), start, n);
    push_str(&mut out, tail.as_str());
    proof {
        assert(tail@ =~= text@.skip(start as int));
        assert(suffix_start_from(text@, 0, tail_budget as nat) == start);
    }
    out
}

/// The segments [`seg_fit_from`] takes from `i`, with `used` cells spent, fit `width`.
pub proof fn lemma_seg_fit_from_fits(segs: Seq<Seq<char>>, i: int, used: nat, width: nat)
    requires
        0 <= i <= segs.len(),
        used <= width,
    ensures
        i + seg_fit_from(segs, i, used, width) <= segs.len(),
        used + cost_sum(segs, i + seg_fit_from(segs, i, used, width)) - cost_sum(segs, i) <= width,
    decreases segs.len() - i,
{
    if i < segs.len() && used + seg_cost(segs, i) <= width {
        lemma_seg_fit_from_fits(segs, i + 1, used + seg_cost(segs, i), width);
    }
}

/// The first tail [`suffix_start_from`] finds fits the budget.
pub proof fn lemma_suffix_start_fits(t: Seq<char>, i: int, budget: nat)
    requires
        0 <= i,
    ensures
        suffix_start_from(t, i, budget) < t.len() ==> cell_width_of(
            t.skip(suffix_start_from(t, i, budget)),
        ) <= budget,
    decreases t.len() - i,
{
    if i < t.len() && cell_width_of(t.skip(i)) > budget {
        lemma_suffix_start_fits(t, i + 1, budget);
    }
}

/// The segments [`fit_segments`] joins whole cost, separators included, the cells it
/// reports, no more than `width`.
pub proof fn law_fit_segments_within_width(segs: Seq<Seq<char>>, width: nat)
    ensures
        fit_segments_spec(segs, width).2 <= segs.len(),
        fit_segments_spec(segs, width).2 > 0 ==> {
            &&& fit_segments_spec(segs, width).1 == cost_sum(segs, fit_segments_spec(segs, width).2 as int)
            &&& fit_segments_spec(segs, width).1 <= width
        },
{
    lemma_seg_fit_from_fits(segs, 0, 0, width);
}

/// A pane title fitted by [`fit_title`] fits its width piece by piece: the segments it shows
/// cost no more than `width` (when not even the head fits, the head is clipped as
/// [`truncate_end`] clips and nothing follows); a context shown whole fits the room the
/// segments and its separator leave (none when they leave none); an elided context, shown
/// only in a room of four cells or more, is `…` followed by a tail measured to fit one cell
/// less than the room.
pub proof fn law_fit_title_within_width(
    segs: Seq<Seq<char>>,
    short_head: Option<Seq<char>>,
    context: Option<Seq<char>>,
    width: nat,
)
    ensures
        ({
            let f = title_segments_spec(segs, short_head, width);
            let r = fit_title_spec(segs, short_head, context, width);
            &&& f.2 > 0 ==> f.1 <= width
            &&& f.2 == 0 ==> r == f.0
            &&& f.2 > 0 ==> r == f.0 || (context is Some && {
                let c = context->0;
                let sep = if f.0.len() == 0 {
                    ""@
                } else {
                    " · "@
                };
                let spent = f.1 + cell_width_of(sep);
                let room: nat = if width >= spent {
                    (width - spent) as nat
                } else {
                    0
                };
                let j = suffix_start_from(c, 0, (room - 1) as nat);
                ||| r == f.0 + sep + c && cell_width_of(c) <= room
                ||| r == f.0 + sep + ("…"@ + c.skip(j)) && room >= 4 && (j < c.len() ==> 1
                    + cell_width_of(c.skip(j)) <= room)
            })
        }),
{
    law_fit_segments_within_width(segs, width);
    if short_head is Some {
        law_fit_segments_within_width(segs.update(0, short_head->0), width);
    }
    if context is Some {
        let f = title_segments_spec(segs, short_head, width);
        let sep = if f.0.len() == 0 {
            ""@
        } else {
            " · "@
        };
        let spent = f.1 + cell_width_of(sep);
        let room: nat = if width >= spent {
            (width - spent) as nat
        } else {
            0
        };
        lemma_suffix_start_fits(context->0, 0, (room - 1) as nat);
    }
}

// ---------------------------------------------------------------------------------------------
// Soft wrapping
// ---------------------------------------------------------------------------------------------

/// Index of the last space among the first `k` characters of `t`, or -1.
pub open spec fn last_space_before(t: Seq<char>, k: int) -> int
    decreases k,
{
    if k <= 0 || k > t.len() {
        -1
    } else if t[k - 1] == ' ' {
        k - 1
    } else {
        last_space_before(t, k - 1)
    }
}

/// What [`take_fitting`] returns: the longest prefix of `t` that fits `budget` cells
/// (measured character by character), cut back to the last space in it when there is one,
/// and the remainder without its leading whitespace. `("", t)` when nothing fits.
pub open spec fn take_fitting_spec(t: Seq<char>, budget: nat) -> (Seq<char>, Seq<char>) {
    if budget == 0 {
        (seq![], t)
    } else if cell_width_of(t) <= budget {
        (t, seq![])
    } else {
        let k = fit_count(t, budget) as int;
        let space = last_space_before(t, k);
        let split = if space >= 0 {
            space
        } else {
            k
        };
        if split == 0 {
            (seq![], t)
        } else {
            (t.take(split), crate::text::trim_start(t.skip(split)))
        }
    }
}

pub proof fn lemma_last_space_before_bound(t: Seq<char>, k: int)
    requires
        0 <= k <= t.len(),
    ensures
        last_space_before(t, k) < k,
        last_space_before(t, k) >= -1,
        last_space_before(t, k) >= 0 ==> t[last_space_before(t, k)] == ' ',
    decreases k,
{
    if k > 0 && k <= t.len() && t[k - 1] != ' ' {
        lemma_last_space_before_bound(t, k - 1);
    }
}

/// A non-empty take leaves a strictly shorter remainder.
pub proof fn lemma_take_fitting_progress(t: Seq<char>, budget: nat)
    requires
        t.len() > 0,
        take_fitting_spec(t, budget).0.len() > 0,
    ensures
        take_fitting_spec(t, budget).1.len() < t.len(),
{
    if budget > 0 && cell_width_of(t) > budget {
        let k = fit_count(t, budget) as int;
        lemma_fit_count_from_bound(t, 0, 0, budget);
        lemma_last_space_before_bound(t, k);
        let space = last_space_before(t, k);
        let split = if space >= 0 {
            space
        } else {
            k
        };
        crate::text::lemma_ws_run_from_bound(t.skip(split), 0);
    }
}

/// Rows that wrapping `remaining` produces: each row is its prefix (the first row's own,
/// later rows the hang) followed by what fits beside it; when nothing fits, one character is
/// taken so the wrap always advances.
pub open spec fn wrap_rows(
    remaining: Seq<char>,
    first_prefix: Seq<char>,
    hang: Seq<char>,
    width: nat,
    first: bool,
) -> Seq<Seq<char>>
    decreases remaining.len(),
{
    if remaining.len() == 0 {
        seq![]
    } else {
        let prefix = if first {
            first_prefix
        } else {
            hang
        };
        let pw = cell_width_of(prefix);
        let budget: nat = if width >= pw {
            (width - pw) as nat
        } else {
            0
        };
        let taken = take_fitting_spec(remaining, budget);
        if taken.0.len() == 0 {
            seq![prefix + remaining.take(1)] + wrap_rows(
                remaining.skip(1),
                first_prefix,
                hang,
                width,
                false,
            )
        } else {
            proof {
                lemma_take_fitting_progress(remaining, budget);
            }
            seq![prefix + taken.0] + wrap_rows(taken.1, first_prefix, hang, width, false)
        }
    }
}

/// What [`wrap_hanging`] returns.
pub open spec fn wrap_hanging_spec(t: Seq<char>, width: nat) -> Seq<Seq<char>> {
    if width == 0 {
        seq![]
    } else if cell_width_of(t) <= width {
        seq![t]
    } else {
        let il = crate::text::ws_run_from(t, 0) as int;
        let indent = t.take(il);
        let iw = cell_width_of(indent);
        let hang = if iw > 0 && iw < width {
            indent
        } else {
            seq![]
        };
        let first_prefix = if iw < width {
            indent
        } else {
            seq![]
        };
        let rows = wrap_rows(t.skip(il), first_prefix, hang, width, true);
        if rows.len() == 0 {
            seq![seq![]]
        } else {
            rows
        }
    }
}

/// What [`take_fitting`] takes fits the budget: the whole text only when it is measured to
/// fit; otherwise a prefix whose characters, each measured alone, add up to no more.
pub proof fn lemma_take_fitting_fits(t: Seq<char>, budget: nat)
    ensures
        ({
            let taken = take_fitting_spec(t, budget).0;
            ||| taken == t && cell_width_of(t) <= budget
            ||| sum_w(taken) <= budget
        }),
{
    if budget == 0 {
        assert(sum_w(Seq::<char>::empty()) == 0);
    } else if cell_width_of(t) > budget {
        let k = fit_count(t, budget) as int;
        lemma_fit_count_from_fits(t, 0, 0, budget);
        lemma_fit_count_from_bound(t, 0, 0, budget);
        assert(t.subrange(0, k) =~= t.take(k));
        lemma_last_space_before_bound(t, k);
        let space = last_space_before(t, k);
        let split = if space >= 0 {
            space
        } else {
            k
        };
        if split == 0 {
            assert(sum_w(Seq::<char>::empty()) == 0);
        } else {
            lemma_sum_w_take(t.take(k), split);
            assert(t.take(k).take(split) =~= t.take(split));
        }
    }
}

/// A wrapped row fits beside its prefix: it is the prefix followed by a piece that is
/// measured to fit the cells the prefix leaves (whole, or character by character), or by a
/// single character taken alone so the wrap advances.
pub open spec fn row_fits(row: Seq<char>, prefix: Seq<char>, width: nat) -> bool {
    let pw = cell_width_of(prefix);
    let budget: nat = if width >= pw {
        (width - pw) as nat
    } else {
        0
    };
    let piece = row.skip(prefix.len() as int);
    &&& prefix.len() <= row.len()
    &&& row.take(prefix.len() as int) == prefix
    &&& (piece.len() <= 1 || cell_width_of(piece) <= budget || sum_w(piece) <= budget)
}

/// Every row [`wrap_rows`] produces fits beside its prefix: the first prefix on the first
/// row when `first`, the hang on every other row.
pub proof fn lemma_wrap_rows_fit(
    remaining: Seq<char>,
    first_prefix: Seq<char>,
    hang: Seq<char>,
    width: nat,
    first: bool,
)
    ensures
        ({
            let rows = wrap_rows(remaining, first_prefix, hang, width, first);
            forall|r: int|
                0 <= r < rows.len() ==> row_fits(
                    #[trigger] rows[r],
                    if r == 0 && first {
                        first_prefix
                    } else {
                        hang
                    },
                    width,
                )
        }),
    decreases remaining.len(),
{
    if remaining.len() > 0 {
        let prefix = if first {
            first_prefix
        } else {
            hang
        };
        let pw = cell_width_of(prefix);
        let budget: nat = if width >= pw {
            (width - pw) as nat
        } else {
            0
        };
        let taken = take_fitting_spec(remaining, budget);
        let rows = wrap_rows(remaining, first_prefix, hang, width, first);
        let (piece, rest) = if taken.0.len() == 0 {
            (remaining.take(1), remaining.skip(1))
        } else {
            lemma_take_fitting_progress(remaining, budget);
            (taken.0, taken.1)
        };
        lemma_take_fitting_fits(remaining, budget);
        lemma_wrap_rows_fit(rest, first_prefix, hang, width, false);
        let tail = wrap_rows(rest, first_prefix, hang, width, false);
        assert(rows == seq![prefix + piece] + tail);
        assert((prefix + piece).take(prefix.len() as int) =~= prefix);
        assert((prefix + piece).skip(prefix.len() as int) =~= piece);
        assert forall|r: int| 0 <= r < rows.len() implies row_fits(
            #[trigger] rows[r],
            if r == 0 && first {
                first_prefix
            } else {
                hang
            },
            width,
        ) by {
            if r > 0 {
                assert(rows[r] == tail[r - 1]);
            }
        }
    }
}

/// Every row [`wrap_hanging`] produces fits `width`: a line measured to fit comes back
/// unchanged as the only row; otherwise each row is its prefix (the line's indent on the
/// first row when it leaves room, the hanging indent after) followed by a piece that fits
/// beside it, or a single character taken alone (see [`row_fits`]).
pub proof fn law_wrap_hanging_rows_fit(t: Seq<char>, width: nat)
    ensures
        width == 0 ==> wrap_hanging_spec(t, width).len() == 0,
        width > 0 && cell_width_of(t) <= width ==> wrap_hanging_spec(t, width) == seq![t],
        width > 0 && cell_width_of(t) > width ==> ({
            let il = crate::text::ws_run_from(t, 0) as int;
            let indent = t.take(il);
            let iw = cell_width_of(indent);
            let hang = if iw > 0 && iw < width {
                indent
            } else {
                seq![]
            };
            let first_prefix = if iw < width {
                indent
            } else {
                seq![]
            };
            let rows = wrap_hanging_spec(t, width);
            forall|r: int|
                0 <= r < rows.len() ==> (#[trigger] rows[r]).len() == 0 || row_fits(
                    rows[r],
                    if r == 0 {
                        first_prefix
                    } else {
                        hang
                    },
                    width,
                )
        }),
{
    if width > 0 && cell_width_of(t) > width {
        let il = crate::text::ws_run_from(t, 0) as int;
        let indent = t.take(il);
        let iw = cell_width_of(indent);
        let hang = if iw > 0 && iw < width {
            indent
        } else {
            seq![]
        };
        let first_prefix = if iw < width {
            indent
        } else {
            seq![]
        };
        lemma_wrap_rows_fit(t.skip(il), first_prefix, hang, width, true);
    }
}

/// Longest prefix of `text` that fits `budget` cells, preferring a trailing space as the
/// break. The returned remainder has leading spaces stripped (the break itself).
pub fn take_fitting(text: &[char], budget: usize) -> (r: (Vec<char>, Vec<char>))
    ensures
        (r.0@, r.1@) == take_fitting_spec(text@, budget as nat),
{
    if budget == 0 {
        return (Vec::new(), slice_to_vec(text));
    }
    if chars_width(text) <= budget {
        return (slice_to_vec(text), Vec::new());
    }
    let k = clip_prefix(text, budget);
    let mut j = k;
    while j > 0 && text[j - 1] != ' '
        invariant
            j <= k <= text@.len(),
            last_space_before(text@, k as int) == last_space_before(text@, j as int),
        decreases j,
    {
        j = j - 1;
    }
    let split = if j > 0 {
        j - 1
    } else {
        k
    };
    if split == 0 {
        return (Vec::new(), slice_to_vec(text));
    }
    let take = sub_vec(text, 0, split);
    let lead = crate::text::leading_ws(text, split);
    assert(split + lead <= text@.len());
    assert(text@.len() == text.len());
    let rest = sub_vec(text, split + lead, text.len());
    proof {
        crate::text::lemma_ws_run_from_skip(text@, split as int, 0);
        assert(take@ =~= text@.take(split as int));
        assert(rest@ =~= crate::text::trim_start(text@.skip(split as int)));
    }
    (take, rest)
}

/// A copy of `v`.
pub fn slice_to_vec(v: &[char]) -> (r: Vec<char>)
    ensures
        r@ == v@,
{
    sub_vec(v, 0, v.len())
}

/// A copy of `v[from..to]`.
pub fn sub_vec(v: &[char], from: usize, to: usize) -> (r: Vec<char>)
    requires
        from <= to <= v@.len(),
    ensures
        r@ == v@.subrange(from as int, to as int),
{
    let mut r: Vec<char> = Vec::new();
    let mut i = from;
    while i < to
        invariant
            from <= i <= to <= v@.len(),
            r@ == v@.subrange(from as int, i as int),
        decreases to - i,
    {
        r.push(v[i]);
        i = i + 1;
        assert(r@ =~= v@.subrange(from as int, i as int));
    }
    r
}

/// `a` followed by `b`.
fn concat_chars(a: &[char], b: &[char]) -> (r: Vec<char>)
    ensures
        r@ == a@ + b@,
{
    let mut r = slice_to_vec(a);
    let mut i: usize = 0;
    while i < b.len()
        invariant
            i <= b@.len(),
            r@ == a@ + b@.take(i as int),
        decreases b.len() - i,
    {
        r.push(b[i]);
        i = i + 1;
        assert(r@ =~= a@ + b@.take(i as int));
    }
    assert(b@.take(b@.len() as int) =~= b@);
    r
}

/// Soft-wrap `text` to `width` cells, continuing each overflow row at the source line's
/// leading whitespace. A line that fits is returned unchanged.
pub fn wrap_hanging(text: &str, width: usize) -> (rows: Vec<String>)
    ensures
        views(rows@) == wrap_hanging_spec(text@, width as nat),
{
    let mut lines: Vec<String> = Vec::new();
    if width == 0 {
        assert(views(lines@) =~= seq![]);
        return lines;
    }
    if cell_width(text) <= width {
        lines.push(owned(text));
        assert(views(lines@) =~= seq![text@]);
        return lines;
    }
    let t = chars_of(text);
    let il = crate::text::leading_ws(t.as_slice(), 0);
    let indent = sub_vec(t.as_slice(), 0, il);
    let iw = chars_width(indent.as_slice());
    let hang: Vec<char> = if iw > 0 && iw < width {
        slice_to_vec(indent.as_slice())
    } else {
        Vec::new()
    };
    let first_prefix: Vec<char> = if iw < width {
        slice_to_vec(indent.as_slice())
    } else {
        Vec::new()
    };
    let hw = chars_width(hang.as_slice());
    let fw = chars_width(first_prefix.as_slice());
    let mut remaining = sub_vec(t.as_slice(), il, t.len());
    let mut first = true;
    proof {
        assert(indent@ =~= text@.take(il as int));
        assert(remaining@ =~= text@.skip(il as int));
    }
    let ghost all = wrap_rows(remaining@, first_prefix@, hang@, width as nat, true);
    while remaining.len() > 0
        invariant
            hw == cell_width_of(hang@),
            fw == cell_width_of(first_prefix@),
            all == views(lines@) + wrap_rows(remaining@, first_prefix@, hang@, width as nat, first),
        decreases remaining@.len(),
    {
        let ghost before = views(lines@);
        let ghost rem0 = remaining@;
        let ghost first0 = first;
        let pw = if first {
            fw
        } else {
            hw
        };
        let budget = width.saturating_sub(pw);
        let (take, rest) = take_fitting(remaining.as_slice(), budget);
        let row_prefix: &Vec<char> = if first {
            &first_prefix
        } else {
            &hang
        };
        first = false;
        if take.len() == 0 {
            let one = sub_vec(remaining.as_slice(), 0, 1);
            let row = concat_chars(row_prefix.as_slice(), one.as_slice());
            lines.push(string_of(row.as_slice()));
            remaining = sub_vec(remaining.as_slice(), 1, remaining.len());
            proof {
                assert(one@ =~= rem0.take(1));
                assert(remaining@ =~= rem0.skip(1));
            }
        } else {
            proof {
                lemma_take_fitting_progress(remaining@, budget as nat);
            }
            let row = concat_chars(row_prefix.as_slice(), take.as_slice());
            lines.push(string_of(row.as_slice()));
            remaining = rest;
        }
        proof {
            assert(views(lines@) =~= before.push(lines@.last()@));
            assert(wrap_rows(rem0, first_prefix@, hang@, width as nat, first0) =~= seq![
                lines@.last()@,
            ] + wrap_rows(remaining@, first_prefix@, hang@, width as nat, false));
            assert(before + (seq![lines@.last()@] + wrap_rows(
                remaining@,
                first_prefix@,
                hang@,
                width as nat,
                false,
            )) =~= views(lines@) + wrap_rows(remaining@, first_prefix@, hang@, width as nat, false));
        }
    }
    proof {
        assert(views(lines@) + Seq::<Seq<char>>::empty() =~= views(lines@));
    }
    if lines.len() == 0 {
        lines.push(String::new());
        assert(views(lines@) =~= seq![seq![]]);
    }
    lines
}

// ---------------------------------------------------------------------------------------------
// Footer hints
// ---------------------------------------------------------------------------------------------

/// Whether `pat` occurs in `t` starting at `i`.
pub open spec fn occurs_at(t: Seq<char>, i: int, pat: Seq<char>) -> bool {
    0 <= i && i + pat.len() <= t.len() && t.subrange(i, i + pat.len()) == pat
}

/// First index at or after `i` where `pat` occurs in `t`, or -1.
pub open spec fn find_from(t: Seq<char>, i: int, pat: Seq<char>) -> int
    decreases t.len() + 1 - i,
{
    if i < 0 || i + pat.len() > t.len() {
        -1
    } else if occurs_at(t, i, pat) {
        i
    } else {
        find_from(t, i + 1, pat)
    }
}

pub proof fn lemma_find_from_bound(t: Seq<char>, i: int, pat: Seq<char>)
    requires
        0 <= i,
    ensures
        find_from(t, i, pat) == -1 || (i <= find_from(t, i, pat) && occurs_at(
            t,
            find_from(t, i, pat),
            pat,
        )),
    decreases t.len() + 1 - i,
{
    if i + pat.len() <= t.len() && !occurs_at(t, i, pat) {
        lemma_find_from_bound(t, i + 1, pat);
    }
}

/// The pieces of `t[i..]` between non-overlapping occurrences of `pat`, scanning left to
/// right (`str::split` with a string pattern).
pub open spec fn split_from(t: Seq<char>, i: int, pat: Seq<char>) -> Seq<Seq<char>>
    decreases t.len() - i,
{
    if i < 0 || i > t.len() || pat.len() == 0 {
        seq![t.skip(i)]
    } else {
        let j = find_from(t, i, pat);
        if j < 0 {
            seq![t.skip(i)]
        } else {
            proof {
                lemma_find_from_bound(t, i, pat);
            }
            seq![t.subrange(i, j)] + split_from(t, j + pat.len(), pat)
        }
    }
}

/// The non-empty members of `s`, in order.
pub open spec fn non_empty(s: Seq<Seq<char>>) -> Seq<Seq<char>>
    decreases s.len(),
{
    if s.len() == 0 {
        seq![]
    } else if s.last().len() == 0 {
        non_empty(s.drop_last())
    } else {
        non_empty(s.drop_last()).push(s.last())
    }
}

/// How many of `items[i..n]` fit beside `used` cells, each costing its width plus `sep_w`.
pub open spec fn item_fit_from(
    items: Seq<Seq<char>>,
    i: int,
    n: int,
    used: nat,
    sep_w: nat,
    width: nat,
) -> nat
    decreases n - i,
{
    if i < 0 || i >= n || i >= items.len() || used + cell_width_of(items[i]) + sep_w > width {
        0
    } else {
        1 + item_fit_from(items, i + 1, n, used + cell_width_of(items[i]) + sep_w, sep_w, width)
    }
}

/// What [`fit_hints`] returns: `text` unchanged when it fits; otherwise whole ` · `-separated
/// items are dropped from the right of the line (the last, leave-key item always stays), and
/// a last item that cannot fit alone is clipped.
pub open spec fn fit_hints_spec(t: Seq<char>, width: nat) -> Seq<char> {
    if width == 0 {
        seq![]
    } else if cell_width_of(t) <= width {
        t
    } else {
        let sep = if find_from(t, 0, "  ·  "@) >= 0 {
            "  ·  "@
        } else {
            " · "@
        };
        let items = non_empty(split_from(t, 0, sep));
        if items.len() == 0 {
            truncate_end_spec(t, width)
        } else {
            let last = items.last();
            if cell_width_of(last) > width {
                truncate_end_spec(last, width)
            } else {
                let k = item_fit_from(
                    items,
                    0,
                    items.len() - 1,
                    cell_width_of(last),
                    cell_width_of(sep),
                    width,
                );
                let kept = items.take(k as int);
                if k == 0 {
                    last
                } else {
                    join_with(kept, sep) + sep + last
                }
            }
        }
    }
}

/// First index at or after `i` where `pat` occurs in `t`.
pub(crate) fn find_chars(t: &[char], i: usize, pat: &[char]) -> (r: Option<usize>)
    requires
        i <= t@.len(),
    ensures
        match r {
            Some(j) => j as int == find_from(t@, i as int, pat@),
            None => find_from(t@, i as int, pat@) == -1,
        },
{
    let mut k = i;
    while pat.len() <= t.len() - k
        invariant
            i <= k <= t@.len(),
            find_from(t@, i as int, pat@) == find_from(t@, k as int, pat@),
        decreases t.len() - k,
    {
        let mut m: usize = 0;
        let mut same = true;
        while m < pat.len()
            invariant
                k + pat@.len() <= t@.len(),
                t@.len() <= usize::MAX,
                m <= pat@.len(),
                same == (forall|q: int| 0 <= q < m ==> t@[k + q] == #[trigger] pat@[q]),
            decreases pat.len() - m,
        {
            if t[k + m] != pat[m] {
                same = false;
            }
            m = m + 1;
        }
        if same {
            assert(t@.subrange(k as int, k + pat@.len()) =~= pat@);
            return Some(k);
        }
        assert(!occurs_at(t@, k as int, pat@)) by {
            if t@.subrange(k as int, k + pat@.len()) == pat@ {
                assert(forall|q: int|
                    0 <= q < pat@.len() ==> #[trigger] t@.subrange(k as int, k + pat@.len())[q]
                        == t@[k + q]);
            }
        }
        k = k + 1;
    }
    None
}

/// `v` as a list of strings.
fn strings_of(v: &Vec<Vec<char>>) -> (r: Vec<String>)
    ensures
        views(r@) == v@.map_values(|x: Vec<char>| x@),
{
    let mut r: Vec<String> = Vec::new();
    let mut i: usize = 0;
    while i < v.len()
        invariant
            i <= v@.len(),
            views(r@) == v@.take(i as int).map_values(|x: Vec<char>| x@),
        decreases v.len() - i,
    {
        let ghost before = r@;
        r.push(string_of(v[i].as_slice()));
        proof {
            assert(r@ =~= before.push(r@.last()));
            assert(views(r@) =~= views(before).push(v@[i as int]@));
        }
        i = i + 1;
        assert(views(r@) =~= v@.take(i as int).map_values(|x: Vec<char>| x@));
    }
    assert(v@.take(v@.len() as int) =~= v@);
    r
}

/// The non-empty pieces of `t` between occurrences of `pat` (a non-empty pattern).
fn split_non_empty(t: &[char], pat: &[char]) -> (r: Vec<Vec<char>>)
    requires
        pat@.len() > 0,
    ensures
        r@.map_values(|x: Vec<char>| x@) == non_empty(split_from(t@, 0, pat@)),
{
    let mut r: Vec<Vec<char>> = Vec::new();
    let mut i: usize = 0;
    loop
        invariant
            pat@.len() > 0,
            i <= t@.len(),
            non_empty(split_from(t@, 0, pat@)) == non_empty(
                r@.map_values(|x: Vec<char>| x@) + split_from(t@, i as int, pat@),
            ),
            non_empty(r@.map_values(|x: Vec<char>| x@)) == r@.map_values(|x: Vec<char>| x@),
        decreases t.len() - i,
    {
        let ghost done = r@.map_values(|x: Vec<char>| x@);
        let found = find_chars(t, i, pat);
        match found {
            None => {
                let piece = sub_vec(t, i, t.len());
                proof {
                    assert(piece@ =~= t@.skip(i as int));
                    lemma_non_empty_append(done, seq![piece@]);
                }
                if piece.len() > 0 {
                    r.push(piece);
                }
                proof {
                    lemma_non_empty_push(done, t@.skip(i as int));
                    assert(r@.map_values(|x: Vec<char>| x@) =~= non_empty(done.push(piece@)));
                    assert(done + split_from(t@, i as int, pat@) =~= done.push(piece@));
                    lemma_non_empty_idem(done.push(piece@));
                }
                return r;
            },
            Some(j) => {
                proof {
                    lemma_find_from_bound(t@, i as int, pat@);
                }
                let piece = sub_vec(t, i, j);
                if piece.len() > 0 {
                    r.push(piece);
                }
                proof {
                    let rest = split_from(t@, j + pat@.len(), pat@);
                    assert(split_from(t@, i as int, pat@) =~= seq![piece@] + rest);
                    assert(done + (seq![piece@] + rest) =~= done.push(piece@) + rest);
                    lemma_non_empty_append(done.push(piece@), rest);
                    lemma_non_empty_push(done, piece@);
                    assert(r@.map_values(|x: Vec<char>| x@) =~= non_empty(done.push(piece@)));
                    lemma_non_empty_append(r@.map_values(|x: Vec<char>| x@), rest);
                    lemma_non_empty_idem(done.push(piece@));
                }
                i = j + pat.len();
            },
        }
    }
}

pub proof fn lemma_non_empty_push(s: Seq<Seq<char>>, x: Seq<char>)
    ensures
        non_empty(s.push(x)) == (if x.len() == 0 {
            non_empty(s)
        } else {
            non_empty(s).push(x)
        }),
{
    assert(s.push(x).drop_last() =~= s);
}

pub proof fn lemma_non_empty_append(a: Seq<Seq<char>>, b: Seq<Seq<char>>)
    ensures
        non_empty(a + b) == non_empty(a) + non_empty(b),
    decreases b.len(),
{
    if b.len() == 0 {
        assert(a + b =~= a);
        assert(non_empty(a) + non_empty(b) =~= non_empty(a));
    } else {
        lemma_non_empty_append(a, b.drop_last());
        assert((a + b).drop_last() =~= a + b.drop_last());
        if b.last().len() > 0 {
            assert(non_empty(a) + non_empty(b.drop_last()).push(b.last()) =~= (non_empty(a)
                + non_empty(b.drop_last())).push(b.last()));
        }
    }
}

pub proof fn lemma_non_empty_idem(s: Seq<Seq<char>>)
    ensures
        non_empty(non_empty(s)) == non_empty(s),
    decreases s.len(),
{
    if s.len() > 0 {
        lemma_non_empty_idem(s.drop_last());
        if s.last().len() > 0 {
            lemma_non_empty_push(non_empty(s.drop_last()), s.last());
        }
    }
}

/// Trim a ` · `-separated hint line to `width` cells by dropping whole items, keeping the
/// last (leave-key) item. A line that fits is unchanged.
pub fn fit_hints(text: &str, width: usize) -> (r: String)
    ensures
        r@ == fit_hints_spec(text@, width as nat),
{
    if width == 0 {
        return String::new();
    }
    if cell_width(text) <= width {
        return owned(text);
    }
    let t = chars_of(text);
    let wide = chars_of("  ·  ");
    let narrow = chars_of(" · ");
    proof {
        reveal_strlit("  ·  ");
        reveal_strlit(" · ");
    }
    let sep_str = if find_chars(t.as_slice(), 0, wide.as_slice()).is_some() {
        "  ·  "
    } else {
        " · "
    };
    let sep = chars_of(sep_str);
    let items = split_non_empty(t.as_slice(), sep.as_slice());
    let ghost iv = items@.map_values(|x: Vec<char>| x@);
    if items.len() == 0 {
        return truncate_end(text, width);
    }
    let n = items.len();
    let last_s = string_of(items[n - 1].as_slice());
    proof {
        assert(last_s@ == iv.last());
    }
    let last_w = cell_width(last_s.as_str());
    if last_w > width {
        return truncate_end(last_s.as_str(), width);
    }
    let sep_w = cell_width(sep_str);
    let mut used = last_w;
    let mut k: usize = 0;
    while k < n - 1
        invariant
            n == items@.len(),
            n > 0,
            iv == items@.map_values(|x: Vec<char>| x@),
            k <= n - 1,
            used <= width,
            sep_w == cell_width_of(sep_str@),
            item_fit_from(iv, 0, n - 1, last_w as nat, sep_w as nat, width as nat) == k
                + item_fit_from(iv, k as int, n - 1, used as nat, sep_w as nat, width as nat),
        ensures
            item_fit_from(iv, 0, n - 1, last_w as nat, sep_w as nat, width as nat) == k,
        decreases n - 1 - k,
    {
        let item = string_of(items[k].as_slice());
        proof {
            assert(item@ == iv[k as int]);
        }
        let iw = cell_width(item.as_str());
        let room = width - used;
        if iw > room || sep_w > room - iw {
            break;
        }
        used = used + iw + sep_w;
        k = k + 1;
    }
    let mut out = String::new();
    let mut i: usize = 0;
    while i < k
        invariant
            k <= n - 1,
            n == items@.len(),
            iv == items@.map_values(|x: Vec<char>| x@),
            i <= k,
            out@ == join_with(iv.take(i as int), sep_str@),
        decreases k - i,
    {
        let ghost before = out@;
        if i > 0 {
            push_str(&mut out, sep_str);
        }
        let item = string_of(items[i].as_slice());
        push_str(&mut out, item.as_str());
        proof {
            assert(iv.take(i + 1).drop_last() =~= iv.take(i as int));
            if i == 0 {
                assert(out@ =~= iv[0]);
            } else {
                assert(out@ =~= before + sep_str@ + iv[i as int]);
            }
        }
        i = i + 1;
    }
    if k > 0 {
        push_str(&mut out, sep_str);
    }
    push_str(&mut out, last_s.as_str());
    proof {
        if k == 0 {
            assert(out@ =~= iv.last());
        }
    }
    out
}

/// Cells the first `k` of `items` cost when each is followed by a `sep_w`-cell separator.
pub open spec fn items_cost(items: Seq<Seq<char>>, k: int, sep_w: nat) -> nat
    decreases k,
{
    if k <= 0 {
        0
    } else {
        items_cost(items, k - 1, sep_w) + cell_width_of(items[k - 1]) + sep_w
    }
}

/// The items [`item_fit_from`] takes, with `used` cells already spent, fit `width`.
pub proof fn lemma_item_fit_from_fits(
    items: Seq<Seq<char>>,
    i: int,
    n: int,
    used: nat,
    sep_w: nat,
    width: nat,
)
    requires
        0 <= i <= n,
        used <= width,
    ensures
        i + item_fit_from(items, i, n, used, sep_w, width) <= n,
        used + items_cost(items, i + item_fit_from(items, i, n, used, sep_w, width), sep_w)
            - items_cost(items, i, sep_w) <= width,
    decreases n - i,
{
    if i < n && i < items.len() && used + cell_width_of(items[i]) + sep_w <= width {
        lemma_item_fit_from_fits(items, i + 1, n, used + cell_width_of(items[i]) + sep_w, sep_w, width);
    }
}

/// A footer line fitted by [`fit_hints`] fits its width: the line itself only when it is
/// measured to fit; otherwise, when its last item fits alone, the items kept before it,
/// each with the separator after it, and the last item take no more than `width` cells
/// (each measured whole); when even the last item does not fit, it is clipped as
/// [`truncate_end`] clips (see [`law_truncate_end_fits`]).
pub proof fn law_fit_hints_within_width(t: Seq<char>, width: nat)
    ensures
        width > 0 && cell_width_of(t) <= width ==> fit_hints_spec(t, width) == t,
        width > 0 && cell_width_of(t) > width ==> ({
            let sep = if find_from(t, 0, "  ·  "@) >= 0 {
                "  ·  "@
            } else {
                " · "@
            };
            let items = non_empty(split_from(t, 0, sep));
            let last = items.last();
            let k = item_fit_from(items, 0, items.len() - 1, cell_width_of(last), cell_width_of(sep), width);
            &&& items.len() > 0 && cell_width_of(last) <= width ==> {
                &&& k < items.len()
                &&& items_cost(items, k as int, cell_width_of(sep)) + cell_width_of(last) <= width
                &&& fit_hints_spec(t, width) == if k == 0 {
                    last
                } else {
                    join_with(items.take(k as int), sep) + sep + last
                }
            }
            &&& items.len() > 0 && cell_width_of(last) > width ==> fit_hints_spec(t, width)
                == truncate_end_spec(last, width)
        }),
{
    if width > 0 && cell_width_of(t) > width {
        let sep = if find_from(t, 0, "  ·  "@) >= 0 {
            "  ·  "@
        } else {
            " · "@
        };
        let items = non_empty(split_from(t, 0, sep));
        if items.len() > 0 && cell_width_of(items.last()) <= width {
            lemma_item_fit_from_fits(
                items,
                0,
                items.len() - 1,
                cell_width_of(items.last()),
                cell_width_of(sep),
                width,
            );
        }
    }
}

// ---------------------------------------------------------------------------------------------
// Top bar
// ---------------------------------------------------------------------------------------------

/// Left-side brand. A leading space is the left margin on a wide terminal.
pub const TOP_BAR_NAME: &'static str = " gistui";

/// Height of the persistent top bar.
pub const TOP_BAR_HEIGHT: u16 = 1;

/// Number of cross-screen shortcuts: Gists · Pins · Config · Help.
pub const TOP_BAR_ITEM_COUNT: usize = 4;

/// Hotkey of shortcut `i`.
pub open spec fn top_bar_key(i: int) -> Seq<char> {
    if i == 0 {
        "g"@
    } else if i == 1 {
        "P"@
    } else if i == 2 {
        "C"@
    } else {
        "?"@
    }
}

/// Label after the hotkey of shortcut `i`.
pub open spec fn top_bar_rest(i: int) -> Seq<char> {
    if i == 0 {
        "ists"@
    } else if i == 1 {
        "ins"@
    } else if i == 2 {
        "onfig"@
    } else {
        "Help"@
    }
}

/// Cells shortcut `i` takes: `(`, key, `)`, label.
pub open spec fn top_bar_w(i: int) -> nat {
    if i == 0 {
        7
    } else if i == 1 {
        6
    } else if i == 2 {
        8
    } else {
        7
    }
}

/// Cells the shortcuts from `s` on take, two-cell gaps included.
pub open spec fn items_w_from(s: int) -> nat
    decreases 3 - s,
{
    if s >= 3 {
        top_bar_w(3)
    } else {
        top_bar_w(s) + 2 + items_w_from(s + 1)
    }
}

/// First shortcut index from which the rest fit `width`, or 4 when not even the last fits.
pub open spec fn top_bar_start(width: nat) -> int {
    if items_w_from(0) <= width {
        0
    } else if items_w_from(1) <= width {
        1
    } else if items_w_from(2) <= width {
        2
    } else if items_w_from(3) <= width {
        3
    } else {
        4
    }
}

/// Column of shortcut `start + j` when the strip starts at `x0`.
pub open spec fn item_x(start: int, j: int, x0: nat) -> nat
    decreases j,
{
    if j <= 0 {
        x0
    } else {
        item_x(start, j - 1, x0) + top_bar_w(start + j - 1) + 2
    }
}

/// Where the strip of shortcuts starts: flush right with a one-cell margin when it fits.
pub open spec fn top_bar_items_x(width: nat) -> nat {
    let s = top_bar_start(width);
    let w = items_w_from(s);
    let margin: nat = if w + 1 <= width {
        1
    } else {
        0
    };
    (width - w - margin) as nat
}

/// One shortcut that survived [`fit_top_bar`].
pub struct FittedTopBarItem {
    pub index: usize,
    pub key: &'static str,
    pub rest: &'static str,
    pub x: u16,
    pub width: u16,
}

/// Width budget for the top bar: shortcuts keep the row; the brand is decoration and only
/// appears when the full name plus a one-cell gap fits to the left of them.
pub struct FittedTopBar {
    pub name: Option<&'static str>,
    pub items: Vec<FittedTopBarItem>,
}

/// Cells a shortcut takes: `(` + key + `)` + rest.
pub fn top_bar_item_width(key: &str, rest: &str) -> (w: u16)
    requires
        key@.len() + rest@.len() + 2 <= usize::MAX,
    ensures
        w == (key@.len() + rest@.len() + 2) as u16,
{
    (key.unicode_len() + rest.unicode_len() + 2) as u16
}

/// Key and label of shortcut `i`.
fn top_bar_item(i: usize) -> (r: (&'static str, &'static str))
    requires
        i < 4,
    ensures
        r.0@ == top_bar_key(i as int),
        r.1@ == top_bar_rest(i as int),
        r.0@.len() + r.1@.len() + 2 == top_bar_w(i as int),
{
    proof {
        reveal_strlit("g");
        reveal_strlit("P");
        reveal_strlit("C");
        reveal_strlit("?");
        reveal_strlit("ists");
        reveal_strlit("ins");
        reveal_strlit("onfig");
        reveal_strlit("Help");
    }
    if i == 0 {
        ("g", "ists")
    } else if i == 1 {
        ("P", "ins")
    } else if i == 2 {
        ("C", "onfig")
    } else {
        ("?", "Help")
    }
}

/// Split `width` between the brand and the right-aligned shortcuts.
///
/// The shortcuts take the row first. Whole items drop from the left if they cannot all fit.
/// The brand is shown only when `" gistui"` plus a one-cell gap still fits in the leftover —
/// never truncated.
pub fn fit_top_bar(width: u16) -> (r: FittedTopBar)
    ensures
        width == 0 ==> r.name.is_none() && r.items@.len() == 0,
        width > 0 && top_bar_start(width as nat) < 4 ==> {
            let s = top_bar_start(width as nat);
            let x0 = top_bar_items_x(width as nat);
            &&& r.items@.len() == 4 - s
            &&& r.name.is_some() <==> 8 <= x0
            &&& r.name matches Some(n) ==> n@ == " gistui"@
            &&& forall|j: int|
                0 <= j < r.items@.len() ==> {
                    let it = #[trigger] r.items@[j];
                    &&& it.index == s + j
                    &&& it.key@ == top_bar_key(s + j)
                    &&& it.rest@ == top_bar_rest(s + j)
                    &&& it.x == item_x(s, j, x0)
                    &&& it.width == top_bar_w(s + j)
                    &&& it.x + it.width <= width
                }
        },
        width > 0 && top_bar_start(width as nat) == 4 ==> {
            &&& r.name.is_none()
            &&& r.items@.len() == 1
            &&& r.items@[0].index == 3
            &&& r.items@[0].key@ == top_bar_key(3)
            &&& r.items@[0].rest@ == top_bar_rest(3)
            &&& r.items@[0].x == 0
            &&& r.items@[0].width == width
        },
{
    if width == 0 {
        return FittedTopBar { name: None, items: Vec::new() };
    }
    let mut start: usize = 0;
    while start < 4
        invariant
            start <= 4,
            top_bar_start(width as nat) >= start,
        decreases 4 - start,
    {
        // Cells the strip from `start` takes.
        let mut items_w: u16 = 0;
        let mut i: usize = start;
        while i < 4
            invariant
                start <= i <= 4,
                start < 4,
                i < 4 ==> items_w as nat + items_w_from(i as int) == items_w_from(start as int),
                i == 4 ==> items_w as nat == items_w_from(start as int) + 2,
                items_w <= 10 * (i - start),
            decreases 4 - i,
        {
            let (key, rest) = top_bar_item(i);
            let w = top_bar_item_width(key, rest);
            items_w = items_w + w + 2;
            i = i + 1;
        }
        // The last item carries no trailing gap.
        items_w = items_w - 2;
        if items_w <= width {
            let margin: u16 = if items_w < width {
                1
            } else {
                0
            };
            let items_x = width - items_w - margin;
            let name_w = cell_width(TOP_BAR_NAME);
            proof {
                reveal_strlit(" gistui");
                assert(printable_ascii(" gistui"@));
            }
            let name = if name_w + 1 <= items_x as usize {
                Some(TOP_BAR_NAME)
            } else {
                None
            };
            let mut x = items_x;
            let mut items: Vec<FittedTopBarItem> = Vec::new();
            let mut j: usize = start;
            while j < 4
                invariant
                    start <= j <= 4,
                    start < 4,
                    start == top_bar_start(width as nat),
                    items_x == top_bar_items_x(width as nat),
                    items@.len() == j - start,
                    j < 4 ==> x == item_x(start as int, (j - start) as int, items_x as nat),
                    j < 4 ==> x as nat + items_w_from(j as int) <= width as nat,
                    forall|q: int|
                        0 <= q < items@.len() ==> {
                            let it = #[trigger] items@[q];
                            &&& it.index == start + q
                            &&& it.key@ == top_bar_key(start + q)
                            &&& it.rest@ == top_bar_rest(start + q)
                            &&& it.x == item_x(start as int, q, items_x as nat)
                            &&& it.width == top_bar_w(start + q)
                            &&& it.x + it.width <= width
                        },
                decreases 4 - j,
            {
                let (key, rest) = top_bar_item(j);
                let w = top_bar_item_width(key, rest);
                items.push(FittedTopBarItem { index: j, key, rest, x, width: w });
                if j < 3 {
                    x = x + w + 2;
                }
                j = j + 1;
            }
            return FittedTopBar { name, items };
        }
        start = start + 1;
    }
    // Narrower than the last remaining shortcut: park it at the left edge.
    let (key, rest) = top_bar_item(3);
    let mut items: Vec<FittedTopBarItem> = Vec::new();
    items.push(FittedTopBarItem { index: 3, key, rest, x: 0, width });
    FittedTopBar { name: None, items }
}

/// The character view of an optional string.
pub open spec fn opt_view(o: Option<String>) -> Option<Seq<char>> {
    match o {
        Some(s) => Some(s@),
        None => None,
    }
}

/// `segs` with its head replaced by `head`.
fn with_head(segs: &Vec<String>, head: &str) -> (r: Vec<String>)
    requires
        segs@.len() > 0,
    ensures
        views(r@) == views(segs@).update(0, head@),
{
    let mut r: Vec<String> = Vec::new();
    r.push(owned(head));
    let mut i: usize = 1;
    while i < segs.len()
        invariant
            1 <= i <= segs@.len(),
            r@.len() == i,
            r@[0]@ == head@,
            forall|j: int| 1 <= j < i ==> r@[j]@ == segs@[j]@,
        decreases segs.len() - i,
    {
        r.push(owned(segs[i].as_str()));
        i = i + 1;
    }
    assert(views(r@) =~= views(segs@).update(0, head@));
    r
}

/// Join a [`PaneTitleVm`] into at most `width` cells.
///
/// A segment that does not fit is dropped whole, together with its separator and everything
/// after it, so a narrow title never ends in a dangling `·` and never half-shows a state value.
/// The context is appended last and is the only part that shrinks, keeping its tail behind a
/// leading `…` — for a path, the half naming the directory.
///
/// Below the width the full head needs, an available `short_head` is spent — but only when the
/// cells it frees actually buy back a state segment.
pub fn fit_title(title: &PaneTitleVm, width: usize) -> (r: String)
    ensures
        r@ == fit_title_spec(
            views(title.segments@),
            opt_view(title.short_head),
            opt_view(title.context),
            width as nat,
        ),
{
    let full = fit_segments(title.segments.as_slice(), width);
    let fitted = match &title.short_head {
        Some(short) => {
            if full.shown < title.segments.len() {
                let segments = with_head(&title.segments, short.as_str());
                let abbreviated = fit_segments(segments.as_slice(), width);
                // Ties go to the full head: same state, more of the pane's name.
                if abbreviated.shown > full.shown {
                    abbreviated
                } else {
                    full
                }
            } else {
                full
            }
        },
        None => full,
    };
    let mut text = fitted.text;
    // A head that had to be clipped has already taken the whole width; anything after it would
    // overflow. An absent or empty context must not leave its separator behind either.
    if fitted.shown == 0 {
        return text;
    }
    match &title.context {
        None => text,
        Some(context) => {
            if context.as_str().unicode_len() == 0 {
                return text;
            }
            let sep = if text.as_str().unicode_len() == 0 {
                ""
            } else {
                TITLE_SEP
            };
            let spent = fitted.used.saturating_add(cell_width(sep));
            let room = width.saturating_sub(spent);
            if cell_width(context.as_str()) <= room {
                push_str(&mut text, sep);
                push_str(&mut text, context.as_str());
            } else if room >= MIN_ELIDED_WIDTH {
                push_str(&mut text, sep);
                let elided = elide_start(context.as_str(), room);
                push_str(&mut text, elided.as_str());
            }
            text
        },
    }
}

} // verus!
