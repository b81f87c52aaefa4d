//! One bordered list pane's rows: horizontal scroll of the selected row, truncation to the
//! pane, and the empty state.

use vstd::prelude::*;
use crate::text::{chars_of, owned, push_str, string_of_range};
use crate::text_fit::{cell_width, cell_width_of, truncate_end, truncate_end_spec, ELLIPSIS};
use crate::view_model::{ListPaneEmpty, ListPaneVm, RowEmphasis};

verus! {

/// Highlight prefix every row list paints (`▶` plus a space). Kept in one place so the
/// truncation budget and the highlight symbol cannot drift.
pub const LIST_HIGHLIGHT_SYMBOL: &'static str = "▶ ";

/// Borders (2) + one cell of horizontal padding on each side around a list pane's rows.
pub const LIST_CHROME_CELLS: u16 = 4;

/// Narrowest a list pane may be made without turning into a slit: the chrome, the two cells
/// the highlight symbol occupies, and eight cells of filename.
pub const MIN_PANE_CELLS: u16 = LIST_CHROME_CELLS + 2 + 8;

/// `label` with its first `n` characters scrolled off.
pub open spec fn hscroll_spec(label: Seq<char>, n: nat) -> Seq<char> {
    if n >= label.len() {
        Seq::empty()
    } else {
        label.skip(n as int)
    }
}

/// `label` scrolled `n` characters to the left.
pub fn hscroll_str(label: &str, n: u16) -> (s: String)
    ensures
        s@ == hscroll_spec(label@, n as nat),
{
    let v = chars_of(label);
    let from = if (n as usize) < v.len() {
        n as usize
    } else {
        v.len()
    };
    let s = string_of_range(v.as_slice(), from, v.len());
    assert(v@.subrange(from as int, v@.len() as int) =~= hscroll_spec(label@, n as nat));
    s
}

/// Horizontal offset applied to one list row: only the selected row moves.
pub fn row_hscroll(selected: Option<usize>, index: usize, hscroll: u16) -> (h: u16)
    ensures
        h == (if selected == Some(index) {
            hscroll
        } else {
            0
        }),
{
    match selected {
        Some(s) if s == index => hscroll,
        _ => 0,
    }
}

/// Cells a row's text may take in a pane `pane_width` cells wide: the pane less its chrome
/// and the highlight symbol.
pub open spec fn row_room(pane_width: int) -> nat {
    let inner: int = if pane_width >= LIST_CHROME_CELLS {
        pane_width - LIST_CHROME_CELLS
    } else {
        0
    };
    let sym = cell_width_of(LIST_HIGHLIGHT_SYMBOL@);
    if inner >= sym {
        (inner - sym) as nat
    } else {
        0
    }
}

/// What a row shows: scrolled first, then truncated to the room; a scrolled row starts with
/// `…` so the skip is visible (nothing at all when not even that fits).
pub open spec fn visible_row_spec(label: Seq<char>, hscroll: nat, pane_width: int) -> Seq<char> {
    let room = row_room(pane_width);
    let scrolled = hscroll_spec(label, hscroll);
    let ell = cell_width_of(ELLIPSIS@);
    if hscroll == 0 {
        truncate_end_spec(scrolled, room)
    } else if room < ell {
        Seq::empty()
    } else {
        ELLIPSIS@ + truncate_end_spec(scrolled, (room - ell) as nat)
    }
}

/// Visible list-row text: horizontal scroll first, then truncate to the inner content
/// width (borders, padding, and the highlight symbol) so the widget cannot silently clip.
/// A non-zero offset keeps a leading `…` so the skip is visible.
pub fn visible_list_row(label: &str, hscroll: u16, pane_width: u16) -> (s: String)
    ensures
        s@ == visible_row_spec(label@, hscroll as nat, pane_width as int),
{
    let inner = pane_width.saturating_sub(LIST_CHROME_CELLS) as usize;
    let room = inner.saturating_sub(cell_width(LIST_HIGHLIGHT_SYMBOL));
    let scrolled = hscroll_str(label, hscroll);
    if hscroll == 0 {
        return truncate_end(scrolled.as_str(), room);
    }
    let ellipsis_width = cell_width(ELLIPSIS);
    if room < ellipsis_width {
        return String::new();
    }
    let mut out = owned(ELLIPSIS);
    let tail = truncate_end(scrolled.as_str(), room - ellipsis_width);
    push_str(&mut out, tail.as_str());
    out
}

/// The lines a pane paints: its rows as they fit the pane (only the selected one scrolled),
/// each with its emphasis; or, for an empty pane, the single message line (two spaces when
/// it has none), which the painter dims.
pub open spec fn pane_lines_spec(pane: ListPaneVm, pane_width: int) -> Seq<(Seq<char>, RowEmphasis)> {
    if pane.empty != ListPaneEmpty::HasRows {
        seq![
            (match pane.empty_message {
                Some(m) => m@,
                None => "  "@,
            }, RowEmphasis::Plain),
        ]
    } else {
        Seq::new(
            pane.rows@.len(),
            |i: int|
                (
                    visible_row_spec(
                        pane.rows@[i].label@,
                        (if pane.selected == Some(i as usize) {
                            pane.hscroll
                        } else {
                            0
                        }) as nat,
                        pane_width,
                    ),
                    pane.rows@[i].emphasis,
                ),
        )
    }
}

/// The (text, emphasis) view of painted lines.
pub open spec fn lines_view(v: Seq<(String, RowEmphasis)>) -> Seq<(Seq<char>, RowEmphasis)> {
    v.map_values(|l: (String, RowEmphasis)| (l.0@, l.1))
}

/// Rows as paintable lines, or the single line an empty pane shows instead.
pub fn pane_lines(pane: &ListPaneVm, pane_width: u16) -> (v: Vec<(String, RowEmphasis)>)
    ensures
        lines_view(v@) == pane_lines_spec(*pane, pane_width as int),
{
    let mut out: Vec<(String, RowEmphasis)> = Vec::new();
    if pane.empty != ListPaneEmpty::HasRows {
        let message = match &pane.empty_message {
            Some(m) => m.clone(),
            None => owned("  "),
        };
        out.push((message, RowEmphasis::Plain));
        assert(lines_view(out@) =~= pane_lines_spec(*pane, pane_width as int));
        return out;
    }
    let mut i: usize = 0;
    while i < pane.rows.len()
        invariant
            i <= pane.rows@.len(),
            pane.empty == ListPaneEmpty::HasRows,
            lines_view(out@) =~= pane_lines_spec(*pane, pane_width as int).take(i as int),
        decreases pane.rows@.len() - i,
    {
        let row = &pane.rows[i];
        let text = visible_list_row(
            row.label.as_str(),
            row_hscroll(pane.selected, i, pane.hscroll),
            pane_width,
        );
        let ghost prev = out@;
        let ghost full = pane_lines_spec(*pane, pane_width as int);
        out.push((text, row.emphasis));
        assert(lines_view(out@) =~= lines_view(prev).push((text@, row.emphasis)));
        assert(full.take(i + 1) =~= full.take(i as int).push(full[i as int]));
        i = i + 1;
    }
    assert(pane_lines_spec(*pane, pane_width as int).take(pane.rows@.len() as int) =~= pane_lines_spec(
        *pane,
        pane_width as int,
    ));
    out
}

} // verus!
