//! What the List screen paints: its two panes (titles, rows, empty states) and its footer.

use vstd::prelude::*;
use crate::chrome::{spinner_frame, spinner_glyph, TextInput};
use crate::domain::{GistView, MatchMark, RankedGistFile};
use crate::labels::{
    badge_text, count_label, count_text, gist_badge_prefix, gist_row_label, gist_row_spec,
    marked_row_spec, marked_row_text,
};
use crate::list_keys::{sort_label, gist_type_label, FocusPane, ListScreen};
use crate::text::{owned, push_str, strings_view};
use crate::view_model::{ListPaneEmpty, ListPaneVm, PaneTitleVm, RowEmphasis, RowVm};

verus! {

/// A visible local row: its label (the path as the pane names it) and its rank mark.
pub struct LocalRowIn {
    pub label: String,
    pub mark: MatchMark,
}

/// A visible gist row: the ranked gist file, and whether the user starred its gist.
pub struct GistRowIn {
    pub file: RankedGistFile,
    pub starred: bool,
}

/// What the List screen shows beyond its own state: the catalogue's sizes, what is still
/// loading, the working directory as shown, and the footer's key hints.
pub struct ListData {
    /// Local files found, before filtering.
    pub local_total: usize,
    pub local_scanning: bool,
    /// The gist list is loading.
    pub loading: bool,
    pub spinner_frame: usize,
    /// Gist files the user owns, before filtering.
    pub owned_total: usize,
    pub cwd_display: String,
    pub footer_hints: String,
}

/// The List screen's footer.
pub enum ListFooterVm {
    /// Idle key hints.
    Hints { text: String },
    /// A one-shot status message.
    Status { text: String },
    /// The focused pane's filter, being typed.
    Filtering { focus: FocusPane, query: TextInput },
}

/// Everything the List screen paints.
pub struct ListVm {
    pub local: ListPaneVm,
    pub gist: ListPaneVm,
    pub footer: ListFooterVm,
    /// Share of the width the local pane gets.
    pub split_percent: u16,
    /// The divider is being dragged, so paint highlights it.
    pub split_dragging: bool,
}

/// ` ⚑` for the pane that drives the ranking, nothing for the other.
pub open spec fn anchor_text(anchor: FocusPane, pane: FocusPane) -> Seq<char> {
    if anchor == pane {
        seq![' ', '⚑']
    } else {
        Seq::<char>::empty()
    }
}

/// A row stands out when its file name matched exactly.
pub open spec fn emphasis_of(mark: MatchMark) -> RowEmphasis {
    if mark == MatchMark::ExactFilename {
        RowEmphasis::Strong
    } else {
        RowEmphasis::Plain
    }
}

/// The local pane's head, with `name` (`Local ` or nothing).
pub open spec fn local_head(s: ListScreen, d: ListData, shown: nat, name: Seq<char>) -> Seq<char> {
    "[1] "@ + name + count_text(shown, d.local_total as nat) + anchor_text(s.anchor, FocusPane::Local)
        + (if s.local_recursive {
        " [↓]"@
    } else {
        Seq::<char>::empty()
    }) + (if d.local_scanning {
        " …"@
    } else {
        Seq::<char>::empty()
    })
}

/// The gist pane's head, with `name` (`Gists ` or nothing).
pub open spec fn gist_head(s: ListScreen, d: ListData, shown: nat, name: Seq<char>) -> Seq<char> {
    "[2] "@ + name + count_text(shown, d.owned_total as nat) + anchor_text(s.anchor, FocusPane::Gist)
}

/// `/query` when a filter is typed.
pub open spec fn filter_segment(query: Seq<char>) -> Seq<Seq<char>> {
    if query.len() == 0 {
        Seq::empty()
    } else {
        seq!["/"@ + query]
    }
}

/// The rows a pane shows, read as (label, emphasis).
pub open spec fn rows_view(rows: Seq<RowVm>) -> Seq<(Seq<char>, RowEmphasis)> {
    rows.map_values(|r: RowVm| (r.label@, r.emphasis))
}

/// The local rows, as the pane shows them.
pub open spec fn local_rows_spec(locals: Seq<LocalRowIn>) -> Seq<(Seq<char>, RowEmphasis)> {
    locals.map_values(|r: LocalRowIn| (marked_row_spec(r.label@, r.mark), emphasis_of(r.mark)))
}

/// A gist row's text: the star, then the row label, behind the pin mark.
pub open spec fn gist_display(g: GistRowIn, view: GistView) -> Seq<char> {
    marked_row_spec(badge_text(g.starred, false) + gist_row_spec(g.file.file, view), g.file.mark)
}

/// The gist rows, as the pane shows them.
pub open spec fn gist_rows_spec(ranked: Seq<GistRowIn>, view: GistView) -> Seq<(Seq<char>, RowEmphasis)> {
    ranked.map_values(|g: GistRowIn| (gist_display(g, view), emphasis_of(g.file.mark)))
}

/// Why a pane has no rows, or that it has some: still loading and nothing yet, nothing at
/// all, or nothing that passes the filter.
pub open spec fn pane_empty(loading: bool, total_zero: bool, none_shown: bool, filtered: bool) -> ListPaneEmpty {
    if loading && total_zero {
        ListPaneEmpty::Loading
    } else if total_zero {
        ListPaneEmpty::NoItems
    } else if none_shown {
        ListPaneEmpty::NoFilterMatch
    } else {
        ListPaneEmpty::HasRows
    }
}

/// The characters of an optional string.
pub open spec fn opt_view(o: Option<String>) -> Option<Seq<char>> {
    match o {
        Some(s) => Some(s@),
        None => None,
    }
}

/// The local pane as built from the screen, the data and the visible local rows.
pub open spec fn local_pane_ok(p: ListPaneVm, s: ListScreen, d: ListData, locals: Seq<LocalRowIn>) -> bool {
    let empty = pane_empty(d.local_scanning, d.local_total == 0, locals.len() == 0, true);
    &&& p.empty == empty
    &&& opt_view(p.empty_message) == match empty {
        ListPaneEmpty::Loading => Some("  "@ + spinner_frame((d.spinner_frame % 10) as int)
            + " Scanning files…"@),
        ListPaneEmpty::NoItems => Some("  No local files found"@),
        ListPaneEmpty::NoFilterMatch => Some("  No files match the filter"@),
        ListPaneEmpty::HasRows => None,
    }
    &&& rows_view(p.rows@) == (if empty == ListPaneEmpty::HasRows {
        local_rows_spec(locals)
    } else {
        Seq::empty()
    })
    &&& strings_view(p.title.segments@) == seq![
        local_head(s, d, locals.len(), "Local "@),
        "sort:"@ + sort_label(s.local_sort),
    ] + filter_segment(s.local_filter_query.text_view())
    &&& opt_view(p.title.short_head) == Some(local_head(s, d, locals.len(), Seq::empty()))
    &&& opt_view(p.title.context) == Some(d.cwd_display@)
    &&& p.focused == (s.focus == FocusPane::Local)
    &&& p.selected == (if empty == ListPaneEmpty::HasRows {
        Some(s.local_cursor.index)
    } else {
        None
    })
    &&& p.hscroll == s.local_cursor.hscroll
    &&& p.scrollbar
}

/// The gist pane as built from the screen, the data and the ranked gist rows.
pub open spec fn gist_pane_ok(p: ListPaneVm, s: ListScreen, d: ListData, ranked: Seq<GistRowIn>) -> bool {
    let filtered = s.filter_query.text_view().len() > 0;
    let empty = if d.loading && ranked.len() == 0 {
        ListPaneEmpty::Loading
    } else if ranked.len() == 0 {
        if filtered {
            ListPaneEmpty::NoFilterMatch
        } else {
            ListPaneEmpty::NoItems
        }
    } else {
        ListPaneEmpty::HasRows
    };
    &&& p.empty == empty
    &&& opt_view(p.empty_message) == match empty {
        ListPaneEmpty::Loading => Some("  "@ + spinner_frame((d.spinner_frame % 10) as int)
            + " Loading gists…"@),
        ListPaneEmpty::NoItems => Some("  No gists found"@),
        ListPaneEmpty::NoFilterMatch => Some("  No gists match the filter"@),
        ListPaneEmpty::HasRows => None,
    }
    &&& rows_view(p.rows@) == (if empty == ListPaneEmpty::HasRows {
        gist_rows_spec(ranked, s.gist_view)
    } else {
        Seq::empty()
    })
    &&& strings_view(p.title.segments@) == seq![
        gist_head(s, d, ranked.len(), "Gists "@),
        gist_type_label(s.gist_type_filter),
        sort_label(s.gist_sort),
    ] + filter_segment(s.filter_query.text_view())
    &&& opt_view(p.title.short_head) == Some(gist_head(s, d, ranked.len(), Seq::empty()))
    &&& p.title.context is None
    &&& p.focused == (s.focus == FocusPane::Gist)
    &&& p.selected == (if empty == ListPaneEmpty::HasRows {
        Some(s.gist_cursor.index)
    } else {
        None
    })
    &&& p.hscroll == s.gist_cursor.hscroll
    &&& p.scrollbar
}

/// The footer: the filter being typed, else the status, else the key hints.
pub open spec fn footer_ok(f: ListFooterVm, s: ListScreen, d: ListData) -> bool {
    if s.filtering {
        f matches ListFooterVm::Filtering { focus, query } && focus == s.focus
            && query.text_view() == (match s.focus {
            FocusPane::Local => s.local_filter_query.text_view(),
            FocusPane::Gist => s.filter_query.text_view(),
        }) && query.cursor_view() == (match s.focus {
            FocusPane::Local => s.local_filter_query.cursor_view(),
            FocusPane::Gist => s.filter_query.cursor_view(),
        })
    } else {
        match s.status {
            Some(m) => f matches ListFooterVm::Status { text } && text@ == m@,
            None => f matches ListFooterVm::Hints { text } && text@ == d.footer_hints@,
        }
    }
}

/// The local rows, as the pane shows them.
fn local_rows(locals: &[LocalRowIn]) -> (rows: Vec<RowVm>)
    ensures
        rows_view(rows@) == local_rows_spec(locals@),
{
    let mut rows: Vec<RowVm> = Vec::new();
    let mut i: usize = 0;
    while i < locals.len()
        invariant
            i <= locals@.len(),
            rows_view(rows@) == local_rows_spec(locals@.take(i as int)),
        decreases locals@.len() - i,
    {
        let r = &locals[i];
        let label = marked_row_text(owned(r.label.as_str()), r.mark);
        let emphasis = if r.mark == MatchMark::ExactFilename {
            RowEmphasis::Strong
        } else {
            RowEmphasis::Plain
        };
        let ghost prev = rows@;
        let ghost item = (label@, emphasis);
        rows.push(RowVm { label, emphasis });
        assert(locals@.take(i + 1) =~= locals@.take(i as int).push(locals@[i as int]));
        assert(rows_view(rows@) =~= rows_view(prev).push(item));
        assert(local_rows_spec(locals@.take(i + 1)) =~= local_rows_spec(locals@.take(i as int)).push(
            item,
        ));
        i = i + 1;
    }
    assert(locals@.take(locals@.len() as int) =~= locals@);
    rows
}

/// The gist rows, as the pane shows them.
fn gist_rows(ranked: &[GistRowIn], view: GistView) -> (rows: Vec<RowVm>)
    ensures
        rows_view(rows@) == gist_rows_spec(ranked@, view),
{
    let mut rows: Vec<RowVm> = Vec::new();
    let mut i: usize = 0;
    while i < ranked.len()
        invariant
            i <= ranked@.len(),
            rows_view(rows@) == gist_rows_spec(ranked@.take(i as int), view),
        decreases ranked@.len() - i,
    {
        let g = &ranked[i];
        let mut base = gist_badge_prefix(g.starred, false);
        let row = gist_row_label(&g.file, view);
        push_str(&mut base, row.as_str());
        let label = marked_row_text(base, g.file.mark);
        let emphasis = if g.file.mark == MatchMark::ExactFilename {
            RowEmphasis::Strong
        } else {
            RowEmphasis::Plain
        };
        let ghost prev = rows@;
        let ghost item = (label@, emphasis);
        rows.push(RowVm { label, emphasis });
        assert(ranked@.take(i + 1) =~= ranked@.take(i as int).push(ranked@[i as int]));
        assert(rows_view(rows@) =~= rows_view(prev).push(item));
        assert(gist_rows_spec(ranked@.take(i + 1), view) =~= gist_rows_spec(
            ranked@.take(i as int),
            view,
        ).push(item));
        i = i + 1;
    }
    assert(ranked@.take(ranked@.len() as int) =~= ranked@);
    rows
}

/// `  <spinner> <what>`.
fn spinner_message(frame: usize, what: &str) -> (s: String)
    ensures
        s@ == "  "@ + spinner_frame((frame % 10) as int) + what@,
{
    let mut s = owned("  ");
    let g = spinner_glyph(frame);
    push_str(&mut s, g.as_str());
    push_str(&mut s, what);
    s
}

/// The local pane's head.
fn local_head_text(s: &ListScreen, d: &ListData, shown: usize, name: &str) -> (r: String)
    ensures
        r@ == local_head(*s, *d, shown as nat, name@),
{
    let mut h = owned("[1] ");
    push_str(&mut h, name);
    let c = count_label(shown, d.local_total);
    push_str(&mut h, c.as_str());
    if s.anchor == FocusPane::Local {
        push_str(&mut h, " ⚑");
    }
    if s.local_recursive {
        push_str(&mut h, " [↓]");
    }
    if d.local_scanning {
        push_str(&mut h, " …");
    }
    proof {
        reveal_strlit(" ⚑");
    }
    assert(h@ =~= local_head(*s, *d, shown as nat, name@));
    h
}

/// The gist pane's head.
fn gist_head_text(s: &ListScreen, d: &ListData, shown: usize, name: &str) -> (r: String)
    ensures
        r@ == gist_head(*s, *d, shown as nat, name@),
{
    let mut h = owned("[2] ");
    push_str(&mut h, name);
    let c = count_label(shown, d.owned_total);
    push_str(&mut h, c.as_str());
    if s.anchor == FocusPane::Gist {
        push_str(&mut h, " ⚑");
    }
    proof {
        reveal_strlit(" ⚑");
    }
    assert(h@ =~= gist_head(*s, *d, shown as nat, name@));
    h
}

/// The local pane.
fn build_local_pane(s: &ListScreen, d: &ListData, locals: &[LocalRowIn]) -> (p: ListPaneVm)
    ensures
        local_pane_ok(p, *s, *d, locals@),
{
    let (empty, empty_message, rows) = if d.local_scanning && d.local_total == 0 {
        (ListPaneEmpty::Loading, Some(spinner_message(d.spinner_frame, " Scanning files…")), Vec::new())
    } else if d.local_total == 0 {
        (ListPaneEmpty::NoItems, Some(owned("  No local files found")), Vec::new())
    } else if locals.len() == 0 {
        (ListPaneEmpty::NoFilterMatch, Some(owned("  No files match the filter")), Vec::new())
    } else {
        (ListPaneEmpty::HasRows, None, local_rows(locals))
    };
    proof {
        assert(rows_view(Seq::<RowVm>::empty()) =~= Seq::empty());
    }
    let mut title = PaneTitleVm::new(local_head_text(s, d, locals.len(), "Local "));
    title.short_head = Some(local_head_text(s, d, locals.len(), ""));
    let mut sort = owned("sort:");
    push_str(&mut sort, s.local_sort.label());
    title.push(sort.as_str());
    let query = s.local_filter_query.text();
    title.push_filter(query.as_str());
    title.context = Some(owned(d.cwd_display.as_str()));
    proof {
        reveal_strlit("");
        assert(""@ =~= Seq::<char>::empty());
        assert(strings_view(title.segments@) =~= seq![
            local_head(*s, *d, locals@.len(), "Local "@),
            "sort:"@ + sort_label(s.local_sort),
        ] + filter_segment(s.local_filter_query.text_view()));
    }
    let has_rows = empty == ListPaneEmpty::HasRows;
    ListPaneVm {
        title,
        focused: s.focus == FocusPane::Local,
        selected: if has_rows {
            Some(s.local_cursor.index)
        } else {
            None
        },
        empty,
        empty_message,
        rows,
        hscroll: s.local_cursor.hscroll,
        scrollbar: true,
    }
}

/// The gist pane.
fn build_gist_pane(s: &ListScreen, d: &ListData, ranked: &[GistRowIn]) -> (p: ListPaneVm)
    ensures
        gist_pane_ok(p, *s, *d, ranked@),
{
    let filtered = s.filter_query.len() > 0;
    let (empty, empty_message, rows) = if d.loading && ranked.len() == 0 {
        (ListPaneEmpty::Loading, Some(spinner_message(d.spinner_frame, " Loading gists…")), Vec::new())
    } else if ranked.len() == 0 {
        if filtered {
            (ListPaneEmpty::NoFilterMatch, Some(owned("  No gists match the filter")), Vec::new())
        } else {
            (ListPaneEmpty::NoItems, Some(owned("  No gists found")), Vec::new())
        }
    } else {
        (ListPaneEmpty::HasRows, None, gist_rows(ranked, s.gist_view))
    };
    proof {
        assert(rows_view(Seq::<RowVm>::empty()) =~= Seq::empty());
    }
    let mut title = PaneTitleVm::new(gist_head_text(s, d, ranked.len(), "Gists "));
    title.short_head = Some(gist_head_text(s, d, ranked.len(), ""));
    title.push(s.gist_type_filter.label());
    title.push(s.gist_sort.label());
    let query = s.filter_query.text();
    title.push_filter(query.as_str());
    proof {
        reveal_strlit("");
        assert(""@ =~= Seq::<char>::empty());
        assert(strings_view(title.segments@) =~= seq![
            gist_head(*s, *d, ranked@.len(), "Gists "@),
            gist_type_label(s.gist_type_filter),
            sort_label(s.gist_sort),
        ] + filter_segment(s.filter_query.text_view()));
    }
    let has_rows = empty == ListPaneEmpty::HasRows;
    ListPaneVm {
        title,
        focused: s.focus == FocusPane::Gist,
        selected: if has_rows {
            Some(s.gist_cursor.index)
        } else {
            None
        },
        empty,
        empty_message,
        rows,
        hscroll: s.gist_cursor.hscroll,
        scrollbar: true,
    }
}

/// Build what the List screen paints from its state, the data around it, and the visible
/// rows of each pane (see [`local_pane_ok`], [`gist_pane_ok`], [`footer_ok`]).
pub fn build_list_vm(
    s: &ListScreen,
    d: &ListData,
    locals: &[LocalRowIn],
    ranked: &[GistRowIn],
) -> (vm: ListVm)
    ensures
        local_pane_ok(vm.local, *s, *d, locals@),
        gist_pane_ok(vm.gist, *s, *d, ranked@),
        footer_ok(vm.footer, *s, *d),
        vm.split_percent == s.split_percent,
        vm.split_dragging == s.split_dragging,
{
    let local = build_local_pane(s, d, locals);
    let gist = build_gist_pane(s, d, ranked);
    let footer = if s.filtering {
        let query = match s.focus {
            FocusPane::Local => s.local_filter_query.duplicate(),
            FocusPane::Gist => s.filter_query.duplicate(),
        };
        ListFooterVm::Filtering { focus: s.focus, query }
    } else {
        match &s.status {
            Some(m) => ListFooterVm::Status { text: owned(m.as_str()) },
            None => ListFooterVm::Hints { text: owned(d.footer_hints.as_str()) },
        }
    };
    ListVm {
        local,
        gist,
        footer,
        split_percent: s.split_percent,
        split_dragging: s.split_dragging,
    }
}

} // verus!
