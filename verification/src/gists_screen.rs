//! The Gist manager screen: its keys, and the rows, title and footer it paints.

use vstd::prelude::*;
use crate::chrome::{footer_with_status, TextInput};
use crate::domain::{GistGroup, GistGroupSort};
use crate::keys::{Key, NavAction};
use crate::labels::{count_label, count_text, gist_group_row_label, group_row_text, opt_str_view};
use crate::list_keys::{
    handle_inline_filter_key, inline_filter_spec, move_cursor, moved_cursor, opt_chars,
    gist_type_label, GistTypeFilter,
};
use crate::list_view::rows_view;
use crate::state::ListCursor;
use crate::text::{
    contains_ci, contains_ci_spec, dec, lemma_seq_lt_irreflexive, lemma_seq_lt_total,
    lemma_seq_not_lt_transitive, owned, push_dec, push_str, seq_lt, str_eq, str_lt,
};
use crate::view_model::{ListPaneEmpty, ListPaneVm, PaneTitleVm, RowEmphasis, RowVm};

verus! {

/// The order after `s`: updated, then created, then updated again.
pub open spec fn next_group_sort(s: GistGroupSort) -> GistGroupSort {
    match s {
        GistGroupSort::Updated => GistGroupSort::Created,
        GistGroupSort::Created => GistGroupSort::Updated,
    }
}

/// The word the manager's title shows for an order.
pub open spec fn group_sort_label(s: GistGroupSort) -> Seq<char> {
    match s {
        GistGroupSort::Updated => "updated"@,
        GistGroupSort::Created => "created"@,
    }
}

/// The word for an order (see [`group_sort_label`]).
pub fn group_sort_word(s: GistGroupSort) -> (r: &'static str)
    ensures
        r@ == group_sort_label(s),
{
    match s {
        GistGroupSort::Updated => "updated",
        GistGroupSort::Created => "created",
    }
}

/// The Gist manager's own state.
#[derive(Debug, Clone, PartialEq, Eq)]
pub struct GistsState {
    pub cursor: ListCursor,
    pub filter_query: TextInput,
    /// Typing edits the filter.
    pub filtering: bool,
    pub sort: GistGroupSort,
    pub type_filter: GistTypeFilter,
}

impl GistsState {
    /// The manager as it opens: first row, no filter, newest updates first, every gist.
    pub open spec fn is_fresh(self) -> bool {
        &&& self.cursor == (ListCursor { index: 0, hscroll: 0 })
        &&& self.filter_query.well_formed()
        &&& self.filter_query.text_view().len() == 0
        &&& !self.filtering
        &&& self.sort == GistGroupSort::Updated
        &&& self.type_filter == GistTypeFilter::All
    }

    /// The manager as it opens (see [`GistsState::is_fresh`]).
    pub fn new() -> (s: GistsState)
        ensures
            s.is_fresh(),
    {
        let empty = "";
        proof {
            reveal_strlit("");
        }
        assert(empty@.len() == 0);
        GistsState {
            cursor: ListCursor::new(),
            filter_query: TextInput::from(empty),
            filtering: false,
            sort: GistGroupSort::Updated,
            type_filter: GistTypeFilter::All,
        }
    }
}

/// What a key on the Gist manager asks the rest of the program to do.
#[derive(Debug, Clone, PartialEq, Eq)]
pub enum GistsKeyOutcome {
    Nothing,
    /// Back to the List screen.
    Leave,
    /// Star or unstar the selected gist.
    ToggleStar,
    OpenGistDetail { gist_id: String },
    OpenBrowser { gist_id: String },
    CopyGistUrl { gist_id: String },
    /// Open the revision history of the gist.
    OpenRevisions { gist_id: String },
    OpenHelp,
}

/// Whether `key` would act on the Gist manager: `Enter`, `o`, `y`, `H` and `*` need a gist
/// under the cursor (`selected`). The key handler gates its actions on it and the command
/// palette lists only what passes it.
pub open spec fn gists_guard_spec(selected: bool, key: Key) -> bool {
    if key == Key::Enter || key == Key::Char('o') || key == Key::Char('y') || key == Key::Char('H')
        || key == Key::Char('*') {
        selected
    } else {
        false
    }
}

/// Whether `key` would act on the Gist manager (see [`gists_guard_spec`]).
pub fn gists_guard(selected: bool, key: Key) -> (r: bool)
    ensures
        r == gists_guard_spec(selected, key),
{
    if key == Key::Enter || key == Key::Char('o') || key == Key::Char('y') || key == Key::Char('H')
        || key == Key::Char('*') {
        selected
    } else {
        false
    }
}

/// What a key asks for on the Gist manager when the filter is not being typed, the gist
/// under the cursor being `selected` (by id).
pub open spec fn gists_key_outcome(selected: Option<Seq<char>>, key: Key) -> GistsOutcomeView {
    let guard = gists_guard_spec(selected is Some, key);
    if key == Key::Char('q') || key == Key::Esc {
        GistsOutcomeView::Leave
    } else if key == Key::Char('*') {
        GistsOutcomeView::ToggleStar
    } else if key == Key::Enter && guard {
        GistsOutcomeView::OpenGistDetail(selected->0)
    } else if key == Key::Char('o') && guard {
        GistsOutcomeView::OpenBrowser(selected->0)
    } else if key == Key::Char('y') && guard {
        GistsOutcomeView::CopyGistUrl(selected->0)
    } else if key == Key::Char('H') && guard {
        GistsOutcomeView::OpenRevisions(selected->0)
    } else if key == Key::Char('?') {
        GistsOutcomeView::OpenHelp
    } else {
        GistsOutcomeView::Nothing
    }
}

/// An outcome, its strings read as characters.
pub enum GistsOutcomeView {
    Nothing,
    Leave,
    ToggleStar,
    OpenGistDetail(Seq<char>),
    OpenBrowser(Seq<char>),
    CopyGistUrl(Seq<char>),
    OpenRevisions(Seq<char>),
    OpenHelp,
}

/// The view of an outcome.
pub open spec fn gists_outcome_view(o: GistsKeyOutcome) -> GistsOutcomeView {
    match o {
        GistsKeyOutcome::Nothing => GistsOutcomeView::Nothing,
        GistsKeyOutcome::Leave => GistsOutcomeView::Leave,
        GistsKeyOutcome::ToggleStar => GistsOutcomeView::ToggleStar,
        GistsKeyOutcome::OpenGistDetail { gist_id } => GistsOutcomeView::OpenGistDetail(gist_id@),
        GistsKeyOutcome::OpenBrowser { gist_id } => GistsOutcomeView::OpenBrowser(gist_id@),
        GistsKeyOutcome::CopyGistUrl { gist_id } => GistsOutcomeView::CopyGistUrl(gist_id@),
        GistsKeyOutcome::OpenRevisions { gist_id } => GistsOutcomeView::OpenRevisions(gist_id@),
        GistsKeyOutcome::OpenHelp => GistsOutcomeView::OpenHelp,
    }
}

/// The id of the gist under the cursor among the `visible` ids.
pub open spec fn selected_group_id(s: GistsState, visible: Seq<String>) -> Option<Seq<char>> {
    if s.cursor.index < visible.len() {
        Some(visible[s.cursor.index as int]@)
    } else {
        None
    }
}

/// The gist the Gist manager is about: the one under its cursor, among the `visible` ids.
pub fn context_gist_id(s: &GistsState, visible: &[String]) -> (r: Option<String>)
    ensures
        opt_chars(r) == selected_group_id(*s, visible@),
{
    if s.cursor.index < visible.len() {
        Some(visible[s.cursor.index].clone())
    } else {
        None
    }
}

/// Apply `key` to the Gist manager, whose filter shows the gists with ids `visible` in
/// order. While the filter is typed the key goes to it (see [`inline_filter_spec`]);
/// otherwise `q`/`Esc` leave, `/` starts the filter, `s` and `v` change the order and the
/// type filter (back to the first row), and `Enter`, `o`, `y`, `H` act on the gist under the
/// cursor when there is one. The status line is cleared first.
pub fn handle_key_gists(
    s: &mut GistsState,
    status: &mut Option<String>,
    visible: &[String],
    key: Key,
) -> (out: GistsKeyOutcome)
    requires
        old(s).filter_query.well_formed(),
        old(s).filter_query.text_view().len() < usize::MAX,
    ensures
        final(s).filter_query.well_formed(),
        final(status).is_none(),
        if old(s).filtering {
            let e = inline_filter_spec(
                old(s).cursor,
                (old(s).filter_query.text_view(), old(s).filter_query.cursor_view()),
                key,
                visible@.len(),
            );
            &&& out == GistsKeyOutcome::Nothing
            &&& final(s).cursor == e.0
            &&& (final(s).filter_query.text_view(), final(s).filter_query.cursor_view()) == e.1
            &&& final(s).filtering == e.2
            &&& final(s).sort == old(s).sort
            &&& final(s).type_filter == old(s).type_filter
        } else {
            let reset = key == Key::Char('s') || key == Key::Char('v');
            &&& final(s).filter_query == old(s).filter_query
            &&& final(s).filtering == (key == Key::Char('/'))
            &&& final(s).sort == (if key == Key::Char('s') {
                next_group_sort(old(s).sort)
            } else {
                old(s).sort
            })
            &&& final(s).type_filter == (if key == Key::Char('v') {
                crate::list_keys::next_type_filter(old(s).type_filter)
            } else {
                old(s).type_filter
            })
            &&& final(s).cursor == (if reset {
                ListCursor { index: 0, hscroll: 0 }
            } else {
                old(s).cursor
            })
            &&& gists_outcome_view(out) == gists_key_outcome(
                selected_group_id(*old(s), visible@),
                key,
            )
        },
{
    *status = None;
    if s.filtering {
        let mut cursor = s.cursor;
        let mut filtering = s.filtering;
        handle_inline_filter_key(&mut cursor, &mut s.filter_query, &mut filtering, visible.len(), key);
        s.cursor = cursor;
        s.filtering = filtering;
        return GistsKeyOutcome::Nothing;
    }
    let selected: Option<&String> = if s.cursor.index < visible.len() {
        Some(&visible[s.cursor.index])
    } else {
        None
    };
    let guard = gists_guard(selected.is_some(), key);
    if key == Key::Char('q') || key == Key::Esc {
        GistsKeyOutcome::Leave
    } else if key == Key::Char('/') {
        s.filtering = true;
        GistsKeyOutcome::Nothing
    } else if key == Key::Char('s') {
        s.sort = match s.sort {
            GistGroupSort::Updated => GistGroupSort::Created,
            GistGroupSort::Created => GistGroupSort::Updated,
        };
        s.cursor = ListCursor::new();
        GistsKeyOutcome::Nothing
    } else if key == Key::Char('v') {
        s.type_filter = s.type_filter.next();
        s.cursor = ListCursor::new();
        GistsKeyOutcome::Nothing
    } else if key == Key::Char('*') {
        GistsKeyOutcome::ToggleStar
    } else if guard {
        let gist_id = match selected {
            Some(id) => id.clone(),
            None => String::new(),
        };
        if key == Key::Enter {
            GistsKeyOutcome::OpenGistDetail { gist_id }
        } else if key == Key::Char('o') {
            GistsKeyOutcome::OpenBrowser { gist_id }
        } else if key == Key::Char('y') {
            GistsKeyOutcome::CopyGistUrl { gist_id }
        } else {
            GistsKeyOutcome::OpenRevisions { gist_id }
        }
    } else if key == Key::Char('?') {
        GistsKeyOutcome::OpenHelp
    } else {
        GistsKeyOutcome::Nothing
    }
}

/// Arrow, `hjkl` and page-key navigation on the Gist manager, over its `rows` visible rows,
/// the selected row scrolling at most `hmax` cells sideways.
pub fn apply_navigation_gists(s: &mut GistsState, action: NavAction, rows: usize, hmax: u16) -> (handled: bool)
    ensures
        handled,
        final(s).cursor == moved_cursor(old(s).cursor, rows as int, action, hmax as int),
        final(s).filter_query == old(s).filter_query,
        final(s).filtering == old(s).filtering,
        final(s).sort == old(s).sort,
        final(s).type_filter == old(s).type_filter,
{
    s.cursor = move_cursor(s.cursor, rows, action, hmax);
    true
}

/// A click on the manager's list: on row `index` it selects that row; elsewhere it does
/// nothing. Returns whether a row was hit.
pub fn click_select_gists(s: &mut GistsState, index: Option<usize>) -> (hit: bool)
    ensures
        hit == index is Some,
        final(s).cursor == (match index {
            Some(i) => ListCursor { index: i, hscroll: 0 },
            None => old(s).cursor,
        }),
        final(s).filter_query == old(s).filter_query,
        final(s).filtering == old(s).filtering,
        final(s).sort == old(s).sort,
        final(s).type_filter == old(s).type_filter,
{
    match index {
        Some(i) => {
            s.cursor.select(i);
            true
        },
        None => false,
    }
}

/// A visible gist, with what its row shows beside the gist itself: its (comment, star,
/// fork) counts and whether the user starred it.
pub struct GistGroupRow {
    pub group: GistGroup,
    pub counts: (u32, u32, u32),
    pub starred: bool,
}

/// What the Gist manager paints.
pub struct GistsVm {
    pub pane: ListPaneVm,
    pub filtering: bool,
    pub filter_query: String,
    pub footer_title: String,
    pub footer: String,
    /// The footer holds key hints to colour, rather than a plain message.
    pub footer_colored: bool,
}

/// The manager's title.
pub open spec fn gists_title_spec(
    shown: nat,
    total: nat,
    sort: GistGroupSort,
    type_filter: GistTypeFilter,
    starred: nat,
    forks: nat,
    query: Seq<char>,
) -> Seq<char> {
    "Gists "@ + count_text(shown, total) + "  ·  sort:"@ + group_sort_label(sort) + "  ·  type:"@
        + gist_type_label(type_filter) + "  ·  ★ "@ + dec(starred) + "  ·  ⑂ "@ + dec(forks) + (
    if query.len() > 0 {
        "  ·  /"@ + query
    } else {
        Seq::empty()
    })
}

/// The manager's rows, read as (label, emphasis).
pub open spec fn group_rows_spec(
    rows: Seq<GistGroupRow>,
    now: u64,
    sort: GistGroupSort,
    user: Option<Seq<char>>,
) -> Seq<(Seq<char>, RowEmphasis)> {
    rows.map_values(
        |r: GistGroupRow| (group_row_text(r.group, now, sort, r.counts, r.starred, user), RowEmphasis::Plain),
    )
}

/// The manager's view as built (see [`build_gists_vm`]).
pub open spec fn gists_vm_ok(
    vm: GistsVm,
    s: GistsState,
    rows: Seq<GistGroupRow>,
    total: nat,
    starred: nat,
    forks: nat,
    now: u64,
    user: Option<Seq<char>>,
    status: Option<Seq<char>>,
    hints: Seq<char>,
) -> bool {
    let q = s.filter_query.text_view();
    let empty = if rows.len() > 0 {
        ListPaneEmpty::HasRows
    } else if total == 0 {
        ListPaneEmpty::NoItems
    } else {
        ListPaneEmpty::NoFilterMatch
    };
    &&& vm.pane.empty == empty
    &&& opt_chars(vm.pane.empty_message) == match empty {
        ListPaneEmpty::NoItems => Some("  📭 No gists found"@),
        ListPaneEmpty::NoFilterMatch => Some("  🔍 No gists match the filter"@),
        _ => None,
    }
    &&& rows_view(vm.pane.rows@) == group_rows_spec(rows, now, s.sort, user)
    &&& vm.pane.title.segments@.len() == 1
    &&& vm.pane.title.segments@[0]@ == gists_title_spec(
        rows.len(),
        total,
        s.sort,
        s.type_filter,
        starred,
        forks,
        q,
    )
    &&& vm.pane.title.short_head is None
    &&& vm.pane.title.context is None
    &&& vm.pane.focused
    &&& vm.pane.selected == (if rows.len() > 0 {
        Some(s.cursor.index)
    } else {
        None
    })
    &&& vm.pane.hscroll == s.cursor.hscroll
    &&& !vm.pane.scrollbar
    &&& vm.filtering == s.filtering
    &&& vm.filter_query@ == q
    &&& if s.filtering {
        &&& vm.footer_title@ == "Filter (↑↓ move · Enter apply · Esc clear)"@
        &&& vm.footer@ == "/"@ + q + "_"@
        &&& !vm.footer_colored
    } else {
        &&& vm.footer_title@.len() == 0
        &&& match status {
            Some(m) => vm.footer@ == m && !vm.footer_colored,
            None => vm.footer@ == hints && vm.footer_colored,
        }
    }
}

/// Build what the Gist manager paints from its state and its visible gists, `total` being
/// how many gists there are before filtering, `starred` and `forks` how many of the user's
/// gists are starred and forks, `now` the Unix time, `user` the signed-in login, `status`
/// the one-shot status line and `hints` the footer's key hints.
pub fn build_gists_vm(
    s: &GistsState,
    rows: &[GistGroupRow],
    total: usize,
    starred: usize,
    forks: usize,
    now: u64,
    user: Option<&str>,
    status: Option<&str>,
    hints: &str,
) -> (vm: GistsVm)
    requires
        now <= i64::MAX,
    ensures
        gists_vm_ok(
            vm,
            *s,
            rows@,
            total as nat,
            starred as nat,
            forks as nat,
            now,
            opt_str_view(user),
            opt_str_view(status),
            hints@,
        ),
{
    let q = s.filter_query.text();
    let mut out: Vec<RowVm> = Vec::new();
    let mut j: usize = 0;
    while j < rows.len()
        invariant
            j <= rows@.len(),
            now <= i64::MAX,
            rows_view(out@) == group_rows_spec(rows@.take(j as int), now, s.sort, opt_str_view(user)),
        decreases rows@.len() - j,
    {
        let r = &rows[j];
        let label = gist_group_row_label(&r.group, now, s.sort, r.counts, r.starred, user);
        let ghost prev = out@;
        let ghost item = (label@, RowEmphasis::Plain);
        out.push(RowVm { label, emphasis: RowEmphasis::Plain });
        assert(rows@.take(j + 1) =~= rows@.take(j as int).push(rows@[j as int]));
        assert(rows_view(out@) =~= rows_view(prev).push(item));
        assert(group_rows_spec(rows@.take(j + 1), now, s.sort, opt_str_view(user)) =~= group_rows_spec(
            rows@.take(j as int),
            now,
            s.sort,
            opt_str_view(user),
        ).push(item));
        j = j + 1;
    }
    assert(rows@.take(rows@.len() as int) =~= rows@);
    let (empty, empty_message) = if rows.len() > 0 {
        (ListPaneEmpty::HasRows, None)
    } else if total == 0 {
        (ListPaneEmpty::NoItems, Some(owned("  📭 No gists found")))
    } else {
        (ListPaneEmpty::NoFilterMatch, Some(owned("  🔍 No gists match the filter")))
    };
    let mut title = owned("Gists ");
    let c = count_label(rows.len(), total);
    push_str(&mut title, c.as_str());
    push_str(&mut title, "  ·  sort:");
    push_str(&mut title, group_sort_word(s.sort));
    push_str(&mut title, "  ·  type:");
    push_str(&mut title, s.type_filter.label());
    push_str(&mut title, "  ·  ★ ");
    push_dec(&mut title, starred as u64);
    push_str(&mut title, "  ·  ⑂ ");
    push_dec(&mut title, forks as u64);
    if q.unicode_len() > 0 {
        push_str(&mut title, "  ·  /");
        push_str(&mut title, q.as_str());
    }
    proof {
        assert(title@ =~= gists_title_spec(
            rows@.len(),
            total as nat,
            s.sort,
            s.type_filter,
            starred as nat,
            forks as nat,
            q@,
        ));
    }
    let (footer_title, footer, footer_colored) = if s.filtering {
        let mut f = owned("/");
        push_str(&mut f, q.as_str());
        push_str(&mut f, "_");
        (owned("Filter (↑↓ move · Enter apply · Esc clear)"), f, false)
    } else {
        let (f, colored) = footer_with_status(status, hints);
        (String::new(), f, colored)
    };
    let selected = if rows.len() > 0 {
        Some(s.cursor.index)
    } else {
        None
    };
    GistsVm {
        pane: ListPaneVm {
            title: PaneTitleVm::new(title),
            focused: true,
            selected,
            empty,
            empty_message,
            rows: out,
            hscroll: s.cursor.hscroll,
            scrollbar: false,
        },
        filtering: s.filtering,
        filter_query: q,
        footer_title,
        footer,
        footer_colored,
    }
}

/// The handler and the guard never drift apart: `Enter`, `o`, `y` and `H` act on the gist
/// under the cursor exactly when the guard says they would.
pub proof fn law_gist_keys_act_iff_guard(selected: Option<Seq<char>>, key: Key)
    requires
        key == Key::Enter || key == Key::Char('o') || key == Key::Char('y') || key == Key::Char('H'),
    ensures
        (gists_key_outcome(selected, key) != GistsOutcomeView::Nothing) == gists_guard_spec(
            selected is Some,
            key,
        ),
{
}

// ---------------------------------------------------------------------------------------------
// Which gists the manager lists
// ---------------------------------------------------------------------------------------------

/// A gist passes the manager's type filter: every gist for `All`; the public or the secret
/// ones; the ones the user starred; the forks.
pub open spec fn type_passes(g: GistGroup, starred: bool, filter: GistTypeFilter) -> bool {
    match filter {
        GistTypeFilter::All => true,
        GistTypeFilter::Public => g.public,
        GistTypeFilter::Secret => !g.public,
        GistTypeFilter::Starred => starred,
        GistTypeFilter::Forked => g.fork_of_id is Some,
    }
}

/// A gist is listed: it passes the type filter, and the text filter `query` (ignoring case)
/// occurs in its description or its id, or is empty.
pub open spec fn group_listed(g: GistGroup, starred: bool, filter: GistTypeFilter, query: Seq<char>) -> bool {
    &&& type_passes(g, starred, filter)
    &&& (query.len() == 0 || contains_ci_spec(g.description@, query) || contains_ci_spec(
        g.id@,
        query,
    ))
}

/// Whether gist `i` is starred: `starred[i]`, and no when the list is shorter.
pub open spec fn starred_at(starred: Seq<bool>, i: int) -> bool {
    0 <= i < starred.len() && starred[i]
}

/// The indices, in order, of the gists among the first `n` that are listed.
pub open spec fn listed_groups_spec(
    groups: Seq<GistGroup>,
    starred: Seq<bool>,
    filter: GistTypeFilter,
    query: Seq<char>,
    n: nat,
) -> Seq<usize>
    decreases n,
{
    if n == 0 {
        Seq::empty()
    } else {
        let before = listed_groups_spec(groups, starred, filter, query, (n - 1) as nat);
        if group_listed(groups[n - 1], starred_at(starred, n - 1), filter, query) {
            before.push((n - 1) as usize)
        } else {
            before
        }
    }
}

/// Whether gist `g` is listed (see [`group_listed`]).
pub fn group_is_listed(g: &GistGroup, starred: bool, filter: GistTypeFilter, query: &str) -> (r: bool)
    ensures
        r == group_listed(*g, starred, filter, query@),
{
    let type_ok = match filter {
        GistTypeFilter::All => true,
        GistTypeFilter::Public => g.public,
        GistTypeFilter::Secret => !g.public,
        GistTypeFilter::Starred => starred,
        GistTypeFilter::Forked => g.fork_of_id.is_some(),
    };
    type_ok && (query.unicode_len() == 0 || contains_ci(g.description.as_str(), query)
        || contains_ci(g.id.as_str(), query))
}

/// The gists the manager lists, by index: those among the first `n` that pass the filters,
/// each once, in increasing order.
pub proof fn lemma_listed_groups_increasing(
    groups: Seq<GistGroup>,
    starred: Seq<bool>,
    filter: GistTypeFilter,
    query: Seq<char>,
    n: nat,
)
    requires
        n <= usize::MAX,
    ensures
        ({
            let v = listed_groups_spec(groups, starred, filter, query, n);
            &&& forall|a: int| 0 <= a < v.len() ==> v[a] < n
            &&& forall|a: int, b: int| 0 <= a < b < v.len() ==> v[a] < v[b]
        }),
    decreases n,
{
    if n > 0 {
        lemma_listed_groups_increasing(groups, starred, filter, query, (n - 1) as nat);
        let before = listed_groups_spec(groups, starred, filter, query, (n - 1) as nat);
        let v = listed_groups_spec(groups, starred, filter, query, n);
        if v != before {
            assert(v == before.push((n - 1) as usize));
            assert(v[v.len() - 1] == n - 1);
            assert forall|a: int| 0 <= a < v.len() - 1 implies v[a] == before[a] && v[a] < n - 1 by {}
        }
    }
}

// ---------------------------------------------------------------------------------------------
// The order the manager lists gists in
// ---------------------------------------------------------------------------------------------

/// The timestamp gist `g` is ordered by: when it was last updated, or when it was created.
pub open spec fn group_sort_key(g: GistGroup, sort: GistGroupSort) -> Seq<char> {
    match sort {
        GistGroupSort::Updated => g.updated_at@,
        GistGroupSort::Created => g.created_at@,
    }
}

/// The timestamp of gist number `i` of `groups`.
pub open spec fn key_at(groups: Seq<GistGroup>, sort: GistGroupSort, i: usize) -> Seq<char> {
    group_sort_key(groups[i as int], sort)
}

/// `order` lists gists of `groups` by index, newest first: no gist comes before one with a
/// later timestamp (timestamps are ISO-8601 text, which orders as its characters do), and
/// gists with the same timestamp keep catalogue order.
pub open spec fn newest_first(groups: Seq<GistGroup>, sort: GistGroupSort, order: Seq<usize>) -> bool {
    &&& forall|a: int| 0 <= a < order.len() ==> order[a] < groups.len()
    &&& forall|a: int, b: int|
        0 <= a < b < order.len() ==> !seq_lt(
            key_at(groups, sort, order[a]),
            key_at(groups, sort, order[b]),
        )
    &&& forall|a: int, b: int|
        0 <= a < b < order.len() && key_at(groups, sort, order[a]) == key_at(
            groups,
            sort,
            order[b],
        ) ==> order[a] < order[b]
}

/// The timestamp gist `g` is ordered by under `sort`.
pub fn sort_key(g: &GistGroup, sort: GistGroupSort) -> (r: &String)
    ensures
        r@ == group_sort_key(*g, sort),
{
    match sort {
        GistGroupSort::Updated => &g.updated_at,
        GistGroupSort::Created => &g.created_at,
    }
}

/// Inserting gist `x` at `p` keeps an order newest first when the gists from `p` on are
/// older than `x`, the one before `p` is not, and `x` comes later in the catalogue than all.
proof fn lemma_insert_keeps_newest_first(
    groups: Seq<GistGroup>,
    sort: GistGroupSort,
    s: Seq<usize>,
    p: int,
    x: usize,
)
    requires
        newest_first(groups, sort, s),
        0 <= p <= s.len(),
        x < groups.len(),
        forall|q: int| p <= q < s.len() ==> seq_lt(key_at(groups, sort, #[trigger] s[q]), key_at(groups, sort, x)),
        p == 0 || !seq_lt(key_at(groups, sort, s[p - 1]), key_at(groups, sort, x)),
        forall|a: int| 0 <= a < s.len() ==> #[trigger] s[a] < x,
    ensures
        newest_first(groups, sort, s.insert(p, x)),
{
    let t = s.insert(p, x);
    let kx = key_at(groups, sort, x);
    assert forall|a: int, b: int| 0 <= a < b < t.len() implies !seq_lt(
        key_at(groups, sort, t[a]),
        key_at(groups, sort, t[b]),
    ) && (key_at(groups, sort, t[a]) == key_at(groups, sort, t[b]) ==> t[a] < t[b]) by {
        if b < p {
            assert(t[a] == s[a] && t[b] == s[b]);
        } else if b == p {
            assert(t[a] == s[a] && t[b] == x);
            if a < p - 1 {
                lemma_seq_not_lt_transitive(
                    key_at(groups, sort, s[a]),
                    key_at(groups, sort, s[p - 1]),
                    kx,
                );
            }
        } else if a < p {
            assert(t[a] == s[a] && t[b] == s[b - 1]);
        } else if a == p {
            assert(t[a] == x && t[b] == s[b - 1]);
            lemma_seq_lt_total(key_at(groups, sort, s[b - 1]), kx);
            lemma_seq_lt_irreflexive(kx);
        } else {
            assert(t[a] == s[a - 1] && t[b] == s[b - 1]);
        }
    }
}

/// The gists `idx` (indices into `groups`, increasing) ordered newest first by `sort`'s
/// timestamp, gists with the same timestamp in catalogue order.
pub fn order_newest_first(groups: &[GistGroup], idx: &[usize], sort: GistGroupSort) -> (v: Vec<usize>)
    requires
        forall|a: int| 0 <= a < idx@.len() ==> idx@[a] < groups@.len(),
        forall|a: int, b: int| 0 <= a < b < idx@.len() ==> idx@[a] < idx@[b],
    ensures
        v@.to_multiset() == idx@.to_multiset(),
        newest_first(groups@, sort, v@),
{
    let mut out: Vec<usize> = Vec::new();
    let mut j: usize = 0;
    assert(idx@.take(0).to_multiset() =~= out@.to_multiset()) by {
        assert(idx@.take(0) =~= out@);
    }
    while j < idx.len()
        invariant
            j <= idx@.len(),
            forall|a: int| 0 <= a < idx@.len() ==> idx@[a] < groups@.len(),
            forall|a: int, b: int| 0 <= a < b < idx@.len() ==> idx@[a] < idx@[b],
            out@.to_multiset() == idx@.take(j as int).to_multiset(),
            newest_first(groups@, sort, out@),
            forall|a: int| 0 <= a < out@.len() ==> j > 0 && #[trigger] out@[a] <= idx@[j - 1],
        decreases idx@.len() - j,
    {
        let x = idx[j];
        let kx = sort_key(&groups[x], sort);
        let mut p: usize = out.len();
        let mut found = false;
        while p > 0 && !found
            invariant
                p <= out@.len(),
                x < groups@.len(),
                kx@ == key_at(groups@, sort, x),
                newest_first(groups@, sort, out@),
                forall|q: int|
                    p <= q < out@.len() ==> seq_lt(
                        key_at(groups@, sort, #[trigger] out@[q]),
                        key_at(groups@, sort, x),
                    ),
                found ==> p > 0 && !seq_lt(key_at(groups@, sort, out@[p - 1]), key_at(groups@, sort, x)),
            decreases 2 * p + if found { 0int } else { 1int },
        {
            let kq = sort_key(&groups[out[p - 1]], sort);
            if str_lt(kq.as_str(), kx.as_str()) {
                p = p - 1;
            } else {
                found = true;
            }
        }
        proof {
            if j > 0 {
                assert forall|a: int| 0 <= a < out@.len() implies #[trigger] out@[a] < x by {
                    assert(idx@[j - 1] < idx@[j as int]);
                }
            }
            lemma_insert_keeps_newest_first(groups@, sort, out@, p as int, x);
            assert(idx@.take(j + 1) =~= idx@.take(j as int).push(x));
            vstd::seq_lib::to_multiset_build(idx@.take(j as int), x);
        }
        let ghost before = out@;
        out.insert(p, x);
        proof {
            vstd::seq_lib::to_multiset_insert(before, p as int, x);
        }
        j = j + 1;
    }
    assert(idx@.take(idx@.len() as int) =~= idx@);
    out
}

/// The first row, from row `k` on, of the listing `order` (indices into `groups`) that holds
/// the gist `id`; row 0 when none does.
pub open spec fn gist_row_from(groups: Seq<GistGroup>, order: Seq<usize>, id: Seq<char>, k: int) -> int
    decreases order.len() - k,
{
    if k < 0 || k >= order.len() {
        0
    } else if order[k] < groups.len() && groups[order[k] as int].id@ == id {
        k
    } else {
        gist_row_from(groups, order, id, k + 1)
    }
}

/// The row of the listing `order` that holds the gist `id` (the first, or row 0 when none
/// does): where the manager opens when a gist is selected on the List.
pub fn row_of_gist(groups: &[GistGroup], order: &[usize], id: &str) -> (r: usize)
    ensures
        r == gist_row_from(groups@, order@, id@, 0),
{
    let mut k: usize = 0;
    while k < order.len()
        invariant
            k <= order@.len(),
            gist_row_from(groups@, order@, id@, 0) == gist_row_from(groups@, order@, id@, k as int),
        decreases order.len() - k,
    {
        let i = order[k];
        if i < groups.len() && str_eq(groups[i].id.as_str(), id) {
            return k;
        }
        k = k + 1;
    }
    0
}

/// The gists the manager lists for the filters of `s`, by index, ordered newest first by
/// `s.sort` (see [`newest_first`]); `starred[i]` says whether gist `i` is starred.
pub fn listed_group_indices(groups: &[GistGroup], starred: &[bool], s: &GistsState) -> (v: Vec<usize>)
    ensures
        v@.to_multiset() == listed_groups_spec(
            groups@,
            starred@,
            s.type_filter,
            s.filter_query.text_view(),
            groups@.len(),
        ).to_multiset(),
        newest_first(groups@, s.sort, v@),
{
    let listed = filtered_group_indices(groups, starred, s);
    proof {
        assert(groups@.len() == groups.len());
        lemma_listed_groups_increasing(
            groups@,
            starred@,
            s.type_filter,
            s.filter_query.text_view(),
            groups@.len(),
        );
    }
    order_newest_first(groups, listed.as_slice(), s.sort)
}

/// The indices of the gists that pass the filters of `s`, in catalogue order.
fn filtered_group_indices(groups: &[GistGroup], starred: &[bool], s: &GistsState) -> (v: Vec<usize>)
    ensures
        v@ == listed_groups_spec(
            groups@,
            starred@,
            s.type_filter,
            s.filter_query.text_view(),
            groups@.len(),
        ),
{
    let query = s.filter_query.text();
    let mut v: Vec<usize> = Vec::new();
    let mut i: usize = 0;
    while i < groups.len()
        invariant
            i <= groups@.len(),
            query@ == s.filter_query.text_view(),
            v@ == listed_groups_spec(groups@, starred@, s.type_filter, query@, i as nat),
        decreases groups@.len() - i,
    {
        let is_starred = i < starred.len() && starred[i];
        if group_is_listed(&groups[i], is_starred, s.type_filter, query.as_str()) {
            v.push(i);
        }
        i = i + 1;
    }
    v
}

} // verus!
