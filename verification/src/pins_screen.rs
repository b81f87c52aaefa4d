//! The Pins screen: which pins its filter shows, its keys, and the rows and footer it paints.

use vstd::prelude::*;
use crate::chrome::{footer_with_status, TextInput};
use crate::diff_screen::{display_path, display_path_spec};
use crate::domain::{humanize_age, humanize_age_spec, PinnedMapping};
use crate::keys::{Key, NavAction};
use crate::labels::{count_label, count_text, short_gist_id, short_id_text};
use crate::list_keys::{
    handle_inline_filter_key, inline_filter_spec, move_cursor, moved_cursor, opt_chars,
};
use crate::state::ListCursor;
use crate::text::{contains_ci, contains_ci_spec, is_blank, occurs_at, occurs_in, owned, push_str, trim};
use crate::view_model::{ListPaneEmpty, ListPaneVm, PaneTitleVm, RowEmphasis, RowVm};

verus! {

/// How a pinned pair stands: in sync, one side newer, the local file missing, or unknown.
#[derive(Debug, Clone, Copy, PartialEq, Eq, Structural)]
pub enum SyncStatus {
    Synced,
    LocalNewer,
    RemoteNewer,
    Missing,
    Unknown,
}

/// The icon for a sync status.
pub open spec fn status_icon(s: SyncStatus) -> Seq<char> {
    match s {
        SyncStatus::Synced => "✓"@,
        SyncStatus::LocalNewer => "↑"@,
        SyncStatus::RemoteNewer => "↓"@,
        SyncStatus::Missing => "✕"@,
        SyncStatus::Unknown => "?"@,
    }
}

impl SyncStatus {
    /// The icon a Pins row leads with.
    pub fn icon(self) -> (s: &'static str)
        ensures
            s@ == status_icon(self),
    {
        match self {
            SyncStatus::Synced => "✓",
            SyncStatus::LocalNewer => "↑",
            SyncStatus::RemoteNewer => "↓",
            SyncStatus::Missing => "✕",
            SyncStatus::Unknown => "?",
        }
    }
}

/// What the Pins screen's footer title says the icons mean.
pub const PINS_STATUS_LEGEND: &'static str =
    "✓ synced · ↑ local newer · ↓ remote newer · ✕ missing · ? unknown";

/// The Pins screen's own state.
#[derive(Debug, Clone, PartialEq, Eq)]
pub struct PinsState {
    pub cursor: ListCursor,
    pub filter_query: TextInput,
    /// Typing edits the filter.
    pub filtering: bool,
}

impl PinsState {
    /// The Pins screen as it opens: the first row, no filter.
    pub open spec fn is_fresh(self) -> bool {
        &&& self.cursor == (ListCursor { index: 0, hscroll: 0 })
        &&& self.filter_query.well_formed()
        &&& self.filter_query.text_view().len() == 0
        &&& !self.filtering
    }

    /// The Pins screen as it opens (see [`PinsState::is_fresh`]).
    pub fn new() -> (s: PinsState)
        ensures
            s.is_fresh(),
    {
        let empty = "";
        proof {
            reveal_strlit("");
        }
        assert(empty@.len() == 0);
        PinsState { cursor: ListCursor::new(), filter_query: TextInput::from(empty), filtering: false }
    }
}

/// The words the legend gives a status.
pub open spec fn status_words(s: SyncStatus) -> Seq<char> {
    match s {
        SyncStatus::Synced => "synced"@,
        SyncStatus::LocalNewer => "local newer"@,
        SyncStatus::RemoteNewer => "remote newer"@,
        SyncStatus::Missing => "missing"@,
        SyncStatus::Unknown => "unknown"@,
    }
}

/// Each status's icon is the glyph the legend names it by: the icon, a space and the
/// status's words occur in [`PINS_STATUS_LEGEND`]; and no two statuses share an icon.
pub proof fn law_icons_match_the_legend(s: SyncStatus, t: SyncStatus)
    ensures
        occurs_in(PINS_STATUS_LEGEND@, status_icon(s) + " "@ + status_words(s)),
        s != t ==> status_icon(s) != status_icon(t),
{
    reveal_strlit("✓ synced · ↑ local newer · ↓ remote newer · ✕ missing · ? unknown");
    reveal_strlit("✓");
    reveal_strlit("↑");
    reveal_strlit("↓");
    reveal_strlit("✕");
    reveal_strlit("?");
    reveal_strlit(" ");
    reveal_strlit("synced");
    reveal_strlit("local newer");
    reveal_strlit("remote newer");
    reveal_strlit("missing");
    reveal_strlit("unknown");
    let legend = PINS_STATUS_LEGEND@;
    let needle = status_icon(s) + " "@ + status_words(s);
    let at: int = match s {
        SyncStatus::Synced => 0,
        SyncStatus::LocalNewer => 11,
        SyncStatus::RemoteNewer => 27,
        SyncStatus::Missing => 44,
        SyncStatus::Unknown => 56,
    };
    assert(legend.subrange(at, at + needle.len()) =~= needle);
    assert(occurs_at(legend, needle, at));
    if s != t {
        assert(status_icon(s)[0] != status_icon(t)[0]);
    }
}

// ---------------------------------------------------------------------------------------------
// The filter
// ---------------------------------------------------------------------------------------------

/// A pin passes the filter `query` when the query, ignoring case, occurs in its local path
/// or its gist file name; every pin passes an empty query.
pub open spec fn pin_matches(p: PinnedMapping, query: Seq<char>) -> bool {
    query.len() == 0 || contains_ci_spec(p.local_path@, query) || contains_ci_spec(
        p.gist_filename@,
        query,
    )
}

/// The indices, in order, of the pins among the first `n` that pass the filter.
pub open spec fn visible_spec(pins: Seq<PinnedMapping>, query: Seq<char>, n: nat) -> Seq<usize>
    decreases n,
{
    if n == 0 {
        Seq::empty()
    } else {
        let before = visible_spec(pins, query, (n - 1) as nat);
        if pin_matches(pins[n - 1], query) {
            before.push((n - 1) as usize)
        } else {
            before
        }
    }
}

/// Whether pin `p` passes the filter `query` (see [`pin_matches`]).
pub fn pin_matches_query(p: &PinnedMapping, query: &str) -> (r: bool)
    ensures
        r == pin_matches(*p, query@),
{
    query.unicode_len() == 0 || contains_ci(p.local_path.as_str(), query) || contains_ci(
        p.gist_filename.as_str(),
        query,
    )
}

/// The indices of the pins the filter `query` shows, in pin order.
pub fn visible_pin_indices(pins: &[PinnedMapping], query: &str) -> (v: Vec<usize>)
    ensures
        v@ == visible_spec(pins@, query@, pins@.len()),
{
    let mut v: Vec<usize> = Vec::new();
    let mut i: usize = 0;
    while i < pins.len()
        invariant
            i <= pins@.len(),
            v@ == visible_spec(pins@, query@, i as nat),
        decreases pins@.len() - i,
    {
        if pin_matches_query(&pins[i], query) {
            v.push(i);
        }
        i = i + 1;
    }
    v
}

/// The pin under the cursor: the cursor's row of the filtered list, as an index into all
/// pins.
pub open spec fn selected_pin_spec(pins: Seq<PinnedMapping>, s: PinsState) -> Option<usize> {
    let visible = visible_spec(pins, s.filter_query.text_view(), pins.len());
    if s.cursor.index < visible.len() {
        Some(visible[s.cursor.index as int])
    } else {
        None
    }
}

/// The pin under the cursor (see [`selected_pin_spec`]).
pub fn selected_pin_index(pins: &[PinnedMapping], s: &PinsState) -> (r: Option<usize>)
    ensures
        r == selected_pin_spec(pins@, *s),
{
    let q = s.filter_query.text();
    let visible = visible_pin_indices(pins, q.as_str());
    if s.cursor.index < visible.len() {
        Some(visible[s.cursor.index])
    } else {
        None
    }
}

// ---------------------------------------------------------------------------------------------
// The keys
// ---------------------------------------------------------------------------------------------

/// What a key on the Pins screen asks the rest of the program to do; `index` is the pin's
/// index among all pins.
#[derive(Debug, Clone, Copy, PartialEq, Eq, Structural)]
pub enum PinsKeyOutcome {
    Nothing,
    /// Back to the List screen.
    Leave,
    PreviewPinDiff { index: usize },
    UnpinAtPin { index: usize },
    /// Sync the pair in whichever direction is newer.
    SyncPinAuto { index: usize },
    /// Push the local file to the gist.
    SyncPinPush { index: usize },
    /// Pull the gist file to the local path.
    SyncPinPull { index: usize },
    /// Advance the Pins order (the cursor goes back to the first row).
    CycleSort,
    OpenHelp,
}

/// Whether `key` would act on the Pins screen for the selected pin (whose pair can be
/// diffed as text when `previewable`). The key handler gates its actions on it and the
/// command palette lists only what passes it.
pub open spec fn pins_guard_spec(selected: Option<usize>, previewable: bool, key: Key) -> bool {
    if key == Key::Enter {
        selected is Some && previewable
    } else if key == Key::Char('x') || key == Key::Char('s') || key == Key::Char('u') || key
        == Key::Char('d') {
        selected is Some
    } else {
        false
    }
}

/// Whether `key` would act on the Pins screen (see [`pins_guard_spec`]).
pub fn pins_guard(selected: Option<usize>, previewable: bool, key: Key) -> (r: bool)
    ensures
        r == pins_guard_spec(selected, previewable, key),
{
    if key == Key::Enter {
        selected.is_some() && previewable
    } else if key == Key::Char('x') || key == Key::Char('s') || key == Key::Char('u') || key
        == Key::Char('d') {
        selected.is_some()
    } else {
        false
    }
}

/// What a key asks for on the Pins screen when the filter is not being typed, for the
/// selected pin (its index among all pins).
pub open spec fn pins_key_outcome(selected: Option<usize>, previewable: bool, key: Key) -> PinsKeyOutcome {
    if key == Key::Char('q') || key == Key::Esc {
        PinsKeyOutcome::Leave
    } else if pins_guard_spec(selected, previewable, key) {
        let index = selected->0;
        if key == Key::Enter {
            PinsKeyOutcome::PreviewPinDiff { index }
        } else if key == Key::Char('x') {
            PinsKeyOutcome::UnpinAtPin { index }
        } else if key == Key::Char('s') {
            PinsKeyOutcome::SyncPinAuto { index }
        } else if key == Key::Char('u') {
            PinsKeyOutcome::SyncPinPush { index }
        } else {
            PinsKeyOutcome::SyncPinPull { index }
        }
    } else if key == Key::Char('o') {
        PinsKeyOutcome::CycleSort
    } else if key == Key::Char('?') {
        PinsKeyOutcome::OpenHelp
    } else {
        PinsKeyOutcome::Nothing
    }
}

/// The handler and the guard never drift apart: `Enter`, `x`, `s`, `u` and `d` act on the
/// selected pin exactly when the guard says they would, and then on that pin.
pub proof fn law_pin_keys_act_iff_guard(selected: Option<usize>, previewable: bool, key: Key)
    requires
        key == Key::Enter || key == Key::Char('x') || key == Key::Char('s') || key == Key::Char('u')
            || key == Key::Char('d'),
    ensures
        (pins_key_outcome(selected, previewable, key) != PinsKeyOutcome::Nothing)
            == pins_guard_spec(selected, previewable, key),
        pins_guard_spec(selected, previewable, key) ==> match pins_key_outcome(selected, previewable, key) {
            PinsKeyOutcome::PreviewPinDiff { index } => Some(index) == selected,
            PinsKeyOutcome::UnpinAtPin { index } => Some(index) == selected,
            PinsKeyOutcome::SyncPinAuto { index } => Some(index) == selected,
            PinsKeyOutcome::SyncPinPush { index } => Some(index) == selected,
            PinsKeyOutcome::SyncPinPull { index } => Some(index) == selected,
            _ => false,
        },
{
}

/// Apply `key` to the Pins screen. While the filter is typed the key goes to it (see
/// [`inline_filter_spec`]); otherwise `q`/`Esc` leave, `/` starts the filter, `Enter`, `x`,
/// `s`, `u` and `d` act on the selected pin when the guard allows, `o` cycles the order and
/// `?` opens help. The status line is cleared first.
pub fn handle_key_pins(
    s: &mut PinsState,
    status: &mut Option<String>,
    pins: &[PinnedMapping],
    previewable: bool,
    key: Key,
) -> (out: PinsKeyOutcome)
    requires
        old(s).filter_query.well_formed(),
        old(s).filter_query.text_view().len() < usize::MAX,
    ensures
        final(s).filter_query.well_formed(),
        final(status).is_none(),
        ({
            let selected = selected_pin_spec(pins@, *old(s));
            let rows = visible_spec(pins@, old(s).filter_query.text_view(), pins@.len()).len();
            if old(s).filtering {
                let e = inline_filter_spec(
                    old(s).cursor,
                    (old(s).filter_query.text_view(), old(s).filter_query.cursor_view()),
                    key,
                    rows,
                );
                &&& out == PinsKeyOutcome::Nothing
                &&& final(s).cursor == e.0
                &&& (final(s).filter_query.text_view(), final(s).filter_query.cursor_view()) == e.1
                &&& final(s).filtering == e.2
            } else {
                &&& final(s).filter_query == old(s).filter_query
                &&& final(s).filtering == (key == Key::Char('/'))
                &&& final(s).cursor == (if key == Key::Char('o') {
                    ListCursor { index: 0, hscroll: 0 }
                } else {
                    old(s).cursor
                })
                &&& out == pins_key_outcome(selected, previewable, key)
            }
        }),
{
    *status = None;
    let selected = selected_pin_index(pins, s);
    if s.filtering {
        let q = s.filter_query.text();
        let rows = visible_pin_indices(pins, q.as_str()).len();
        let mut cursor = s.cursor;
        let mut filtering = s.filtering;
        handle_inline_filter_key(&mut cursor, &mut s.filter_query, &mut filtering, rows, key);
        s.cursor = cursor;
        s.filtering = filtering;
        return PinsKeyOutcome::Nothing;
    }
    let guard = pins_guard(selected, previewable, key);
    if key == Key::Char('q') || key == Key::Esc {
        PinsKeyOutcome::Leave
    } else if key == Key::Char('/') {
        s.filtering = true;
        PinsKeyOutcome::Nothing
    } else if guard {
        let index = match selected {
            Some(i) => i,
            None => 0,
        };
        if key == Key::Enter {
            PinsKeyOutcome::PreviewPinDiff { index }
        } else if key == Key::Char('x') {
            PinsKeyOutcome::UnpinAtPin { index }
        } else if key == Key::Char('s') {
            PinsKeyOutcome::SyncPinAuto { index }
        } else if key == Key::Char('u') {
            PinsKeyOutcome::SyncPinPush { index }
        } else {
            PinsKeyOutcome::SyncPinPull { index }
        }
    } else if key == Key::Char('o') {
        s.cursor = ListCursor::new();
        PinsKeyOutcome::CycleSort
    } else if key == Key::Char('?') {
        PinsKeyOutcome::OpenHelp
    } else {
        PinsKeyOutcome::Nothing
    }
}

/// Arrow, `hjkl` and page-key navigation on the Pins screen, over its `rows` visible rows,
/// the selected row scrolling at most `hmax` cells sideways.
pub fn apply_navigation_pins(s: &mut PinsState, action: NavAction, rows: usize, hmax: u16) -> (handled: bool)
    ensures
        handled,
        final(s).cursor == moved_cursor(old(s).cursor, rows as int, action, hmax as int),
        final(s).filter_query == old(s).filter_query,
        final(s).filtering == old(s).filtering,
{
    s.cursor = move_cursor(s.cursor, rows, action, hmax);
    true
}

/// A click on the pin list: on row `index` it selects that row; elsewhere it does nothing.
/// Returns whether a row was hit.
pub fn click_select_pins(s: &mut PinsState, index: Option<usize>) -> (hit: bool)
    ensures
        hit == index is Some,
        final(s).cursor == (match index {
            Some(i) => ListCursor { index: i, hscroll: 0 },
            None => old(s).cursor,
        }),
        final(s).filter_query == old(s).filter_query,
        final(s).filtering == old(s).filtering,
{
    match index {
        Some(i) => {
            s.cursor.select(i);
            true
        },
        None => false,
    }
}

// ---------------------------------------------------------------------------------------------
// Rows and the view
// ---------------------------------------------------------------------------------------------

/// How a pin row names the gist side: the gist's description then the file name, or the
/// file name alone when the gist has no description.
pub open spec fn pin_identity(description: Option<Seq<char>>, filename: Seq<char>) -> Seq<char> {
    match description {
        Some(d) => if trim(d).len() > 0 {
            d + " / "@ + filename
        } else {
            filename
        },
        None => filename,
    }
}

/// One Pins row: the status icon, the local path (home shown as `~`), the gist side, then
/// both sides' ages and the abbreviated gist id.
pub open spec fn pin_row_spec(
    icon: Seq<char>,
    local_path: Seq<char>,
    home: Option<Seq<char>>,
    gist_id: Seq<char>,
    description: Option<Seq<char>>,
    filename: Seq<char>,
    local_age: Seq<char>,
    gist_age: Seq<char>,
) -> Seq<char> {
    icon + "  "@ + display_path_spec(local_path, home) + "  ↔  "@ + pin_identity(description, filename)
        + "   (local "@ + local_age + " · gist "@ + gist_age + " · #"@ + short_id_text(gist_id)
        + ")"@
}

/// The home directory's characters, when known.
pub open spec fn home_view(home: Option<&str>) -> Option<Seq<char>> {
    match home {
        Some(h) => Some(h@),
        None => None,
    }
}

/// Build one Pins row (see [`pin_row_spec`]).
pub fn pin_row_label(
    icon: &str,
    local_path: &str,
    home: Option<&str>,
    gist_id: &str,
    description: Option<&str>,
    filename: &str,
    local_age: &str,
    gist_age: &str,
) -> (s: String)
    ensures
        s@ == pin_row_spec(
            icon@,
            local_path@,
            home_view(home),
            gist_id@,
            match description {
                Some(d) => Some(d@),
                None => None,
            },
            filename@,
            local_age@,
            gist_age@,
        ),
{
    let mut s = owned(icon);
    push_str(&mut s, "  ");
    let shown = display_path(local_path, home);
    push_str(&mut s, shown.as_str());
    push_str(&mut s, "  ↔  ");
    match description {
        Some(d) => {
            if !is_blank(d) {
                push_str(&mut s, d);
                push_str(&mut s, " / ");
            }
        },
        None => {},
    }
    push_str(&mut s, filename);
    push_str(&mut s, "   (local ");
    push_str(&mut s, local_age);
    push_str(&mut s, " · gist ");
    push_str(&mut s, gist_age);
    push_str(&mut s, " · #");
    let short = short_gist_id(gist_id);
    push_str(&mut s, short.as_str());
    push_str(&mut s, ")");
    s
}

/// A pin as its row shows it: the mapping, how it stands, when each side last changed (Unix
/// seconds, when known), and its gist's description (when the gist is known).
pub struct PinRow {
    pub mapping: PinnedMapping,
    pub status: SyncStatus,
    pub local_ts: Option<u64>,
    pub remote_ts: Option<u64>,
    pub gist_description: Option<String>,
}

/// How long ago `ts` was at `now`, or `?` when unknown.
pub open spec fn age_of(ts: Option<u64>, now: int) -> Seq<char> {
    match ts {
        Some(t) => humanize_age_spec(now - t),
        None => "?"@,
    }
}

/// How long ago `ts` was at `now` (see [`age_of`]).
fn age_label(ts: Option<u64>, now: u64) -> (s: String)
    requires
        now <= i64::MAX,
    ensures
        s@ == age_of(ts, now as int),
{
    match ts {
        Some(t) => if t > now {
            humanize_age(0)
        } else {
            humanize_age((now - t) as i64)
        },
        None => owned("?"),
    }
}

/// The text of a pin's row at `now`, the home directory being `home`.
pub open spec fn pin_row_text(r: PinRow, now: int, home: Option<Seq<char>>) -> Seq<char> {
    pin_row_spec(
        status_icon(r.status),
        r.mapping.local_path@,
        home,
        r.mapping.gist_id@,
        opt_chars(r.gist_description),
        r.mapping.gist_filename@,
        if r.status == SyncStatus::Missing {
            "missing"@
        } else {
            age_of(r.local_ts, now)
        },
        age_of(r.remote_ts, now),
    )
}

/// What the Pins screen paints.
pub struct PinsVm {
    pub pane: ListPaneVm,
    pub filtering: bool,
    pub filter_query: String,
    pub footer_title: String,
    pub footer: String,
    /// The footer holds key hints to colour, rather than a plain message.
    pub footer_colored: bool,
}

/// The rows of the visible pins, read as (label, emphasis).
pub open spec fn pin_rows_spec(
    rows: Seq<PinRow>,
    visible: Seq<usize>,
    now: int,
    home: Option<Seq<char>>,
) -> Seq<(Seq<char>, RowEmphasis)> {
    visible.map_values(
        |i: usize|
            (
                pin_row_text(rows[i as int], now, home),
                if rows[i as int].status == SyncStatus::Missing {
                    RowEmphasis::Danger
                } else {
                    RowEmphasis::Plain
                },
            ),
    )
}

/// The pins of `rows`, as mappings.
pub open spec fn mappings(rows: Seq<PinRow>) -> Seq<PinnedMapping> {
    rows.map_values(|r: PinRow| r.mapping)
}

/// The Pins pane's title.
pub open spec fn pins_title_spec(shown: nat, total: nat, query: Seq<char>, sort: Option<Seq<char>>) -> Seq<char> {
    "Pinned Mappings "@ + count_text(shown, total) + (if query.len() > 0 {
        " · /"@ + query
    } else {
        Seq::empty()
    }) + match sort {
        Some(l) => " · sort:"@ + l,
        None => Seq::empty(),
    }
}

/// The Pins view as built (see [`build_pins_vm`]).
pub open spec fn pins_vm_ok(
    vm: PinsVm,
    s: PinsState,
    rows: Seq<PinRow>,
    now: int,
    home: Option<Seq<char>>,
    sort_label: Option<Seq<char>>,
    status: Option<Seq<char>>,
    hints: Seq<char>,
) -> bool {
    let q = s.filter_query.text_view();
    let visible = visible_spec(mappings(rows), q, rows.len());
    let empty = if rows.len() == 0 {
        ListPaneEmpty::NoItems
    } else if visible.len() == 0 {
        ListPaneEmpty::NoFilterMatch
    } else {
        ListPaneEmpty::HasRows
    };
    &&& vm.pane.empty == empty
    &&& opt_chars(vm.pane.empty_message) == match empty {
        ListPaneEmpty::NoItems => Some("  📌 No pinned mappings found (use p to pin a pair)"@),
        ListPaneEmpty::NoFilterMatch => Some("  🔍 No pins match the filter"@),
        _ => None,
    }
    &&& crate::list_view::rows_view(vm.pane.rows@) == (if empty == ListPaneEmpty::HasRows {
        pin_rows_spec(rows, visible, now, home)
    } else {
        Seq::empty()
    })
    &&& vm.pane.title.segments@.len() == 1
    &&& vm.pane.title.segments@[0]@ == pins_title_spec(visible.len(), rows.len(), q, sort_label)
    &&& vm.pane.title.short_head is None
    &&& vm.pane.title.context is None
    &&& vm.pane.focused
    &&& vm.pane.selected == (if visible.len() > 0 {
        Some(s.cursor.index)
    } else {
        None
    })
    &&& vm.pane.hscroll == s.cursor.hscroll
    &&& !vm.pane.scrollbar
    &&& vm.filtering == s.filtering
    &&& vm.filter_query@ == q
    &&& if s.filtering {
        &&& vm.footer_title@ == "Filter (↑↓ move · Enter apply · Esc clear)"@
        &&& vm.footer@ == "/"@ + q + "_"@
        &&& !vm.footer_colored
    } else {
        &&& vm.footer_title@ == PINS_STATUS_LEGEND@
        &&& match status {
            Some(m) => vm.footer@ == m && !vm.footer_colored,
            None => vm.footer@ == hints && vm.footer_colored,
        }
    }
}

/// Build what the Pins screen paints from its state and its pins, at `now` (Unix seconds),
/// the home directory being `home`. `sort_label` names a non-default order; `status` is the
/// one-shot status line and `hints` the footer's key hints.
pub fn build_pins_vm(
    s: &PinsState,
    rows: &[PinRow],
    now: u64,
    home: Option<&str>,
    sort_label: Option<&str>,
    status: Option<&str>,
    hints: &str,
) -> (vm: PinsVm)
    requires
        now <= i64::MAX,
    ensures
        pins_vm_ok(
            vm,
            *s,
            rows@,
            now as int,
            home_view(home),
            home_view(sort_label),
            home_view(status),
            hints@,
        ),
{
    let q = s.filter_query.text();
    let mut maps: Vec<PinnedMapping> = Vec::new();
    let mut k: usize = 0;
    while k < rows.len()
        invariant
            k <= rows@.len(),
            maps@ == mappings(rows@).take(k as int),
        decreases rows@.len() - k,
    {
        maps.push(copy_mapping(&rows[k].mapping));
        assert(mappings(rows@).take(k + 1) =~= mappings(rows@).take(k as int).push(
            rows@[k as int].mapping,
        ));
        k = k + 1;
    }
    assert(mappings(rows@).take(rows@.len() as int) =~= mappings(rows@));
    let visible = visible_pin_indices(maps.as_slice(), q.as_str());
    proof {
        lemma_visible_below(mappings(rows@), q@, rows@.len());
    }
    let (empty, empty_message, pane_rows) = if rows.len() == 0 {
        (
            ListPaneEmpty::NoItems,
            Some(owned("  📌 No pinned mappings found (use p to pin a pair)")),
            Vec::new(),
        )
    } else if visible.len() == 0 {
        (ListPaneEmpty::NoFilterMatch, Some(owned("  🔍 No pins match the filter")), Vec::new())
    } else {
        let mut out: Vec<RowVm> = Vec::new();
        let mut j: usize = 0;
        while j < visible.len()
            invariant
                j <= visible@.len(),
                now <= i64::MAX,
                visible@ == visible_spec(mappings(rows@), q@, rows@.len()),
                forall|m: int| 0 <= m < visible@.len() ==> visible@[m] < rows@.len(),
                crate::list_view::rows_view(out@) == pin_rows_spec(
                    rows@,
                    visible@.take(j as int),
                    now as int,
                    home_view(home),
                ),
            decreases visible@.len() - j,
        {
            let r = &rows[visible[j]];
            let local_age = if r.status == SyncStatus::Missing {
                owned("missing")
            } else {
                age_label(r.local_ts, now)
            };
            let gist_age = age_label(r.remote_ts, now);
            let label = pin_row_label(
                r.status.icon(),
                r.mapping.local_path.as_str(),
                home,
                r.mapping.gist_id.as_str(),
                match &r.gist_description {
                    Some(d) => Some(d.as_str()),
                    None => None,
                },
                r.mapping.gist_filename.as_str(),
                local_age.as_str(),
                gist_age.as_str(),
            );
            let emphasis = if r.status == SyncStatus::Missing {
                RowEmphasis::Danger
            } else {
                RowEmphasis::Plain
            };
            let ghost prev = out@;
            let ghost item = (label@, emphasis);
            out.push(RowVm { label, emphasis });
            assert(visible@.take(j + 1) =~= visible@.take(j as int).push(visible@[j as int]));
            assert(crate::list_view::rows_view(out@) =~= crate::list_view::rows_view(prev).push(item));
            assert(pin_rows_spec(rows@, visible@.take(j + 1), now as int, home_view(home)) =~= pin_rows_spec(
                rows@,
                visible@.take(j as int),
                now as int,
                home_view(home),
            ).push(item));
            j = j + 1;
        }
        assert(visible@.take(visible@.len() as int) =~= visible@);
        (ListPaneEmpty::HasRows, None, out)
    };
    proof {
        assert(crate::list_view::rows_view(Seq::<RowVm>::empty()) =~= Seq::empty());
    }
    let mut title = owned("Pinned Mappings ");
    let c = count_label(visible.len(), rows.len());
    push_str(&mut title, c.as_str());
    if q.unicode_len() > 0 {
        push_str(&mut title, " · /");
        push_str(&mut title, q.as_str());
    }
    match sort_label {
        Some(l) => {
            push_str(&mut title, " · sort:");
            push_str(&mut title, l);
        },
        None => {},
    }
    proof {
        assert(title@ =~= pins_title_spec(visible@.len(), rows@.len(), q@, home_view(sort_label)));
    }
    let (footer_title, footer, footer_colored) = if s.filtering {
        let mut f = owned("/");
        push_str(&mut f, q.as_str());
        push_str(&mut f, "_");
        (owned("Filter (↑↓ move · Enter apply · Esc clear)"), f, false)
    } else {
        let (f, colored) = footer_with_status(status, hints);
        (owned(PINS_STATUS_LEGEND), f, colored)
    };
    let selected = if visible.len() > 0 {
        Some(s.cursor.index)
    } else {
        None
    };
    PinsVm {
        pane: ListPaneVm {
            title: PaneTitleVm::new(title),
            focused: true,
            selected,
            empty,
            empty_message,
            rows: pane_rows,
            hscroll: s.cursor.hscroll,
            scrollbar: false,
        },
        filtering: s.filtering,
        filter_query: q,
        footer_title,
        footer,
        footer_colored,
    }
}

/// Every index the filter shows is the index of a pin that passes it, and the indices
/// come in increasing order.
proof fn lemma_visible_below(pins: Seq<PinnedMapping>, query: Seq<char>, n: nat)
    requires
        n <= pins.len(),
        pins.len() <= usize::MAX,
    ensures
        forall|m: int|
            0 <= m < visible_spec(pins, query, n).len() ==> visible_spec(pins, query, n)[m] < n
                && pin_matches(pins[visible_spec(pins, query, n)[m] as int], query),
        forall|a: int, b: int|
            0 <= a < b < visible_spec(pins, query, n).len() ==> visible_spec(pins, query, n)[a]
                < visible_spec(pins, query, n)[b],
    decreases n,
{
    if n > 0 {
        lemma_visible_below(pins, query, (n - 1) as nat);
        let before = visible_spec(pins, query, (n - 1) as nat);
        let v = visible_spec(pins, query, n);
        if pin_matches(pins[n - 1], query) {
            assert(v == before.push((n - 1) as usize));
            assert forall|m: int| 0 <= m < v.len() implies v[m] < n && pin_matches(
                pins[v[m] as int],
                query,
            ) by {
                if m < before.len() {
                    assert(v[m] == before[m]);
                } else {
                    assert(v[m] == n - 1);
                }
            }
            assert forall|a: int, b: int| 0 <= a < b < v.len() implies v[a] < v[b] by {
                assert(v[a] == before[a]);
                if b < before.len() {
                    assert(v[b] == before[b]);
                } else {
                    assert(v[b] == n - 1);
                }
            }
        } else {
            assert(v == before);
        }
    }
}

/// The pin under the cursor always passes the filter: the cursor picks among the pins the
/// filter shows, never one it hides.
pub proof fn law_selected_pin_passes_filter(pins: Seq<PinnedMapping>, s: PinsState)
    requires
        pins.len() <= usize::MAX,
    ensures
        selected_pin_spec(pins, s) matches Some(i) ==> i < pins.len() && pin_matches(
            pins[i as int],
            s.filter_query.text_view(),
        ),
{
    lemma_visible_below(pins, s.filter_query.text_view(), pins.len());
}

/// A copy of a pin.
fn copy_mapping(p: &PinnedMapping) -> (r: PinnedMapping)
    ensures
        r == *p,
{
    PinnedMapping {
        local_path: p.local_path.clone(),
        gist_id: p.gist_id.clone(),
        gist_filename: p.gist_filename.clone(),
    }
}

} // verus!
