//! The List screen's keys: which keys would do something for the rows under the cursors
//! (the guard the key handler and the command palette share), and what each key does.

use vstd::prelude::*;
use crate::chrome::TextInput;
use crate::domain::GistView;
use crate::chrome::Rect;
use crate::keys::{apply_edit, edit_spec, nav_action_of, nav_action_spec, Key, NavAction};
use crate::list_split::{
    clamp_split_percent, clamp_split_spec, on_divider, on_divider_spec, percent_for_col,
    percent_for_col_spec, SplitHit, DEFAULT_SPLIT_PERCENT,
};
use crate::state::ListCursor;
use crate::text::{chars_of, dec, owned, push_char, push_dec, push_str, string_of_range};

verus! {

/// One of the List screen's two panes.
#[derive(Debug, Clone, Copy, PartialEq, Eq, Structural)]
pub enum FocusPane {
    Local,
    Gist,
}

/// The other pane.
pub open spec fn other_pane(p: FocusPane) -> FocusPane {
    match p {
        FocusPane::Local => FocusPane::Gist,
        FocusPane::Gist => FocusPane::Local,
    }
}

/// Which gists the gist pane lists.
#[derive(Debug, Clone, Copy, PartialEq, Eq, Structural)]
pub enum GistTypeFilter {
    All,
    Public,
    Secret,
    Starred,
    Forked,
}

impl GistTypeFilter {
    /// The next filter in the cycle All → Public → Secret → Starred → Forked → All.
    pub fn next(self) -> (r: GistTypeFilter)
        ensures
            r == next_type_filter(self),
    {
        match self {
            GistTypeFilter::All => GistTypeFilter::Public,
            GistTypeFilter::Public => GistTypeFilter::Secret,
            GistTypeFilter::Secret => GistTypeFilter::Starred,
            GistTypeFilter::Starred => GistTypeFilter::Forked,
            GistTypeFilter::Forked => GistTypeFilter::All,
        }
    }

    /// The word the gist pane's title shows for the filter.
    pub fn label(self) -> (s: &'static str)
        ensures
            s@ == gist_type_label(self),
    {
        match self {
            GistTypeFilter::All => "all",
            GistTypeFilter::Public => "public",
            GistTypeFilter::Secret => "secret",
            GistTypeFilter::Starred => "starred",
            GistTypeFilter::Forked => "forked",
        }
    }
}

/// The filter after `f` in the cycle.
pub open spec fn next_type_filter(f: GistTypeFilter) -> GistTypeFilter {
    match f {
        GistTypeFilter::All => GistTypeFilter::Public,
        GistTypeFilter::Public => GistTypeFilter::Secret,
        GistTypeFilter::Secret => GistTypeFilter::Starred,
        GistTypeFilter::Starred => GistTypeFilter::Forked,
        GistTypeFilter::Forked => GistTypeFilter::All,
    }
}

/// The word for a gist type filter.
pub open spec fn gist_type_label(f: GistTypeFilter) -> Seq<char> {
    match f {
        GistTypeFilter::All => "all"@,
        GistTypeFilter::Public => "public"@,
        GistTypeFilter::Secret => "secret"@,
        GistTypeFilter::Starred => "starred"@,
        GistTypeFilter::Forked => "forked"@,
    }
}

/// How a List pane orders its rows: by match rank, by name, or most recent first.
#[derive(Debug, Clone, Copy, PartialEq, Eq, Structural)]
pub enum PaneSort {
    Match,
    Name,
    Recent,
}

impl PaneSort {
    /// The next order in the cycle Match → Name → Recent → Match.
    pub fn next(self) -> (r: PaneSort)
        ensures
            r == next_sort(self),
    {
        match self {
            PaneSort::Match => PaneSort::Name,
            PaneSort::Name => PaneSort::Recent,
            PaneSort::Recent => PaneSort::Match,
        }
    }

    /// The word the pane title shows for the order.
    pub fn label(self) -> (s: &'static str)
        ensures
            s@ == sort_label(self),
    {
        match self {
            PaneSort::Match => "match",
            PaneSort::Name => "name",
            PaneSort::Recent => "recent",
        }
    }
}

/// The order after `s` in the cycle.
pub open spec fn next_sort(s: PaneSort) -> PaneSort {
    match s {
        PaneSort::Match => PaneSort::Name,
        PaneSort::Name => PaneSort::Recent,
        PaneSort::Recent => PaneSort::Match,
    }
}

/// The word for a sort order.
pub open spec fn sort_label(s: PaneSort) -> Seq<char> {
    match s {
        PaneSort::Match => "match"@,
        PaneSort::Name => "name"@,
        PaneSort::Recent => "recent"@,
    }
}

/// The List screen's own state.
pub struct ListScreen {
    pub focus: FocusPane,
    /// The pane whose selection drives the ranking of the other.
    pub anchor: FocusPane,
    pub gist_view: GistView,
    pub gist_type_filter: GistTypeFilter,
    pub gist_sort: PaneSort,
    pub local_sort: PaneSort,
    /// The local scan descends into subdirectories.
    pub local_recursive: bool,
    /// Typing edits the focused pane's filter.
    pub filtering: bool,
    /// A first `q`/`Esc` was pressed; a second one quits.
    pub quit_armed: bool,
    pub local_cursor: ListCursor,
    pub gist_cursor: ListCursor,
    pub local_filter_query: TextInput,
    pub filter_query: TextInput,
    pub status: Option<String>,
    /// Share of the width the local pane gets.
    pub split_percent: u16,
    /// The divider between the panes is being dragged.
    pub split_dragging: bool,
}

impl ListScreen {
    /// The List screen at start-up: the local pane focused and driving the ranking, gists
    /// named by description, every gist listed, both panes in match order, nothing typed.
    pub fn new() -> (s: ListScreen)
        ensures
            s.focus == FocusPane::Local,
            s.anchor == FocusPane::Local,
            s.gist_view == GistView::Description,
            s.gist_type_filter == GistTypeFilter::All,
            s.gist_sort == PaneSort::Match,
            s.local_sort == PaneSort::Match,
            !s.local_recursive,
            !s.filtering,
            !s.quit_armed,
            s.local_cursor == (ListCursor { index: 0, hscroll: 0 }),
            s.gist_cursor == (ListCursor { index: 0, hscroll: 0 }),
            s.local_filter_query.text_view().len() == 0,
            s.filter_query.text_view().len() == 0,
            s.local_filter_query.well_formed(),
            s.filter_query.well_formed(),
            s.status is None,
            s.split_percent == DEFAULT_SPLIT_PERCENT,
            !s.split_dragging,
    {
        let empty = "";
        proof {
            reveal_strlit("");
        }
        assert(empty@.len() == 0);
        let local_filter_query = TextInput::from(empty);
        let filter_query = TextInput::from(empty);
        ListScreen {
            focus: FocusPane::Local,
            anchor: FocusPane::Local,
            gist_view: GistView::Description,
            gist_type_filter: GistTypeFilter::All,
            gist_sort: PaneSort::Match,
            local_sort: PaneSort::Match,
            local_recursive: false,
            filtering: false,
            quit_armed: false,
            local_cursor: ListCursor::new(),
            gist_cursor: ListCursor::new(),
            local_filter_query,
            filter_query,
            status: None,
            split_percent: DEFAULT_SPLIT_PERCENT,
            split_dragging: false,
        }
    }
}

/// The gist file under the gist cursor.
pub struct SelectedGist {
    pub gist_id: String,
    pub filename: String,
    pub description: String,
    pub raw_url: Option<String>,
}

/// What the key handler reads of the rows under the cursors and of the catalogue.
pub struct ListSelection {
    /// Path of the local file under the local cursor.
    pub local: Option<String>,
    pub gist: Option<SelectedGist>,
    /// The selected gist is the signed-in user's.
    pub owned: bool,
    /// The selected local file and gist file are a pinned pair.
    pub pinned_pair: bool,
    /// The selected gist already holds a file named like the selected local file.
    pub gist_holds_local_name: bool,
    /// Files in the selected gist.
    pub file_count: usize,
    /// The user has gists at all.
    pub has_owned_gists: bool,
    /// The selected gist file can be previewed as text.
    pub text_previewable: bool,
    /// The selected pair can be shown as a text diff.
    pub diff_previewable: bool,
    /// The gist the screen is about, for copying its URL or starring it.
    pub context_gist_id: Option<String>,
    /// The working directory.
    pub cwd: String,
}

/// What a key on the List screen asks the rest of the program to do.
#[derive(Debug, Clone, PartialEq, Eq)]
pub enum ListKeyOutcome {
    Nothing,
    Quit,
    /// Rescan the local files.
    RefreshLocals,
    CopyGistUrl { gist_id: String },
    /// Star or unstar the context gist.
    ToggleStar,
    /// Advance the focused pane's sort order.
    CycleSort,
    /// Advance the gist pane's type filter.
    CycleGistType,
    OpenHelp,
    OpenPins,
    OpenConfig,
    OpenGistManager,
    SyncSelectedPair { local_path: String, gist_id: String, filename: String },
    /// Open the revision history of the gist, on the selected file.
    OpenRevisions { gist_id: String, filename: String },
    EditLocal { path: String },
    PreviewContent { gist_id: String, filename: String, raw_url: Option<String> },
    /// The selected gist file is not previewable: say why.
    PreviewBlocked { gist_id: String, filename: String },
    DownloadGist { gist_id: String, filename: String, raw_url: Option<String>, target: String },
    PreviewDiff {
        local_path: Option<String>,
        gist_id: String,
        filename: String,
        raw_url: Option<String>,
        target: String,
        upload_orientation: bool,
    },
    /// The selected pair cannot be diffed as text: say why.
    DiffBlocked { gist_id: String, filename: String, local_path: Option<String> },
    Pin { local_path: String, gist_id: String, filename: String },
    Unpin { local_path: String, gist_id: String, filename: String },
    /// The gist is not the user's, so it cannot be changed: say so.
    ForeignBlocked { gist_id: String },
    /// Upload the selected local file over the file of the same name in the selected gist,
    /// its diff first.
    UploadPreview { local_path: String, gist_id: String },
    /// Add the selected local file to the selected gist, which has no file of its name.
    UploadAdd { local_path: String, gist_id: String },
    /// Raise the confirm for removing the file from its gist, over `text`.
    ConfirmRemoveFile { gist_id: String, filename: String, label: String, text: String },
    /// Raise the create-gist confirm, description editor first, over `text`.
    ConfirmCreate { local_path: String, text: String },
}

// ---------------------------------------------------------------------------------------------
// Paths
// ---------------------------------------------------------------------------------------------

/// Index of the last `/` in `p`, or -1.
pub open spec fn last_slash(p: Seq<char>) -> int
    decreases p.len(),
{
    if p.len() == 0 {
        -1
    } else if p.last() == '/' {
        p.len() - 1
    } else {
        last_slash(p.drop_last())
    }
}

proof fn lemma_last_slash_range(p: Seq<char>)
    ensures
        -1 <= last_slash(p) < p.len(),
        last_slash(p) >= 0 ==> p[last_slash(p)] == '/',
    decreases p.len(),
{
    if p.len() > 0 && p.last() != '/' {
        lemma_last_slash_range(p.drop_last());
    }
}

/// The directory part of a file path: everything before its last `/` (`/` itself for a
/// file at the root, nothing for a bare name). The root and the empty path have none.
pub open spec fn parent_dir(p: Seq<char>) -> Option<Seq<char>> {
    let k = last_slash(p);
    if p.len() == 0 || p == seq!['/'] {
        None
    } else if k < 0 {
        Some(Seq::<char>::empty())
    } else if k == 0 {
        Some(seq!['/'])
    } else {
        Some(p.take(k))
    }
}

/// `name` under the directory `dir`: an absolute name stands alone, an empty directory adds
/// nothing, otherwise the two are joined with one `/`.
pub open spec fn join_path(dir: Seq<char>, name: Seq<char>) -> Seq<char> {
    if name.len() > 0 && name[0] == '/' {
        name
    } else if dir.len() == 0 {
        name
    } else if dir.last() == '/' {
        dir + name
    } else {
        dir + seq!['/'] + name
    }
}

/// Where a diff's download lands: beside the local file, or in the working directory.
pub open spec fn diff_target(local: Option<Seq<char>>, cwd: Seq<char>, filename: Seq<char>) -> Seq<char> {
    match local {
        Some(p) => match parent_dir(p) {
            Some(d) => join_path(d, filename),
            None => join_path(cwd, filename),
        },
        None => join_path(cwd, filename),
    }
}

/// The directory part of `path` (see [`parent_dir`]).
pub fn parent_of(path: &str) -> (r: Option<String>)
    ensures
        match r {
            Some(d) => parent_dir(path@) == Some(d@),
            None => parent_dir(path@) is None,
        },
{
    let v = chars_of(path);
    let n = v.len();
    if n == 0 || (n == 1 && v[0] == '/') {
        proof {
            if n == 1 {
                assert(path@ =~= seq!['/']);
            }
        }
        return None;
    }
    let mut i = n;
    assert(v@.take(n as int) =~= v@);
    while i > 0 && v[i - 1] != '/'
        invariant
            i <= n,
            n == v@.len(),
            last_slash(v@) == last_slash(v@.take(i as int)),
        decreases i,
    {
        assert(v@.take(i as int).drop_last() =~= v@.take(i - 1));
        i = i - 1;
    }
    proof {
        if i > 0 {
            assert(v@.take(i as int).last() == '/');
            assert(last_slash(v@) == i - 1);
        } else {
            assert(v@.take(0) =~= Seq::<char>::empty());
            assert(last_slash(v@) == -1);
        }
        reveal_strlit("/");
        assert("/"@ =~= seq!['/']);
    }
    if i == 0 {
        Some(String::new())
    } else if i == 1 {
        Some(owned("/"))
    } else {
        Some(string_of_range(v.as_slice(), 0, i - 1))
    }
}

/// `name` under `dir` (see [`join_path`]).
pub fn join(dir: &str, name: &str) -> (r: String)
    ensures
        r@ == join_path(dir@, name@),
{
    let d = chars_of(dir);
    let m = chars_of(name);
    if m.len() > 0 && m[0] == '/' {
        return owned(name);
    }
    if d.len() == 0 {
        return owned(name);
    }
    let mut s = owned(dir);
    if d[d.len() - 1] != '/' {
        push_char(&mut s, '/');
    }
    push_str(&mut s, name);
    s
}

// ---------------------------------------------------------------------------------------------
// The guard
// ---------------------------------------------------------------------------------------------

/// Whether `key` would do something on the List screen for this selection. The key handler
/// gates its row actions on it and the command palette lists only what passes it, so the two
/// cannot drift apart.
pub open spec fn list_guard_spec(sel: ListSelection, focus: FocusPane, key: Key) -> bool {
    let has_gist = sel.gist is Some;
    let has_local = sel.local is Some;
    if key == Key::Enter {
        has_gist && sel.diff_previewable
    } else if key == Key::Char(' ') {
        has_gist && sel.text_previewable
    } else if key == Key::Char('d') {
        has_gist && focus == FocusPane::Gist
    } else if key == Key::Char('u') {
        has_local && has_gist && sel.owned
    } else if key == Key::Char('n') {
        has_local
    } else if key == Key::Char('p') {
        has_local && has_gist && (sel.pinned_pair || sel.owned)
    } else if key == Key::Char('S') {
        has_local && has_gist
    } else if key == Key::Char('g') {
        sel.has_owned_gists
    } else if key == Key::Char('X') {
        has_gist && sel.owned && sel.file_count > 1
    } else if key == Key::Char('e') {
        has_local
    } else if key == Key::Char('y') || key == Key::Char('*') {
        sel.context_gist_id is Some
    } else if key == Key::Char('H') {
        has_gist
    } else {
        false
    }
}

/// Whether `key` would do something on the List screen (see [`list_guard_spec`]).
pub fn list_guard(sel: &ListSelection, focus: FocusPane, key: Key) -> (r: bool)
    ensures
        r == list_guard_spec(*sel, focus, key),
{
    let has_gist = sel.gist.is_some();
    let has_local = sel.local.is_some();
    if key == Key::Enter {
        has_gist && sel.diff_previewable
    } else if key == Key::Char(' ') {
        has_gist && sel.text_previewable
    } else if key == Key::Char('d') {
        has_gist && focus == FocusPane::Gist
    } else if key == Key::Char('u') {
        has_local && has_gist && sel.owned
    } else if key == Key::Char('n') {
        has_local
    } else if key == Key::Char('p') {
        has_local && has_gist && (sel.pinned_pair || sel.owned)
    } else if key == Key::Char('S') {
        has_local && has_gist
    } else if key == Key::Char('g') {
        sel.has_owned_gists
    } else if key == Key::Char('X') {
        has_gist && sel.owned && sel.file_count > 1
    } else if key == Key::Char('e') {
        has_local
    } else if key == Key::Char('y') || key == Key::Char('*') {
        sel.context_gist_id.is_some()
    } else if key == Key::Char('H') {
        has_gist
    } else {
        false
    }
}

// ---------------------------------------------------------------------------------------------
// The keys
// ---------------------------------------------------------------------------------------------

/// An outcome, its strings read as characters.
pub enum ListOutcomeView {
    Nothing,
    Quit,
    RefreshLocals,
    CopyGistUrl(Seq<char>),
    ToggleStar,
    CycleSort,
    CycleGistType,
    OpenHelp,
    OpenPins,
    OpenConfig,
    OpenGistManager,
    SyncSelectedPair(Seq<char>, Seq<char>, Seq<char>),
    OpenRevisions(Seq<char>, Seq<char>),
    EditLocal(Seq<char>),
    PreviewContent(Seq<char>, Seq<char>, Option<Seq<char>>),
    PreviewBlocked(Seq<char>, Seq<char>),
    DownloadGist(Seq<char>, Seq<char>, Option<Seq<char>>, Seq<char>),
    PreviewDiff(Option<Seq<char>>, Seq<char>, Seq<char>, Option<Seq<char>>, Seq<char>, bool),
    DiffBlocked(Seq<char>, Seq<char>, Option<Seq<char>>),
    Pin(Seq<char>, Seq<char>, Seq<char>),
    Unpin(Seq<char>, Seq<char>, Seq<char>),
    ForeignBlocked(Seq<char>),
    UploadPreview(Seq<char>, Seq<char>),
    UploadAdd(Seq<char>, Seq<char>),
    ConfirmRemoveFile(Seq<char>, Seq<char>, Seq<char>, Seq<char>),
    ConfirmCreate(Seq<char>, Seq<char>),
}

/// The characters of an optional string.
pub open spec fn opt_chars(o: Option<String>) -> Option<Seq<char>> {
    match o {
        Some(s) => Some(s@),
        None => None,
    }
}

/// The view of an outcome.
pub open spec fn outcome_view(o: ListKeyOutcome) -> ListOutcomeView {
    match o {
        ListKeyOutcome::Nothing => ListOutcomeView::Nothing,
        ListKeyOutcome::Quit => ListOutcomeView::Quit,
        ListKeyOutcome::RefreshLocals => ListOutcomeView::RefreshLocals,
        ListKeyOutcome::CopyGistUrl { gist_id } => ListOutcomeView::CopyGistUrl(gist_id@),
        ListKeyOutcome::ToggleStar => ListOutcomeView::ToggleStar,
        ListKeyOutcome::CycleSort => ListOutcomeView::CycleSort,
        ListKeyOutcome::CycleGistType => ListOutcomeView::CycleGistType,
        ListKeyOutcome::OpenHelp => ListOutcomeView::OpenHelp,
        ListKeyOutcome::OpenPins => ListOutcomeView::OpenPins,
        ListKeyOutcome::OpenConfig => ListOutcomeView::OpenConfig,
        ListKeyOutcome::OpenGistManager => ListOutcomeView::OpenGistManager,
        ListKeyOutcome::SyncSelectedPair { local_path, gist_id, filename } => {
            ListOutcomeView::SyncSelectedPair(local_path@, gist_id@, filename@)
        },
        ListKeyOutcome::OpenRevisions { gist_id, filename } => ListOutcomeView::OpenRevisions(
            gist_id@,
            filename@,
        ),
        ListKeyOutcome::EditLocal { path } => ListOutcomeView::EditLocal(path@),
        ListKeyOutcome::PreviewContent { gist_id, filename, raw_url } => {
            ListOutcomeView::PreviewContent(gist_id@, filename@, opt_chars(raw_url))
        },
        ListKeyOutcome::PreviewBlocked { gist_id, filename } => ListOutcomeView::PreviewBlocked(
            gist_id@,
            filename@,
        ),
        ListKeyOutcome::DownloadGist { gist_id, filename, raw_url, target } => {
            ListOutcomeView::DownloadGist(gist_id@, filename@, opt_chars(raw_url), target@)
        },
        ListKeyOutcome::PreviewDiff {
            local_path,
            gist_id,
            filename,
            raw_url,
            target,
            upload_orientation,
        } => ListOutcomeView::PreviewDiff(
            opt_chars(local_path),
            gist_id@,
            filename@,
            opt_chars(raw_url),
            target@,
            upload_orientation,
        ),
        ListKeyOutcome::DiffBlocked { gist_id, filename, local_path } => {
            ListOutcomeView::DiffBlocked(gist_id@, filename@, opt_chars(local_path))
        },
        ListKeyOutcome::Pin { local_path, gist_id, filename } => ListOutcomeView::Pin(
            local_path@,
            gist_id@,
            filename@,
        ),
        ListKeyOutcome::Unpin { local_path, gist_id, filename } => ListOutcomeView::Unpin(
            local_path@,
            gist_id@,
            filename@,
        ),
        ListKeyOutcome::ForeignBlocked { gist_id } => ListOutcomeView::ForeignBlocked(gist_id@),
        ListKeyOutcome::UploadPreview { local_path, gist_id } => ListOutcomeView::UploadPreview(
            local_path@,
            gist_id@,
        ),
        ListKeyOutcome::UploadAdd { local_path, gist_id } => ListOutcomeView::UploadAdd(
            local_path@,
            gist_id@,
        ),
        ListKeyOutcome::ConfirmRemoveFile { gist_id, filename, label, text } => {
            ListOutcomeView::ConfirmRemoveFile(gist_id@, filename@, label@, text@)
        },
        ListKeyOutcome::ConfirmCreate { local_path, text } => ListOutcomeView::ConfirmCreate(
            local_path@,
            text@,
        ),
    }
}

/// The status the first `q`/`Esc` shows.
pub open spec fn quit_hint_text() -> Seq<char> {
    "Press q or Esc again to quit (any other key cancels)"@
}

/// The label a remove-file confirm names the gist by: its description, or its id.
pub open spec fn gist_label_of(g: SelectedGist) -> Seq<char> {
    if g.description@.len() == 0 {
        g.gist_id@
    } else {
        g.description@
    }
}

/// The text of the remove-file confirm.
pub open spec fn remove_file_text(filename: Seq<char>, gist_id: Seq<char>, label: Seq<char>) -> Seq<char> {
    "Remove file \""@ + filename + "\" from gist "@ + gist_id + " ("@ + label
        + ").\n\nThe other files in this gist are kept. This cannot be undone."@
}

/// The text of the create confirm.
pub open spec fn create_text(path: Seq<char>) -> Seq<char> {
    "Create a new gist from "@ + path
        + ".\n\nType an optional description, then choose visibility."@
}

/// The status shown instead of removing a gist's only file.
pub open spec fn only_file_text(filename: Seq<char>) -> Seq<char> {
    filename + " is the gist's only file — use g then X to delete the gist"@
}

/// The screen with the pane that is not the anchor back at its top row.
pub open spec fn ranked_reset(s: ListScreen) -> ListScreen {
    match s.anchor {
        FocusPane::Local => ListScreen { gist_cursor: ListCursor { index: 0, hscroll: 0 }, ..s },
        FocusPane::Gist => ListScreen { local_cursor: ListCursor { index: 0, hscroll: 0 }, ..s },
    }
}

/// What `key` does on the List screen: the screen after it (its status line aside), the
/// status line, and the outcome. Every key first clears the status and disarms the quit.
pub open spec fn list_key_spec(s0: ListScreen, sel: ListSelection, key: Key) -> (
    ListScreen,
    Option<Seq<char>>,
    ListOutcomeView,
) {
    let b = ListScreen { quit_armed: false, ..s0 };
    let guard = list_guard_spec(sel, s0.focus, key);
    if key == Key::Char('q') || key == Key::Esc {
        if s0.quit_armed {
            (b, None, ListOutcomeView::Quit)
        } else {
            (ListScreen { quit_armed: true, ..b }, Some(quit_hint_text()), ListOutcomeView::Nothing)
        }
    } else if key == Key::Tab {
        (ListScreen { focus: other_pane(s0.focus), ..b }, None, ListOutcomeView::Nothing)
    } else if key == Key::Char('1') {
        (ListScreen { focus: FocusPane::Local, ..b }, None, ListOutcomeView::Nothing)
    } else if key == Key::Char('2') {
        (ListScreen { focus: FocusPane::Gist, ..b }, None, ListOutcomeView::Nothing)
    } else if key == Key::Char('a') {
        (ranked_reset(ListScreen { anchor: other_pane(s0.anchor), ..b }), None, ListOutcomeView::Nothing)
    } else if key == Key::Char('t') {
        (
            ListScreen {
                gist_view: match s0.gist_view {
                    GistView::Description => GistView::Id,
                    GistView::Id => GistView::Description,
                },
                ..b
            },
            None,
            ListOutcomeView::Nothing,
        )
    } else if key == Key::Char('v') {
        (
            ListScreen {
                gist_type_filter: next_type_filter(s0.gist_type_filter),
                gist_cursor: ListCursor { index: 0, hscroll: 0 },
                ..b
            },
            None,
            ListOutcomeView::Nothing,
        )
    } else if key == Key::Char('*') {
        (b, None, ListOutcomeView::ToggleStar)
    } else if key == Key::Char('s') {
        (
            match s0.focus {
                FocusPane::Local => ListScreen { local_sort: next_sort(s0.local_sort), ..b },
                FocusPane::Gist => ListScreen { gist_sort: next_sort(s0.gist_sort), ..b },
            },
            None,
            ListOutcomeView::Nothing,
        )
    } else if key == Key::Char('r') {
        (
            ListScreen {
                local_recursive: !s0.local_recursive,
                local_cursor: ListCursor { index: 0, hscroll: 0 },
                ..b
            },
            None,
            ListOutcomeView::RefreshLocals,
        )
    } else if key == Key::Char('/') {
        (ListScreen { filtering: true, ..b }, None, ListOutcomeView::Nothing)
    } else if key == Key::Char('y') {
        (
            b,
            None,
            match sel.context_gist_id {
                Some(id) => ListOutcomeView::CopyGistUrl(id@),
                None => ListOutcomeView::Nothing,
            },
        )
    } else if key == Key::Char('?') {
        (b, None, ListOutcomeView::OpenHelp)
    } else if key == Key::Char('P') {
        (b, None, ListOutcomeView::OpenPins)
    } else if key == Key::Char('C') {
        (b, None, ListOutcomeView::OpenConfig)
    } else if key == Key::Char('S') {
        (
            b,
            None,
            match (sel.local, sel.gist) {
                (Some(l), Some(g)) => ListOutcomeView::SyncSelectedPair(l@, g.gist_id@, g.filename@),
                _ => ListOutcomeView::Nothing,
            },
        )
    } else if key == Key::Char('g') {
        (
            b,
            None,
            if sel.has_owned_gists {
                ListOutcomeView::OpenGistManager
            } else {
                ListOutcomeView::Nothing
            },
        )
    } else if key == Key::Char('H') {
        match sel.gist {
            Some(g) => (b, None, ListOutcomeView::OpenRevisions(g.gist_id@, g.filename@)),
            None => (
                b,
                Some("select a gist file to view revision history"@),
                ListOutcomeView::Nothing,
            ),
        }
    } else if key == Key::Char('e') {
        match sel.local {
            Some(l) => (b, None, ListOutcomeView::EditLocal(l@)),
            None => (b, Some("select a local file to edit"@), ListOutcomeView::Nothing),
        }
    } else if key == Key::Char(' ') {
        (
            b,
            None,
            match sel.gist {
                Some(g) => if guard {
                    ListOutcomeView::PreviewContent(g.gist_id@, g.filename@, opt_chars(g.raw_url))
                } else {
                    ListOutcomeView::PreviewBlocked(g.gist_id@, g.filename@)
                },
                None => ListOutcomeView::Nothing,
            },
        )
    } else if key == Key::Char('d') {
        (
            b,
            None,
            match sel.gist {
                Some(g) => if guard {
                    ListOutcomeView::DownloadGist(
                        g.gist_id@,
                        g.filename@,
                        opt_chars(g.raw_url),
                        join_path(sel.cwd@, g.filename@),
                    )
                } else {
                    ListOutcomeView::Nothing
                },
                None => ListOutcomeView::Nothing,
            },
        )
    } else if key == Key::Enter {
        (
            b,
            None,
            match sel.gist {
                Some(g) => if guard {
                    ListOutcomeView::PreviewDiff(
                        opt_chars(sel.local),
                        g.gist_id@,
                        g.filename@,
                        opt_chars(g.raw_url),
                        diff_target(opt_chars(sel.local), sel.cwd@, g.filename@),
                        s0.focus == FocusPane::Local,
                    )
                } else {
                    ListOutcomeView::DiffBlocked(g.gist_id@, g.filename@, opt_chars(sel.local))
                },
                None => ListOutcomeView::Nothing,
            },
        )
    } else if key == Key::Char('p') {
        match (sel.local, sel.gist) {
            (Some(l), Some(g)) => (
                b,
                None,
                if sel.pinned_pair {
                    ListOutcomeView::Unpin(l@, g.gist_id@, g.filename@)
                } else if !sel.owned {
                    ListOutcomeView::ForeignBlocked(g.gist_id@)
                } else {
                    ListOutcomeView::Pin(l@, g.gist_id@, g.filename@)
                },
            ),
            _ => (b, Some("select a local file and a gist to pin"@), ListOutcomeView::Nothing),
        }
    } else if key == Key::Char('u') {
        (b, None, upload_outcome(sel))
    } else if key == Key::Char('X') {
        match sel.gist {
            None => (b, Some("select a gist file to remove"@), ListOutcomeView::Nothing),
            Some(g) => if !sel.owned {
                (b, None, ListOutcomeView::ForeignBlocked(g.gist_id@))
            } else if sel.file_count <= 1 {
                (b, Some(only_file_text(g.filename@)), ListOutcomeView::Nothing)
            } else {
                (
                    b,
                    None,
                    ListOutcomeView::ConfirmRemoveFile(
                        g.gist_id@,
                        g.filename@,
                        gist_label_of(g),
                        remove_file_text(g.filename@, g.gist_id@, gist_label_of(g)),
                    ),
                )
            },
        }
    } else if key == Key::Char('n') {
        match sel.local {
            Some(l) => (b, None, ListOutcomeView::ConfirmCreate(l@, create_text(l@))),
            None => (b, Some("select a local file to create a gist"@), ListOutcomeView::Nothing),
        }
    } else {
        (b, None, ListOutcomeView::Nothing)
    }
}

/// What `u` asks for: with a local file and a gist file selected, the upload of the local
/// file to the gist, over the file of its name when the gist holds one (its diff first) and
/// as a new file otherwise; a gist that is not the user's is refused; without both
/// selections, nothing.
pub open spec fn upload_outcome(sel: ListSelection) -> ListOutcomeView {
    match (sel.local, sel.gist) {
        (Some(l), Some(g)) => if !sel.owned {
            ListOutcomeView::ForeignBlocked(g.gist_id@)
        } else if sel.gist_holds_local_name {
            ListOutcomeView::UploadPreview(l@, g.gist_id@)
        } else {
            ListOutcomeView::UploadAdd(l@, g.gist_id@)
        },
        _ => ListOutcomeView::Nothing,
    }
}

/// What `u` asks for (see [`upload_outcome`]).
fn upload_intent(sel: &ListSelection) -> (out: ListKeyOutcome)
    ensures
        outcome_view(out) == upload_outcome(*sel),
{
    match (&sel.local, &sel.gist) {
        (Some(l), Some(g)) => if !sel.owned {
            ListKeyOutcome::ForeignBlocked { gist_id: g.gist_id.clone() }
        } else if sel.gist_holds_local_name {
            ListKeyOutcome::UploadPreview { local_path: l.clone(), gist_id: g.gist_id.clone() }
        } else {
            ListKeyOutcome::UploadAdd { local_path: l.clone(), gist_id: g.gist_id.clone() }
        },
        _ => ListKeyOutcome::Nothing,
    }
}

/// A copy of an optional string.
fn copy_opt(o: &Option<String>) -> (r: Option<String>)
    ensures
        r == *o,
{
    match o {
        Some(s) => Some(s.clone()),
        None => None,
    }
}

/// The keys that change the screen's own state.
fn screen_key(
    s: &mut ListScreen,
    sel: &ListSelection,
    key: Key,
    quit_armed: bool,
    Ghost(s0): Ghost<ListScreen>,
) -> (out: ListKeyOutcome)
    requires
        *old(s) == (ListScreen { status: None, quit_armed: false, ..s0 }),
        quit_armed == s0.quit_armed,
        key == Key::Char('q') || key == Key::Esc || key == Key::Tab || key == Key::Char('1') || key == Key::Char('2') || key == Key::Char('a') || key == Key::Char('t') || key == Key::Char('v'),
    ensures
        ({
            let e = list_key_spec(s0, *sel, key);
            &&& *final(s) == ListScreen { status: final(s).status, ..e.0 }
            &&& opt_chars(final(s).status) == e.1
            &&& outcome_view(out) == e.2
        }),
{
    if key == Key::Char('q') || key == Key::Esc {
        if quit_armed {
            return ListKeyOutcome::Quit;
        }
        s.quit_armed = true;
        s.status = Some(owned("Press q or Esc again to quit (any other key cancels)"));
        ListKeyOutcome::Nothing
    } else if key == Key::Tab {
        s.focus = match s.focus {
            FocusPane::Local => FocusPane::Gist,
            FocusPane::Gist => FocusPane::Local,
        };
        ListKeyOutcome::Nothing
    } else if key == Key::Char('1') {
        s.focus = FocusPane::Local;
        ListKeyOutcome::Nothing
    } else if key == Key::Char('2') {
        s.focus = FocusPane::Gist;
        ListKeyOutcome::Nothing
    } else if key == Key::Char('a') {
        s.anchor = match s.anchor {
            FocusPane::Local => FocusPane::Gist,
            FocusPane::Gist => FocusPane::Local,
        };
        match s.anchor {
            FocusPane::Local => s.gist_cursor = ListCursor::new(),
            FocusPane::Gist => s.local_cursor = ListCursor::new(),
        }
        ListKeyOutcome::Nothing
    } else if key == Key::Char('t') {
        s.gist_view = match s.gist_view {
            GistView::Description => GistView::Id,
            GistView::Id => GistView::Description,
        };
        ListKeyOutcome::Nothing
    } else if key == Key::Char('v') {
        s.gist_type_filter = s.gist_type_filter.next();
        s.gist_cursor = ListCursor::new();
        ListKeyOutcome::Nothing
    } else {
        ListKeyOutcome::Nothing
    }
}

/// The keys that open another screen or pass a request on.
fn open_key(
    s: &mut ListScreen,
    sel: &ListSelection,
    key: Key,
    quit_armed: bool,
    Ghost(s0): Ghost<ListScreen>,
) -> (out: ListKeyOutcome)
    requires
        *old(s) == (ListScreen { status: None, quit_armed: false, ..s0 }),
        quit_armed == s0.quit_armed,
        key == Key::Char('*') || key == Key::Char('s') || key == Key::Char('r') || key == Key::Char('/') || key == Key::Char('y') || key == Key::Char('?') || key == Key::Char('P') || key == Key::Char('C') || key == Key::Char('S') || key == Key::Char('g') || key == Key::Char('H') || key == Key::Char('e'),
    ensures
        ({
            let e = list_key_spec(s0, *sel, key);
            &&& *final(s) == ListScreen { status: final(s).status, ..e.0 }
            &&& opt_chars(final(s).status) == e.1
            &&& outcome_view(out) == e.2
        }),
{
    if key == Key::Char('*') {
        ListKeyOutcome::ToggleStar
    } else if key == Key::Char('s') {
        match s.focus {
            FocusPane::Local => s.local_sort = s.local_sort.next(),
            FocusPane::Gist => s.gist_sort = s.gist_sort.next(),
        }
        ListKeyOutcome::Nothing
    } else if key == Key::Char('r') {
        s.local_recursive = !s.local_recursive;
        s.local_cursor = ListCursor::new();
        ListKeyOutcome::RefreshLocals
    } else if key == Key::Char('/') {
        s.filtering = true;
        ListKeyOutcome::Nothing
    } else if key == Key::Char('y') {
        match &sel.context_gist_id {
            Some(id) => ListKeyOutcome::CopyGistUrl { gist_id: id.clone() },
            None => ListKeyOutcome::Nothing,
        }
    } else if key == Key::Char('?') {
        ListKeyOutcome::OpenHelp
    } else if key == Key::Char('P') {
        ListKeyOutcome::OpenPins
    } else if key == Key::Char('C') {
        ListKeyOutcome::OpenConfig
    } else if key == Key::Char('S') {
        match (&sel.local, &sel.gist) {
            (Some(l), Some(g)) => ListKeyOutcome::SyncSelectedPair {
                local_path: l.clone(),
                gist_id: g.gist_id.clone(),
                filename: g.filename.clone(),
            },
            _ => ListKeyOutcome::Nothing,
        }
    } else if key == Key::Char('g') {
        if sel.has_owned_gists {
            ListKeyOutcome::OpenGistManager
        } else {
            ListKeyOutcome::Nothing
        }
    } else if key == Key::Char('H') {
        match &sel.gist {
            Some(g) => ListKeyOutcome::OpenRevisions {
                gist_id: g.gist_id.clone(),
                filename: g.filename.clone(),
            },
            None => {
                s.status = Some(owned("select a gist file to view revision history"));
                ListKeyOutcome::Nothing
            },
        }
    } else if key == Key::Char('e') {
        match &sel.local {
            Some(l) => ListKeyOutcome::EditLocal { path: l.clone() },
            None => {
                s.status = Some(owned("select a local file to edit"));
                ListKeyOutcome::Nothing
            },
        }
    } else {
        ListKeyOutcome::Nothing
    }
}

/// The keys that act on the selected rows.
fn row_key(
    s: &mut ListScreen,
    sel: &ListSelection,
    key: Key,
    quit_armed: bool,
    Ghost(s0): Ghost<ListScreen>,
) -> (out: ListKeyOutcome)
    requires
        *old(s) == (ListScreen { status: None, quit_armed: false, ..s0 }),
        quit_armed == s0.quit_armed,
        !(key == Key::Char('q') || key == Key::Esc || key == Key::Tab || key == Key::Char('1') || key == Key::Char('2') || key == Key::Char('a') || key == Key::Char('t') || key == Key::Char('v')),
        !(key == Key::Char('*') || key == Key::Char('s') || key == Key::Char('r') || key == Key::Char('/') || key == Key::Char('y') || key == Key::Char('?') || key == Key::Char('P') || key == Key::Char('C') || key == Key::Char('S') || key == Key::Char('g') || key == Key::Char('H') || key == Key::Char('e')),
    ensures
        ({
            let e = list_key_spec(s0, *sel, key);
            &&& *final(s) == ListScreen { status: final(s).status, ..e.0 }
            &&& opt_chars(final(s).status) == e.1
            &&& outcome_view(out) == e.2
        }),
{
    let guard = list_guard(sel, s.focus, key);
    if key == Key::Char(' ') {
        match &sel.gist {
            Some(g) => if guard {
                ListKeyOutcome::PreviewContent {
                    gist_id: g.gist_id.clone(),
                    filename: g.filename.clone(),
                    raw_url: copy_opt(&g.raw_url),
                }
            } else {
                ListKeyOutcome::PreviewBlocked {
                    gist_id: g.gist_id.clone(),
                    filename: g.filename.clone(),
                }
            },
            None => ListKeyOutcome::Nothing,
        }
    } else if key == Key::Char('d') {
        match &sel.gist {
            Some(g) => if guard {
                ListKeyOutcome::DownloadGist {
                    gist_id: g.gist_id.clone(),
                    filename: g.filename.clone(),
                    raw_url: copy_opt(&g.raw_url),
                    target: join(sel.cwd.as_str(), g.filename.as_str()),
                }
            } else {
                ListKeyOutcome::Nothing
            },
            None => ListKeyOutcome::Nothing,
        }
    } else if key == Key::Enter {
        match &sel.gist {
            Some(g) => if guard {
                let target = match &sel.local {
                    Some(l) => match parent_of(l.as_str()) {
                        Some(d) => join(d.as_str(), g.filename.as_str()),
                        None => join(sel.cwd.as_str(), g.filename.as_str()),
                    },
                    None => join(sel.cwd.as_str(), g.filename.as_str()),
                };
                ListKeyOutcome::PreviewDiff {
                    local_path: copy_opt(&sel.local),
                    gist_id: g.gist_id.clone(),
                    filename: g.filename.clone(),
                    raw_url: copy_opt(&g.raw_url),
                    target,
                    upload_orientation: s.focus == FocusPane::Local,
                }
            } else {
                ListKeyOutcome::DiffBlocked {
                    gist_id: g.gist_id.clone(),
                    filename: g.filename.clone(),
                    local_path: copy_opt(&sel.local),
                }
            },
            None => ListKeyOutcome::Nothing,
        }
    } else if key == Key::Char('p') {
        match (&sel.local, &sel.gist) {
            (Some(l), Some(g)) => if sel.pinned_pair {
                ListKeyOutcome::Unpin {
                    local_path: l.clone(),
                    gist_id: g.gist_id.clone(),
                    filename: g.filename.clone(),
                }
            } else if !sel.owned {
                ListKeyOutcome::ForeignBlocked { gist_id: g.gist_id.clone() }
            } else {
                ListKeyOutcome::Pin {
                    local_path: l.clone(),
                    gist_id: g.gist_id.clone(),
                    filename: g.filename.clone(),
                }
            },
            _ => {
                s.status = Some(owned("select a local file and a gist to pin"));
                ListKeyOutcome::Nothing
            },
        }
    } else if key == Key::Char('u') {
        upload_intent(sel)
    } else if key == Key::Char('X') {
        match &sel.gist {
            None => {
                s.status = Some(owned("select a gist file to remove"));
                ListKeyOutcome::Nothing
            },
            Some(g) => if !sel.owned {
                ListKeyOutcome::ForeignBlocked { gist_id: g.gist_id.clone() }
            } else if sel.file_count <= 1 {
                let mut message = owned(g.filename.as_str());
                push_str(&mut message, " is the gist's only file — use g then X to delete the gist");
                s.status = Some(message);
                ListKeyOutcome::Nothing
            } else {
                let label = if g.description.unicode_len() == 0 {
                    g.gist_id.clone()
                } else {
                    g.description.clone()
                };
                let mut text = owned("Remove file \"");
                push_str(&mut text, g.filename.as_str());
                push_str(&mut text, "\" from gist ");
                push_str(&mut text, g.gist_id.as_str());
                push_str(&mut text, " (");
                push_str(&mut text, label.as_str());
                push_str(&mut text, ").\n\nThe other files in this gist are kept. This cannot be undone.");
                ListKeyOutcome::ConfirmRemoveFile {
                    gist_id: g.gist_id.clone(),
                    filename: g.filename.clone(),
                    label,
                    text,
                }
            },
        }
    } else if key == Key::Char('n') {
        match &sel.local {
            Some(l) => {
                let mut text = owned("Create a new gist from ");
                push_str(&mut text, l.as_str());
                push_str(&mut text, ".\n\nType an optional description, then choose visibility.");
                ListKeyOutcome::ConfirmCreate { local_path: l.clone(), text }
            },
            None => {
                s.status = Some(owned("select a local file to create a gist"));
                ListKeyOutcome::Nothing
            },
        }
    } else {
        ListKeyOutcome::Nothing
    }
}

/// Apply `key` to the List screen (see [`list_key_spec`]).
pub fn handle_key_list(s: &mut ListScreen, sel: &ListSelection, key: Key) -> (out: ListKeyOutcome)
    ensures
        ({
            let e = list_key_spec(*old(s), *sel, key);
            &&& *final(s) == ListScreen { status: final(s).status, ..e.0 }
            &&& opt_chars(final(s).status) == e.1
            &&& outcome_view(out) == e.2
        }),
{
    s.status = None;
    let quit_armed = s.quit_armed;
    s.quit_armed = false;
    if key == Key::Char('q') || key == Key::Esc || key == Key::Tab || key == Key::Char('1') || key == Key::Char('2') || key == Key::Char('a') || key == Key::Char('t') || key == Key::Char('v') {
        screen_key(s, sel, key, quit_armed, Ghost(*old(s)))
    } else if key == Key::Char('*') || key == Key::Char('s') || key == Key::Char('r') || key == Key::Char('/') || key == Key::Char('y') || key == Key::Char('?') || key == Key::Char('P') || key == Key::Char('C') || key == Key::Char('S') || key == Key::Char('g') || key == Key::Char('H') || key == Key::Char('e') {
        open_key(s, sel, key, quit_armed, Ghost(*old(s)))
    } else {
        row_key(s, sel, key, quit_armed, Ghost(*old(s)))
    }
}

// ---------------------------------------------------------------------------------------------
// Moving, clicking, dragging
// ---------------------------------------------------------------------------------------------

/// Rows a page key moves the selection.
pub const LIST_PAGE_ROWS: usize = 10;

/// The selected row after `action` in a pane of `rows` rows: one row or a page down or up,
/// stopping at the first and last rows.
pub open spec fn moved_index(index: int, rows: int, action: NavAction) -> int {
    match action {
        NavAction::Down => if index + 1 < rows {
            index + 1
        } else {
            index
        },
        NavAction::Up => if index > 0 {
            index - 1
        } else {
            index
        },
        NavAction::PageDown => if index + 10 < rows {
            index + 10
        } else if index < rows - 1 {
            rows - 1
        } else {
            index
        },
        NavAction::PageUp => if index >= 10 {
            index - 10
        } else {
            0
        },
        _ => index,
    }
}

/// A cursor after `action`, in a pane of `rows` rows whose selected row scrolls at most
/// `hmax` cells sideways. A vertical move shows the selected row from its start, even when
/// the selection stays where it was at the first or last row.
pub open spec fn moved_cursor(c: ListCursor, rows: int, action: NavAction, hmax: int) -> ListCursor {
    match action {
        NavAction::Left => ListCursor {
            hscroll: if c.hscroll > 0 {
                (c.hscroll - 1) as u16
            } else {
                0
            },
            ..c
        },
        NavAction::Right => ListCursor {
            hscroll: if c.hscroll + 1 <= hmax {
                (c.hscroll + 1) as u16
            } else {
                hmax as u16
            },
            ..c
        },
        _ => ListCursor { index: moved_index(c.index as int, rows, action) as usize, hscroll: 0 },
    }
}

/// The cursor after `action` (see [`moved_cursor`]).
pub(crate) fn move_cursor(c: ListCursor, rows: usize, action: NavAction, hmax: u16) -> (r: ListCursor)
    ensures
        r == moved_cursor(c, rows as int, action, hmax as int),
{
    match action {
        NavAction::Left => ListCursor { hscroll: if c.hscroll > 0 { c.hscroll - 1 } else { 0 }, ..c },
        NavAction::Right => ListCursor {
            hscroll: if c.hscroll < hmax { c.hscroll + 1 } else { hmax },
            ..c
        },
        _ => {
            let i: usize = match action {
                NavAction::Down => if c.index < rows && rows - c.index > 1 {
                    c.index + 1
                } else {
                    c.index
                },
                NavAction::Up => if c.index > 0 {
                    c.index - 1
                } else {
                    c.index
                },
                NavAction::PageDown => if c.index < rows && rows - c.index > LIST_PAGE_ROWS {
                    c.index + LIST_PAGE_ROWS
                } else if rows > 0 && c.index < rows - 1 {
                    rows - 1
                } else {
                    c.index
                },
                _ => if c.index >= LIST_PAGE_ROWS {
                    c.index - LIST_PAGE_ROWS
                } else {
                    0
                },
            };
            ListCursor { index: i, hscroll: 0 }
        },
    }
}

/// The List screen after `action`: the focused pane's cursor moves among its visible rows
/// (`local_rows` or `gist_rows`) or scrolls its selected row sideways (up to `hmax`); when
/// the anchor pane's selection moved, the other pane goes back to its top match.
pub open spec fn navigated(s: ListScreen, action: NavAction, local_rows: int, gist_rows: int, hmax: int) -> ListScreen {
    let c0 = match s.focus {
        FocusPane::Local => s.local_cursor,
        FocusPane::Gist => s.gist_cursor,
    };
    let rows = match s.focus {
        FocusPane::Local => local_rows,
        FocusPane::Gist => gist_rows,
    };
    let c1 = moved_cursor(c0, rows, action, hmax);
    let moved = c1.index != c0.index;
    let reset = ListCursor { index: 0, hscroll: 0 };
    match s.focus {
        FocusPane::Local => ListScreen {
            local_cursor: c1,
            gist_cursor: if moved && s.anchor == FocusPane::Local {
                reset
            } else {
                s.gist_cursor
            },
            ..s
        },
        FocusPane::Gist => ListScreen {
            gist_cursor: c1,
            local_cursor: if moved && s.anchor == FocusPane::Gist {
                reset
            } else {
                s.local_cursor
            },
            ..s
        },
    }
}

/// Arrow, `hjkl` and page-key navigation: move the focused pane's selection, or scroll its
/// selected row sideways. Moving the selection of the anchor pane brings the other pane back
/// to its top match, since its ranking follows the anchor. `local_rows` and `gist_rows` are
/// the panes' visible row counts, `hmax` how far the focused pane's selected row scrolls.
pub fn apply_navigation_list(
    s: &mut ListScreen,
    action: NavAction,
    local_rows: usize,
    gist_rows: usize,
    hmax: u16,
) -> (handled: bool)
    ensures
        handled,
        *final(s) == navigated(*old(s), action, local_rows as int, gist_rows as int, hmax as int),
{
    match s.focus {
        FocusPane::Local => {
            let c = move_cursor(s.local_cursor, local_rows, action, hmax);
            let moved = c.index != s.local_cursor.index;
            s.local_cursor = c;
            if moved && s.anchor == FocusPane::Local {
                s.gist_cursor = ListCursor::new();
            }
        },
        FocusPane::Gist => {
            let c = move_cursor(s.gist_cursor, gist_rows, action, hmax);
            let moved = c.index != s.gist_cursor.index;
            s.gist_cursor = c;
            if moved && s.anchor == FocusPane::Gist {
                s.local_cursor = ListCursor::new();
            }
        },
    }
    true
}

/// A key on the List screen goes to the filter while one is being typed (see
/// [`handle_key_filter`]) and to the List's own keys otherwise (see [`handle_key_list`]).
pub fn list_route_key(
    s: &mut ListScreen,
    sel: &ListSelection,
    key: Key,
    local_rows: usize,
    gist_rows: usize,
) -> (out: ListKeyOutcome)
    requires
        old(s).filtering ==> {
            &&& old(s).local_filter_query.well_formed()
            &&& old(s).filter_query.well_formed()
            &&& old(s).local_filter_query.text_view().len() < usize::MAX
            &&& old(s).filter_query.text_view().len() < usize::MAX
        },
    ensures
        old(s).filtering ==> {
            &&& out == ListKeyOutcome::Nothing
            &&& filter_key_effect(*old(s), *final(s), key, local_rows as int, gist_rows as int)
            &&& final(s).local_filter_query.well_formed()
            &&& final(s).filter_query.well_formed()
        },
        !old(s).filtering ==> ({
            let e = list_key_spec(*old(s), *sel, key);
            &&& *final(s) == ListScreen { status: final(s).status, ..e.0 }
            &&& opt_chars(final(s).status) == e.1
            &&& outcome_view(out) == e.2
        }),
{
    if s.filtering {
        handle_key_filter(s, key, local_rows, gist_rows);
        ListKeyOutcome::Nothing
    } else {
        handle_key_list(s, sel, key)
    }
}

/// A key on the List screen, routed as [`list_route_key`] says; when no filter is being
/// typed, a key the List's own keys leave alone that asks for a movement (see
/// [`nav_action_spec`]) then moves the focused pane, as [`navigated`] says.
pub fn list_screen_key(
    s: &mut ListScreen,
    sel: &ListSelection,
    key: Key,
    local_rows: usize,
    gist_rows: usize,
    hmax: u16,
) -> (out: ListKeyOutcome)
    requires
        old(s).filtering ==> {
            &&& old(s).local_filter_query.well_formed()
            &&& old(s).filter_query.well_formed()
            &&& old(s).local_filter_query.text_view().len() < usize::MAX
            &&& old(s).filter_query.text_view().len() < usize::MAX
        },
    ensures
        old(s).filtering ==> {
            &&& out == ListKeyOutcome::Nothing
            &&& filter_key_effect(*old(s), *final(s), key, local_rows as int, gist_rows as int)
            &&& final(s).local_filter_query.well_formed()
            &&& final(s).filter_query.well_formed()
        },
        !old(s).filtering ==> ({
            let e = list_key_spec(*old(s), *sel, key);
            let after_keys = ListScreen { status: final(s).status, ..e.0 };
            &&& outcome_view(out) == e.2
            &&& opt_chars(final(s).status) == e.1
            &&& *final(s) == match (e.2, nav_action_spec(key)) {
                (ListOutcomeView::Nothing, Some(a)) => navigated(
                    after_keys,
                    a,
                    local_rows as int,
                    gist_rows as int,
                    hmax as int,
                ),
                _ => after_keys,
            }
        }),
{
    let filtering = s.filtering;
    let out = list_route_key(s, sel, key, local_rows, gist_rows);
    if !filtering {
        match out {
            ListKeyOutcome::Nothing => match nav_action_of(key) {
                Some(a) => {
                    apply_navigation_list(s, a, local_rows, gist_rows, hmax);
                },
                None => {},
            },
            _ => {},
        }
    }
    out
}

/// Rows a mouse-wheel tick moves on the List screen.
pub fn wheel_step() -> (n: usize)
    ensures
        n == 1,
{
    1
}

/// A mouse-wheel tick: one row down or up in the focused pane, as the arrow keys move it.
pub fn wheel_list(s: &mut ListScreen, down: bool, local_rows: usize, gist_rows: usize)
    ensures
        ({
            let action = if down {
                NavAction::Down
            } else {
                NavAction::Up
            };
            let c0 = match old(s).focus {
                FocusPane::Local => old(s).local_cursor,
                FocusPane::Gist => old(s).gist_cursor,
            };
            let rows = match old(s).focus {
                FocusPane::Local => local_rows as int,
                FocusPane::Gist => gist_rows as int,
            };
            let c1 = moved_cursor(c0, rows, action, 0);
            match old(s).focus {
                FocusPane::Local => final(s).local_cursor == c1,
                FocusPane::Gist => final(s).gist_cursor == c1,
            }
        }),
{
    let action = if down {
        NavAction::Down
    } else {
        NavAction::Up
    };
    apply_navigation_list(s, action, local_rows, gist_rows, 0);
}

/// The List screen after a click in `pane`, on row `index` or (`None`) on its blank area or
/// border: the pane is focused; a row is also selected (scrolled back to its start), and
/// selecting in the anchor pane brings the other pane back to its top match.
pub open spec fn clicked(s: ListScreen, pane: FocusPane, index: Option<usize>) -> ListScreen {
    let reset = ListCursor { index: 0, hscroll: 0 };
    match index {
        None => ListScreen { focus: pane, ..s },
        Some(i) => {
            let picked = ListCursor { index: i, hscroll: 0 };
            match pane {
                FocusPane::Local => ListScreen {
                    focus: pane,
                    local_cursor: picked,
                    gist_cursor: if s.anchor == FocusPane::Local {
                        reset
                    } else {
                        s.gist_cursor
                    },
                    ..s
                },
                FocusPane::Gist => ListScreen {
                    focus: pane,
                    gist_cursor: picked,
                    local_cursor: if s.anchor == FocusPane::Gist {
                        reset
                    } else {
                        s.local_cursor
                    },
                    ..s
                },
            }
        },
    }
}

/// A click on the List screen in `pane`, on row `index` or (`None`) on its blank area or
/// border (see [`clicked`]). Returns whether a row was hit.
pub fn click_select_list(s: &mut ListScreen, pane: FocusPane, index: Option<usize>) -> (hit: bool)
    ensures
        hit == index is Some,
        *final(s) == clicked(*old(s), pane, index),
{
    s.focus = pane;
    match index {
        None => false,
        Some(i) => {
            match pane {
                FocusPane::Local => {
                    s.local_cursor.select(i);
                    if s.anchor == FocusPane::Local {
                        s.gist_cursor = ListCursor::new();
                    }
                },
                FocusPane::Gist => {
                    s.gist_cursor.select(i);
                    if s.anchor == FocusPane::Gist {
                        s.local_cursor = ListCursor::new();
                    }
                },
            }
            true
        },
    }
}

/// Whether a press on the divider (`on_divider`) can grab it: only where the panes' area,
/// `width` cells wide, is wide enough for any split to keep both panes readable.
pub open spec fn grabbable(s: ListScreen, on_divider: bool, width: u16) -> bool {
    on_divider && clamp_split_spec(s.split_percent as int, width as int) is Some
}

/// A left press on the List screen at (`col`, `row`); `pane` is the pane it landed in and the
/// row under it, if any. A press in the divider's grab zone grabs the divider when the split
/// can move, and does nothing else; any other press is a click in the pane it landed in (see
/// [`clicked`]), or nothing outside the panes. Returns whether it grabbed.
pub fn press_list(
    s: &mut ListScreen,
    split: SplitHit,
    pane: Option<(FocusPane, Option<usize>)>,
    col: u16,
    row: u16,
) -> (grabbed: bool)
    ensures
        grabbed == grabbable(*old(s), on_divider_spec(split, col, row), split.area.width),
        grabbed ==> (*final(s) == ListScreen { split_dragging: true, ..*old(s) }),
        !grabbed ==> (*final(s) == match pane {
            Some((p, index)) => clicked(*old(s), p, index),
            None => *old(s),
        }),
{
    let hit = on_divider(split, col, row);
    if grab_split_divider(s, hit, split.area.width) {
        return true;
    }
    match pane {
        Some((p, index)) => {
            click_select_list(s, p, index);
        },
        None => {},
    }
    false
}

/// Grab the divider when the press landed on it and it can move, starting a drag. Returns
/// whether it was grabbed, so the press does nothing else.
pub fn grab_split_divider(s: &mut ListScreen, on_divider: bool, width: u16) -> (grabbed: bool)
    ensures
        grabbed == grabbable(*old(s), on_divider, width),
        *final(s) == (if grabbed {
            ListScreen { split_dragging: true, ..*old(s) }
        } else {
            *old(s)
        }),
{
    let grabbed = on_divider && clamp_split_percent(s.split_percent, width).is_some();
    if grabbed {
        s.split_dragging = true;
    }
    grabbed
}

/// While a drag is on, move the divider under the pointer's column `col`, as far as both
/// panes of `area` stay readable. Only the column is read: the pointer may wander above or
/// below the panes without breaking the drag.
pub fn drag_split_divider(s: &mut ListScreen, col: u16, area: Rect)
    ensures
        *final(s) == (if old(s).split_dragging {
            match clamp_split_spec(percent_for_col_spec(area, col as int) as int, area.width as int) {
                Some(p) => ListScreen { split_percent: p, ..*old(s) },
                None => *old(s),
            }
        } else {
            *old(s)
        }),
{
    if !s.split_dragging {
        return;
    }
    match clamp_split_percent(percent_for_col(area, col), area.width) {
        Some(p) => s.split_percent = p,
        None => {},
    }
}

/// End the divider drag (mouse-up, or an overlay taking over the mouse).
pub fn end_split_drag(s: &mut ListScreen)
    ensures
        *final(s) == (ListScreen { split_dragging: false, ..*old(s) }),
{
    s.split_dragging = false;
}

/// A double-click on the divider restores the default split. Returns whether it landed on
/// a divider that can move.
pub fn reset_split_divider(s: &mut ListScreen, on_divider: bool, width: u16) -> (reset: bool)
    ensures
        reset == grabbable(*old(s), on_divider, width),
        *final(s) == (if reset {
            ListScreen { split_percent: DEFAULT_SPLIT_PERCENT, split_dragging: false, ..*old(s) }
        } else {
            *old(s)
        }),
{
    let reset = on_divider && clamp_split_percent(s.split_percent, width).is_some();
    if reset {
        s.split_percent = DEFAULT_SPLIT_PERCENT;
        s.split_dragging = false;
    }
    reset
}

/// What a key does while a single-pane filter is typed, with the cursor at `c`, the filter's
/// (text, caret) at `q`, and `rows` rows passing it: arrows and page keys move through those
/// rows; `Esc` clears the filter, returns to the first row and stops typing; `Enter` keeps it
/// and stops; `Backspace` on an empty filter stops; `Tab` does nothing; any other key edits
/// the filter as a text input does, the cursor going back to the first row when the text
/// changed. The result is the cursor, the filter's (text, caret), and whether typing goes on.
pub open spec fn inline_filter_spec(c: ListCursor, q: (Seq<char>, nat), key: Key, rows: nat) -> (
    ListCursor,
    (Seq<char>, nat),
    bool,
) {
    let top = ListCursor { index: 0, hscroll: 0 };
    if key == Key::Up || key == Key::Down || key == Key::PageUp || key == Key::PageDown {
        let action = if key == Key::Up {
            NavAction::Up
        } else if key == Key::Down {
            NavAction::Down
        } else if key == Key::PageUp {
            NavAction::PageUp
        } else {
            NavAction::PageDown
        };
        (moved_cursor(c, rows as int, action, 0), q, true)
    } else if key == Key::Esc {
        (top, (Seq::empty(), 0), false)
    } else if key == Key::Enter {
        (c, q, false)
    } else if key == Key::Backspace && q.0.len() == 0 {
        (c, q, false)
    } else if key == Key::Tab {
        (c, q, true)
    } else {
        let e = edit_spec(q.0, q.1, key);
        (if e.0 != q.0 {
            top
        } else {
            c
        }, e, true)
    }
}

/// Apply `key` to a single-pane filter being typed (see [`inline_filter_spec`]).
pub fn handle_inline_filter_key(
    cursor: &mut ListCursor,
    query: &mut TextInput,
    filtering: &mut bool,
    rows: usize,
    key: Key,
)
    requires
        old(query).well_formed(),
        old(query).text_view().len() < usize::MAX,
    ensures
        final(query).well_formed(),
        (*final(cursor), (final(query).text_view(), final(query).cursor_view()), *final(filtering))
            == inline_filter_spec(
            *old(cursor),
            (old(query).text_view(), old(query).cursor_view()),
            key,
            rows as nat,
        ),
{
    *filtering = true;
    if key == Key::Up || key == Key::Down || key == Key::PageUp || key == Key::PageDown {
        let action = if key == Key::Up {
            NavAction::Up
        } else if key == Key::Down {
            NavAction::Down
        } else if key == Key::PageUp {
            NavAction::PageUp
        } else {
            NavAction::PageDown
        };
        *cursor = move_cursor(*cursor, rows, action, 0);
    } else if key == Key::Esc {
        query.clear();
        *cursor = ListCursor::new();
        *filtering = false;
        assert(query.text_view() =~= Seq::<char>::empty());
    } else if key == Key::Enter {
        *filtering = false;
    } else if key == Key::Backspace && query.len() == 0 {
        *filtering = false;
    } else if key == Key::Tab {
    } else {
        let changed = apply_edit(query, key);
        if changed {
            *cursor = ListCursor::new();
        }
    }
}

/// The keys that move through rows.
pub open spec fn is_vertical(key: Key) -> bool {
    key == Key::Up || key == Key::Down || key == Key::PageUp || key == Key::PageDown
}

/// The move a vertical key makes.
pub open spec fn vertical_action(key: Key) -> NavAction {
    if key == Key::Up {
        NavAction::Up
    } else if key == Key::Down {
        NavAction::Down
    } else if key == Key::PageUp {
        NavAction::PageUp
    } else {
        NavAction::PageDown
    }
}

/// The screen with the focused pane's cursor back at its top row.
pub open spec fn focused_reset(s: ListScreen) -> ListScreen {
    match s.focus {
        FocusPane::Local => ListScreen { local_cursor: ListCursor { index: 0, hscroll: 0 }, ..s },
        FocusPane::Gist => ListScreen { gist_cursor: ListCursor { index: 0, hscroll: 0 }, ..s },
    }
}

/// The focused pane's filter, as (text, caret).
pub open spec fn focused_query(s: ListScreen) -> (Seq<char>, nat) {
    query_of(s, s.focus)
}

/// Pane `p`'s filter, as (text, caret).
pub open spec fn query_of(s: ListScreen, p: FocusPane) -> (Seq<char>, nat) {
    match p {
        FocusPane::Local => (s.local_filter_query.text_view(), s.local_filter_query.cursor_view()),
        FocusPane::Gist => (s.filter_query.text_view(), s.filter_query.cursor_view()),
    }
}

/// What a key does while the List screen's filter is typed (see [`handle_key_filter`]): the
/// vertical keys move as [`navigated`] says, the filter staying as it is; the other keys
/// stop or keep typing, switch the pane (`Tab`), and edit, keep or clear (`Esc`) the focused
/// pane's filter, that pane going back to its top row when its text changed or was cleared.
/// The other pane's filter and the screen's settings are left alone.
pub open spec fn filter_key_effect(s0: ListScreen, s1: ListScreen, key: Key, local_rows: int, gist_rows: int) -> bool {
    if is_vertical(key) {
        s1 == navigated(s0, vertical_action(key), local_rows, gist_rows, 0)
    } else {
        let q0 = focused_query(s0);
        let q1 = if key == Key::Esc {
            (Seq::<char>::empty(), 0nat)
        } else if key == Key::Tab || key == Key::Enter || (key == Key::Backspace && q0.0.len()
            == 0) {
            q0
        } else {
            edit_spec(q0.0, q0.1, key)
        };
        let reset = key == Key::Esc || q1.0 != q0.0;
        &&& s1.focus == (if key == Key::Tab {
            other_pane(s0.focus)
        } else {
            s0.focus
        })
        &&& s1.filtering == !(key == Key::Tab || key == Key::Esc || key == Key::Enter || (key
            == Key::Backspace && q0.0.len() == 0))
        &&& s1.anchor == s0.anchor
        &&& s1.gist_view == s0.gist_view
        &&& s1.gist_type_filter == s0.gist_type_filter
        &&& s1.gist_sort == s0.gist_sort
        &&& s1.local_sort == s0.local_sort
        &&& s1.local_recursive == s0.local_recursive
        &&& s1.quit_armed == s0.quit_armed
        &&& s1.status == s0.status
        &&& s1.split_percent == s0.split_percent
        &&& s1.split_dragging == s0.split_dragging
        &&& query_of(s1, s0.focus) == q1
        &&& s1.local_cursor == (if reset && s0.focus == FocusPane::Local {
            ListCursor { index: 0, hscroll: 0 }
        } else {
            s0.local_cursor
        })
        &&& s1.gist_cursor == (if reset && s0.focus == FocusPane::Gist {
            ListCursor { index: 0, hscroll: 0 }
        } else {
            s0.gist_cursor
        })
        &&& match s0.focus {
            FocusPane::Local => s1.filter_query == s0.filter_query,
            FocusPane::Gist => s1.local_filter_query == s0.local_filter_query,
        }
    }
}

/// A key while the List screen's filter is typed. `Up`/`Down` and the page keys move the
/// focused pane's selection as they do outside the filter; `Tab` keeps the filter, stops typing and switches pane; `Esc`
/// clears the focused pane's filter, stops typing and brings the pane back to its top row;
/// `Enter` keeps the filter and stops; `Backspace` on an empty filter stops; any other key
/// edits the focused pane's filter, the pane going back to its top row when the text changed.
pub fn handle_key_filter(s: &mut ListScreen, key: Key, local_rows: usize, gist_rows: usize)
    requires
        old(s).filtering,
        old(s).local_filter_query.well_formed(),
        old(s).filter_query.well_formed(),
        old(s).local_filter_query.text_view().len() < usize::MAX,
        old(s).filter_query.text_view().len() < usize::MAX,
    ensures
        final(s).local_filter_query.well_formed(),
        final(s).filter_query.well_formed(),
        filter_key_effect(*old(s), *final(s), key, local_rows as int, gist_rows as int),
{
    if key == Key::Up || key == Key::Down || key == Key::PageUp || key == Key::PageDown {
        let action = if key == Key::Up {
            NavAction::Up
        } else if key == Key::Down {
            NavAction::Down
        } else if key == Key::PageUp {
            NavAction::PageUp
        } else {
            NavAction::PageDown
        };
        apply_navigation_list(s, action, local_rows, gist_rows, 0);
        return;
    }
    if key == Key::Tab {
        s.filtering = false;
        s.focus = match s.focus {
            FocusPane::Local => FocusPane::Gist,
            FocusPane::Gist => FocusPane::Local,
        };
        return;
    }
    let focus = s.focus;
    let mut cursor = match focus {
        FocusPane::Local => s.local_cursor,
        FocusPane::Gist => s.gist_cursor,
    };
    let mut filtering = true;
    match focus {
        FocusPane::Local => handle_inline_filter_key(
            &mut cursor,
            &mut s.local_filter_query,
            &mut filtering,
            local_rows,
            key,
        ),
        FocusPane::Gist => handle_inline_filter_key(
            &mut cursor,
            &mut s.filter_query,
            &mut filtering,
            gist_rows,
            key,
        ),
    }
    s.filtering = filtering;
    match focus {
        FocusPane::Local => s.local_cursor = cursor,
        FocusPane::Gist => s.gist_cursor = cursor,
    }
}

// ---------------------------------------------------------------------------------------------
// Laws
// ---------------------------------------------------------------------------------------------

/// The outcome performs the key's row action (as opposed to doing nothing or explaining why
/// it cannot).
pub open spec fn acts(v: ListOutcomeView) -> bool {
    match v {
        ListOutcomeView::Nothing => false,
        ListOutcomeView::PreviewBlocked(..) => false,
        ListOutcomeView::DiffBlocked(..) => false,
        ListOutcomeView::ForeignBlocked(..) => false,
        _ => true,
    }
}

/// The keys whose action the handler gates on the shared guard.
pub open spec fn is_guarded_key(key: Key) -> bool {
    key == Key::Enter || key == Key::Char(' ') || key == Key::Char('d') || key == Key::Char('H')
        || key == Key::Char('e') || key == Key::Char('X') || key == Key::Char('p') || key
        == Key::Char('n') || key == Key::Char('S') || key == Key::Char('y') || key == Key::Char(
        'u',
    ) || key == Key::Char('g')
}

/// The handler and the guard never drift apart: for every key the handler gates, the key
/// performs its action exactly when the guard says it would do something.
pub proof fn law_guarded_keys_act_iff_guard(s: ListScreen, sel: ListSelection, key: Key)
    requires
        is_guarded_key(key),
    ensures
        acts(list_key_spec(s, sel, key).2) == list_guard_spec(sel, s.focus, key),
{
}

/// Quitting takes two presses: from a disarmed screen the first `q` or `Esc` only arms the
/// quit (and says so), and a second one quits.
pub proof fn law_quit_takes_two_presses(s: ListScreen, sel: ListSelection, first: Key, second: Key)
    requires
        !s.quit_armed,
        first == Key::Char('q') || first == Key::Esc,
        second == Key::Char('q') || second == Key::Esc,
    ensures
        list_key_spec(s, sel, first).2 == ListOutcomeView::Nothing,
        list_key_spec(s, sel, first).0.quit_armed,
        list_key_spec(s, sel, first).1 == Some(quit_hint_text()),
        list_key_spec(list_key_spec(s, sel, first).0, sel, second).2 == ListOutcomeView::Quit,
{
}

/// Any other key disarms a pending quit and never quits.
pub proof fn law_other_keys_disarm_quit(s: ListScreen, sel: ListSelection, key: Key)
    requires
        key != Key::Char('q'),
        key != Key::Esc,
    ensures
        !list_key_spec(s, sel, key).0.quit_armed,
        list_key_spec(s, sel, key).2 != ListOutcomeView::Quit,
{
}

/// `Tab` twice puts the focus back; so does `t` twice for the gist view and `a` twice for the
/// anchor.
pub proof fn law_toggles_undo_themselves(s: ListScreen, sel: ListSelection, key: Key)
    requires
        key == Key::Tab || key == Key::Char('t') || key == Key::Char('a'),
    ensures
        ({
            let twice = list_key_spec(list_key_spec(s, sel, key).0, sel, key).0;
            &&& twice.focus == s.focus
            &&& twice.gist_view == s.gist_view
            &&& twice.anchor == s.anchor
        }),
{
}

} // verus!
