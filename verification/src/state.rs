//! The application state the screens share: which screen is up, its per-screen state, the
//! one-shot status line, and the handlers that apply background results to it.

use vstd::prelude::*;
use crate::confirm::PendingAction;
use crate::domain::{GistComment, GistRevision};
use crate::config_screen::ConfigState;
use crate::gists_screen::GistsState;
use crate::help::HelpState;
use crate::palette_screen::PaletteState;
use crate::pins_screen::PinsState;
use crate::preview::PreviewState;
use crate::scroll::ScrollBody;
use crate::text::{line_stats, lines_of, owned, push_str, str_eq};

verus! {

/// Which tab of the gist detail screen has the focus.
#[derive(Debug, Clone, Copy, PartialEq, Eq, Structural)]
pub enum DetailFocus {
    Files,
    Comments,
}

/// State of the gist detail screen: its file list, its comment thread and how far the thread
/// has been paged back.
#[derive(Debug, Clone, PartialEq, Eq)]
pub struct DetailState {
    pub gist_id: Option<String>,
    pub focus: DetailFocus,
    pub file_cursor: usize,
    pub scroll: u16,
    pub comments: Option<Vec<GistComment>>,
    pub comments_loading: bool,
    pub comments_error: Option<String>,
    pub comments_total: Option<u32>,
    /// The oldest comments page loaded so far (pages count from 1; 0 when none is loaded).
    pub comments_loaded_oldest_page: u32,
    pub comments_loading_more: bool,
    pub comments_scroll_to_bottom: bool,
}

/// A fresh detail screen: no gist, the Files tab, nothing loaded.
pub open spec fn fresh_detail(d: DetailState) -> bool {
    &&& d.gist_id.is_none()
    &&& d.focus == DetailFocus::Files
    &&& d.file_cursor == 0
    &&& d.scroll == 0
    &&& d.comments.is_none()
    &&& !d.comments_loading
    &&& d.comments_error.is_none()
    &&& d.comments_total.is_none()
    &&& d.comments_loaded_oldest_page == 0
    &&& !d.comments_loading_more
    &&& !d.comments_scroll_to_bottom
}

impl DetailState {
    /// A detail screen with no gist loaded.
    pub fn new() -> (d: DetailState)
        ensures
            fresh_detail(d),
    {
        DetailState {
            gist_id: None,
            focus: DetailFocus::Files,
            file_cursor: 0,
            scroll: 0,
            comments: None,
            comments_loading: false,
            comments_error: None,
            comments_total: None,
            comments_loaded_oldest_page: 0,
            comments_loading_more: false,
            comments_scroll_to_bottom: false,
        }
    }

    /// The comments loaded so far, oldest first (empty when none is loaded).
    pub open spec fn comments_view(&self) -> Seq<GistComment> {
        match self.comments {
            Some(v) => v@,
            None => Seq::empty(),
        }
    }
}

impl Default for DetailState {
    fn default() -> (d: DetailState)
        ensures
            fresh_detail(d),
    {
        DetailState::new()
    }
}

/// The result of the initial newest-first comment load: the newest page plus the metadata
/// needed to page backwards.
#[derive(Debug, Clone, PartialEq, Eq)]
pub struct InitialComments {
    pub comments: Vec<GistComment>,
    pub total: u32,
    pub oldest_page: u32,
}

/// A list cursor: the selected row and how far that row is scrolled sideways.
#[derive(Debug, Clone, Copy, PartialEq, Eq, Structural)]
pub struct ListCursor {
    pub index: usize,
    pub hscroll: u16,
}

impl ListCursor {
    /// The first row, unscrolled.
    pub fn new() -> (c: ListCursor)
        ensures
            c.index == 0,
            c.hscroll == 0,
    {
        ListCursor { index: 0, hscroll: 0 }
    }

    /// Pull the cursor back onto the last row of a list of `len` rows (row 0 when empty).
    pub fn clamp_len(&mut self, len: usize)
        ensures
            final(self).hscroll == old(self).hscroll,
            final(self).index == (if len == 0 {
                0
            } else if old(self).index >= len {
                (len - 1) as usize
            } else {
                old(self).index
            }),
    {
        if len == 0 {
            self.index = 0;
        } else if self.index >= len {
            self.index = len - 1;
        }
    }

    /// Select row `index`, showing it from its start.
    pub fn select(&mut self, index: usize)
        ensures
            final(self).index == index,
            final(self).hscroll == 0,
    {
        self.index = index;
        self.hscroll = 0;
    }
}

impl Default for ListCursor {
    fn default() -> (c: ListCursor)
        ensures
            c.index == 0,
            c.hscroll == 0,
    {
        ListCursor::new()
    }
}

/// State of the Revisions screen.
#[derive(Debug, Clone, PartialEq, Eq)]
pub struct RevisionState {
    pub gist_id: Option<String>,
    pub target_file: String,
    pub entries: Option<Vec<GistRevision>>,
    pub fetch_error: Option<String>,
    pub cursor: ListCursor,
}

impl RevisionState {
    /// A Revisions screen for no gist, nothing fetched.
    pub fn new() -> (r: RevisionState)
        ensures
            r.gist_id.is_none(),
            r.target_file@.len() == 0,
            r.entries.is_none(),
            r.fetch_error.is_none(),
            r.cursor.index == 0,
            r.cursor.hscroll == 0,
    {
        RevisionState {
            gist_id: None,
            target_file: String::new(),
            entries: None,
            fetch_error: None,
            cursor: ListCursor::new(),
        }
    }
}

impl Default for RevisionState {
    fn default() -> (r: RevisionState)
        ensures
            r.gist_id.is_none(),
            r.target_file@.len() == 0,
            r.entries.is_none(),
            r.fetch_error.is_none(),
            r.cursor.index == 0,
            r.cursor.hscroll == 0,
    {
        RevisionState::new()
    }
}

/// A confirm modal that is up: the action it would perform and the text behind it.
#[derive(Debug, Clone, PartialEq, Eq)]
pub struct ConfirmState {
    pub action: PendingAction,
    pub body: ScrollBody,
}

/// The Diff screen: the diff text, and what the two sides came from.
#[derive(Debug, Clone, PartialEq, Eq)]
pub struct DiffState {
    pub body: ScrollBody,
    /// The gist side's content, as fetched.
    pub remote_content: String,
    /// The local side's path (empty when there is no local file).
    pub local_path: String,
    /// Where a download of the gist side would be written.
    pub download_target: String,
    /// The two sides hold the same content.
    pub identical: bool,
    pub gist_id: Option<String>,
    pub gist_filename: Option<String>,
}

/// The screen on display, with its own state.
#[derive(Debug, Clone, PartialEq, Eq)]
pub enum Screen {
    List,
    GistDetail(DetailState),
    Revisions(RevisionState),
    Confirm(ConfirmState),
    Diff(DiffState),
    /// The gist manager.
    Gists(GistsState),
    /// The pinned mappings.
    Pins(PinsState),
    /// A gist file's content.
    Preview(PreviewState),
    /// The settings panel.
    Config(ConfigState),
    /// The help page, on the topic it shows.
    Help(HelpState),
    /// The command palette, over the screen below it.
    Palette(PaletteState),
}

/// Everything the screens share.
#[derive(Debug, Clone, PartialEq, Eq)]
pub struct AppState {
    pub screen: Screen,
    /// One-shot status message shown in place of the footer hints.
    pub status: Option<String>,
    /// The gist list is out of date and wants a refetch.
    pub gist_list_stale: bool,
    /// The gist whose revision history wants a refetch, if any.
    pub revisions_stale: Option<String>,
    /// The screens to go back to, the most recent last.
    pub nav_stack: Vec<Screen>,
}

/// The state at start-up: the List screen, nothing pending.
pub fn initial_state() -> (s: AppState)
    ensures
        s.screen == Screen::List,
        s.status.is_none(),
        !s.gist_list_stale,
        s.revisions_stale.is_none(),
        s.nav_stack@.len() == 0,
{
    AppState {
        screen: Screen::List,
        status: None,
        gist_list_stale: false,
        revisions_stale: None,
        nav_stack: Vec::new(),
    }
}

/// `s1` is `s0` after going back: to the screen last opened over, or to the List screen when
/// there is none; nothing else changes.
pub open spec fn went_back(s0: AppState, s1: AppState) -> bool {
    &&& if s0.nav_stack@.len() > 0 {
        &&& s1.screen == s0.nav_stack@.last()
        &&& s1.nav_stack@ == s0.nav_stack@.drop_last()
    } else {
        &&& s1.screen == Screen::List
        &&& s1.nav_stack@.len() == 0
    }
    &&& s1.status == s0.status
    &&& s1.gist_list_stale == s0.gist_list_stale
    &&& s1.revisions_stale == s0.revisions_stale
}

/// The detail screen's state when it is the one on display.
pub open spec fn detail_of(screen: Screen) -> Option<DetailState> {
    match screen {
        Screen::GistDetail(d) => Some(d),
        _ => None,
    }
}

/// The Revisions screen's state when it is the one on display.
pub open spec fn revision_of(screen: Screen) -> Option<RevisionState> {
    match screen {
        Screen::Revisions(r) => Some(r),
        _ => None,
    }
}

/// Whether `id` names the gist `d` shows.
pub open spec fn shows_gist(d: DetailState, id: Seq<char>) -> bool {
    match d.gist_id {
        Some(g) => g@ == id,
        None => false,
    }
}

/// Lines a comment takes in the thread: an author header, its body's lines, a blank.
pub open spec fn comment_lines(c: GistComment) -> int {
    2 + lines_of(c.body@).len() as int
}

/// Lines a run of comments takes in the thread.
pub open spec fn comments_lines(cs: Seq<GistComment>) -> int
    decreases cs.len(),
{
    if cs.len() == 0 {
        0
    } else {
        comments_lines(cs.drop_last()) + comment_lines(cs.last())
    }
}

/// `n` saturated into `u16`.
pub open spec fn sat_u16(n: int) -> u16 {
    if n > u16::MAX {
        u16::MAX
    } else if n < 0 {
        0
    } else {
        n as u16
    }
}

proof fn lemma_comments_lines_nonneg(cs: Seq<GistComment>)
    ensures
        comments_lines(cs) >= 2 * cs.len(),
    decreases cs.len(),
{
    if cs.len() > 0 {
        lemma_comments_lines_nonneg(cs.drop_last());
    }
}

/// Rendered line count of a comment thread (each comment: author header + body lines + a
/// blank separator), saturating at `u16::MAX`.
pub fn comment_lines_count(comments: &[GistComment]) -> (n: u16)
    ensures
        n == sat_u16(comments_lines(comments@)),
{
    let mut total: u16 = 0;
    let mut i: usize = 0;
    while i < comments.len()
        invariant
            i <= comments@.len(),
            total == sat_u16(comments_lines(comments@.take(i as int))),
        decreases comments@.len() - i,
    {
        let (body_lines, _) = line_stats(comments[i].body.as_str());
        proof {
            assert(comments@.take(i + 1).drop_last() =~= comments@.take(i as int));
            lemma_comments_lines_nonneg(comments@.take(i as int));
        }
        let per = if body_lines > 65533 {
            u16::MAX
        } else {
            (body_lines + 2) as u16
        };
        total = total.saturating_add(per);
        i = i + 1;
    }
    assert(comments@.take(comments@.len() as int) =~= comments@);
    total
}

/// Whether a "load older" action is on offer for `d`: comments are loaded, an older page
/// exists, and no load is in flight.
pub open spec fn can_load_older(d: DetailState) -> bool {
    d.comments.is_some() && d.comments_loaded_oldest_page > 1 && !d.comments_loading_more
        && !d.comments_loading
}

/// `d` with its comment pagination reset: nothing loaded, nothing in flight.
pub open spec fn reset_pagination(d: DetailState) -> DetailState {
    DetailState {
        comments: None,
        comments_loading: false,
        comments_error: None,
        comments_total: None,
        comments_loaded_oldest_page: 0,
        comments_loading_more: false,
        comments_scroll_to_bottom: false,
        ..d
    }
}

/// `d` after the initial newest-page load answered with `result`.
pub open spec fn with_initial_comments(d: DetailState, result: Result<InitialComments, String>) -> DetailState {
    match result {
        Ok(init) => DetailState {
            comments_loading: false,
            comments_total: Some(init.total),
            comments_loaded_oldest_page: init.oldest_page,
            comments: Some(init.comments),
            comments_scroll_to_bottom: true,
            ..d
        },
        Err(e) => DetailState { comments_loading: false, comments_error: Some(e), ..d },
    }
}

/// The oldest page loaded after one more older page arrived: one less, but never below 1.
pub open spec fn page_after_older(page: u32) -> u32 {
    if page <= 2 {
        1
    } else {
        (page - 1) as u32
    }
}

/// `d` after a "load older" page answered with `result`: the page goes in front of what is
/// loaded, the scroll moves down by the lines it added so the viewport holds still.
pub open spec fn with_older_comments(d: DetailState, result: Result<Vec<GistComment>, String>) -> DetailState {
    match result {
        Ok(older) => DetailState {
            comments_loading_more: false,
            comments: Some(older),
            comments_loaded_oldest_page: page_after_older(d.comments_loaded_oldest_page),
            scroll: sat_u16(d.scroll + sat_u16(comments_lines(older@))),
            ..d
        },
        Err(e) => DetailState { comments_loading_more: false, comments_error: Some(e), ..d },
    }
}

impl AppState {
    /// The gist detail screen's state, when that screen is up.
    pub fn detail(&self) -> (r: Option<&DetailState>)
        ensures
            r matches Some(d) ==> detail_of(self.screen) == Some(*d),
            r is None <==> detail_of(self.screen) is None,
    {
        match &self.screen {
            Screen::GistDetail(d) => Some(d),
            _ => None,
        }
    }

    /// The Revisions screen's state, when that screen is up.
    pub fn revision(&self) -> (r: Option<&RevisionState>)
        ensures
            r matches Some(v) ==> revision_of(self.screen) == Some(*v),
            r is None <==> revision_of(self.screen) is None,
    {
        match &self.screen {
            Screen::Revisions(v) => Some(v),
            _ => None,
        }
    }

    /// Whether a confirm modal is up.
    pub fn is_confirm(&self) -> (r: bool)
        ensures
            r == (self.screen is Confirm),
    {
        match &self.screen {
            Screen::Confirm(_) => true,
            _ => false,
        }
    }

    /// The action the confirm modal that is up would perform.
    pub fn pending_action(&self) -> (r: Option<&PendingAction>)
        ensures
            r matches Some(a) ==> self.screen matches Screen::Confirm(c) && c.action == *a,
            r is None <==> !(self.screen is Confirm),
    {
        match &self.screen {
            Screen::Confirm(c) => Some(&c.action),
            _ => None,
        }
    }

    /// Whether the Diff screen is up.
    pub fn is_diff(&self) -> (r: bool)
        ensures
            r == (self.screen is Diff),
    {
        match &self.screen {
            Screen::Diff(_) => true,
            _ => false,
        }
    }

    /// The Diff screen's state, when that screen is up.
    pub fn diff(&self) -> (r: Option<&DiffState>)
        ensures
            r matches Some(d) ==> self.screen == Screen::Diff(*d),
            r is None <==> !(self.screen is Diff),
    {
        match &self.screen {
            Screen::Diff(d) => Some(d),
            _ => None,
        }
    }

    /// Open the Diff screen on `text`, scrolled to the top, for a gist side holding
    /// `remote`, a local side at `local_path`, and a download that would go to `target`.
    pub fn enter_diff(&mut self, text: String, remote: String, local_path: String, target: String)
        ensures
            final(self).screen == Screen::Diff(
                DiffState {
                    body: ScrollBody { text, scroll: 0, hscroll: 0 },
                    remote_content: remote,
                    local_path,
                    download_target: target,
                    identical: false,
                    gist_id: None,
                    gist_filename: None,
                },
            ),
            final(self).status == old(self).status,
            final(self).gist_list_stale == old(self).gist_list_stale,
            final(self).revisions_stale == old(self).revisions_stale,
            final(self).nav_stack == old(self).nav_stack,
    {
        self.screen = Screen::Diff(
            DiffState {
                body: ScrollBody { text, scroll: 0, hscroll: 0 },
                remote_content: remote,
                local_path,
                download_target: target,
                identical: false,
                gist_id: None,
                gist_filename: None,
            },
        );
    }

    /// Return to the List screen, dropping whatever the screen on display held (a diff and
    /// its two sides, a confirm, a detail view) and the way back: the List is where every
    /// way back ends.
    pub fn back_to_list(&mut self)
        ensures
            final(self).screen == Screen::List,
            final(self).nav_stack@.len() == 0,
            final(self).status == old(self).status,
            final(self).gist_list_stale == old(self).gist_list_stale,
            final(self).revisions_stale == old(self).revisions_stale,
    {
        self.screen = Screen::List;
        self.nav_stack = Vec::new();
    }

    /// Go back to the screen this one was opened over, or to the List screen when there is
    /// none to go back to (see [`went_back`]).
    pub fn leave(&mut self)
        ensures
            went_back(*old(self), *final(self)),
    {
        match self.nav_stack.pop() {
            Some(previous) => {
                self.screen = previous;
            },
            None => {
                self.screen = Screen::List;
            },
        }
    }

    /// Whether a diff preview is on display.
    pub fn diff_previewed(&self) -> (r: bool)
        ensures
            r == (self.screen is Diff),
    {
        self.is_diff()
    }

    /// The gist side of the diff on display (empty when none is).
    pub fn preview_remote(&self) -> (r: &str)
        ensures
            r@ == (match self.screen {
                Screen::Diff(d) => d.remote_content@,
                _ => Seq::<char>::empty(),
            }),
    {
        match &self.screen {
            Screen::Diff(d) => d.remote_content.as_str(),
            _ => {
                proof {
                    reveal_strlit("");
                }
                ""
            },
        }
    }

    /// The local side's path of the diff on display (empty when none is).
    pub fn preview_local(&self) -> (r: &str)
        ensures
            r@ == (match self.screen {
                Screen::Diff(d) => d.local_path@,
                _ => Seq::<char>::empty(),
            }),
    {
        match &self.screen {
            Screen::Diff(d) => d.local_path.as_str(),
            _ => {
                proof {
                    reveal_strlit("");
                }
                ""
            },
        }
    }

    /// Where a download from the diff on display would be written (empty when none is).
    pub fn download_target(&self) -> (r: &str)
        ensures
            r@ == (match self.screen {
                Screen::Diff(d) => d.download_target@,
                _ => Seq::<char>::empty(),
            }),
    {
        match &self.screen {
            Screen::Diff(d) => d.download_target.as_str(),
            _ => {
                proof {
                    reveal_strlit("");
                }
                ""
            },
        }
    }

    /// The scrollable text of the Diff screen or of a confirm modal, when one is up.
    pub fn scroll_body(&self) -> (r: Option<&ScrollBody>)
        ensures
            r == (match self.screen {
                Screen::Diff(d) => Some(&d.body),
                Screen::Confirm(c) => Some(&c.body),
                _ => None,
            }),
    {
        match &self.screen {
            Screen::Diff(d) => Some(&d.body),
            Screen::Confirm(c) => Some(&c.body),
            _ => None,
        }
    }

    /// Show `message` in place of the footer hints until the next key.
    pub fn set_status(&mut self, message: String)
        ensures
            final(self).status == Some(message),
            final(self).screen == old(self).screen,
            final(self).gist_list_stale == old(self).gist_list_stale,
            final(self).revisions_stale == old(self).revisions_stale,
            final(self).nav_stack == old(self).nav_stack,
    {
        self.status = Some(message);
    }

    /// Reset comment-pagination state (called when (re)opening a gist detail or switching
    /// the loaded gist), so a fresh Tab re-fetches from the newest page.
    pub fn reset_comment_pagination(&mut self)
        ensures
            final(self).screen == (match old(self).screen {
                Screen::GistDetail(d) => Screen::GistDetail(reset_pagination(d)),
                other => other,
            }),
            final(self).status == old(self).status,
            final(self).gist_list_stale == old(self).gist_list_stale,
            final(self).revisions_stale == old(self).revisions_stale,
            final(self).nav_stack == old(self).nav_stack,
    {
        match &mut self.screen {
            Screen::GistDetail(d) => {
                d.comments = None;
                d.comments_loading = false;
                d.comments_error = None;
                d.comments_total = None;
                d.comments_loaded_oldest_page = 0;
                d.comments_loading_more = false;
                d.comments_scroll_to_bottom = false;
            },
            _ => {},
        }
    }

    /// Apply the initial newest-page load. Ignored if the user navigated to another gist
    /// (stale response). On success, requests a one-shot scroll-to-bottom so the newest
    /// comment is visible.
    pub fn apply_initial_comments(&mut self, gist_id: &str, result: Result<InitialComments, String>)
        ensures
            final(self).screen == (match old(self).screen {
                Screen::GistDetail(d) => if shows_gist(d, gist_id@) {
                    Screen::GistDetail(with_initial_comments(d, result))
                } else {
                    Screen::GistDetail(d)
                },
                other => other,
            }),
            final(self).status == old(self).status,
            final(self).gist_list_stale == old(self).gist_list_stale,
            final(self).revisions_stale == old(self).revisions_stale,
            final(self).nav_stack == old(self).nav_stack,
    {
        match &mut self.screen {
            Screen::GistDetail(d) => {
                let same = match &d.gist_id {
                    Some(id) => str_eq(id.as_str(), gist_id),
                    None => false,
                };
                if !same {
                    return;
                }
                d.comments_loading = false;
                match result {
                    Ok(init) => {
                        d.comments_total = Some(init.total);
                        d.comments_loaded_oldest_page = init.oldest_page;
                        d.comments = Some(init.comments);
                        d.comments_scroll_to_bottom = true;
                    },
                    Err(error) => {
                        d.comments_error = Some(error);
                    },
                }
            },
            _ => {},
        }
    }

    /// Apply a "load older" page: prepend it (older comments sort first) and bump the detail
    /// scroll by the prepended line count so the viewport stays put. Ignored on a stale gist.
    pub fn apply_older_comments(&mut self, gist_id: &str, result: Result<Vec<GistComment>, String>)
        ensures
            match (old(self).screen, final(self).screen) {
                (Screen::GistDetail(d0), Screen::GistDetail(d1)) => if shows_gist(d0, gist_id@) {
                    match result {
                        Ok(older) => {
                            &&& d1.comments_view() == older@ + d0.comments_view()
                            &&& d1.comments is Some
                            &&& d1 == DetailState { comments: d1.comments, ..with_older_comments(d0, result) }
                        },
                        Err(_) => d1 == with_older_comments(d0, result),
                    }
                } else {
                    d1 == d0
                },
                (s0, s1) => s0 == s1 && detail_of(s0) is None,
            },
            final(self).status == old(self).status,
            final(self).gist_list_stale == old(self).gist_list_stale,
            final(self).revisions_stale == old(self).revisions_stale,
            final(self).nav_stack == old(self).nav_stack,
    {
        match &mut self.screen {
            Screen::GistDetail(d) => {
                let same = match &d.gist_id {
                    Some(id) => str_eq(id.as_str(), gist_id),
                    None => false,
                };
                if !same {
                    return;
                }
                d.comments_loading_more = false;
                match result {
                    Ok(older) => {
                        let added = comment_lines_count(older.as_slice());
                        let mut merged = older;
                        let ghost front = merged@;
                        let ghost prev = d.comments_view();
                        match d.comments.take() {
                            Some(mut existing) => {
                                merged.append(&mut existing);
                            },
                            None => {},
                        }
                        assert(merged@ =~= front + prev);
                        d.comments = Some(merged);
                        let page = d.comments_loaded_oldest_page;
                        d.comments_loaded_oldest_page = if page <= 2 {
                            1
                        } else {
                            page - 1
                        };
                        d.scroll = d.scroll.saturating_add(added);
                    },
                    Err(error) => {
                        d.comments_error = Some(error);
                    },
                }
            },
            _ => {},
        }
    }

    /// Whether a "load older" action should be offered: comments are loaded, an older page
    /// exists, and no load is already in flight.
    pub fn can_load_older_comments(&self) -> (r: bool)
        ensures
            r == (match detail_of(self.screen) {
                Some(d) => can_load_older(d),
                None => false,
            }),
    {
        match &self.screen {
            Screen::GistDetail(d) => d.comments.is_some() && d.comments_loaded_oldest_page > 1
                && !d.comments_loading_more && !d.comments_loading,
            _ => false,
        }
    }
}

impl AppState {
    /// The gist the current screen is about, if any: the detail screen's gist, or the gist
    /// whose history the Revisions screen shows.
    pub fn context_gist_id(&self) -> (r: Option<String>)
        ensures
            r == (match self.screen {
                Screen::GistDetail(d) => d.gist_id,
                Screen::Revisions(v) => v.gist_id,
                _ => None,
            }),
    {
        match &self.screen {
            Screen::GistDetail(d) => d.gist_id.clone(),
            Screen::Revisions(v) => v.gist_id.clone(),
            _ => None,
        }
    }
}

/// Rows a mouse-wheel tick moves on the detail screen: three lines of the comment thread, or
/// one file of the file list.
pub fn wheel_step(state: &AppState) -> (n: usize)
    ensures
        n == (if detail_of(state.screen) matches Some(d) && d.focus == DetailFocus::Comments {
            3usize
        } else {
            1usize
        }),
{
    match &state.screen {
        Screen::GistDetail(d) => match d.focus {
            DetailFocus::Comments => 3,
            DetailFocus::Files => 1,
        },
        _ => 1,
    }
}

/// The Files|Comments tab index for `focus`; Files, the default tab, comes first.
pub fn detail_focus_tab(focus: DetailFocus) -> (i: usize)
    ensures
        i == (match focus {
            DetailFocus::Files => 0usize,
            DetailFocus::Comments => 1usize,
        }),
{
    match focus {
        DetailFocus::Files => 0,
        DetailFocus::Comments => 1,
    }
}

/// After a reset of the comment pagination no "load older" is on offer.
pub proof fn law_reset_offers_no_older_page(d: DetailState)
    ensures
        !can_load_older(reset_pagination(d)),
        reset_pagination(d).comments_view().len() == 0,
{
}

/// Paging back never goes below page 1 and always moves back while an older page exists:
/// from page `p`, `p - 1` older pages reach page 1, where no older page is on offer.
pub proof fn law_paging_back_ends_at_page_one(d: DetailState, older: Vec<GistComment>)
    ensures
        with_older_comments(d, Ok(older)).comments_loaded_oldest_page >= 1,
        d.comments_loaded_oldest_page > 1 ==> with_older_comments(
            d,
            Ok(older),
        ).comments_loaded_oldest_page == d.comments_loaded_oldest_page - 1,
        d.comments_loaded_oldest_page <= 2 ==> !can_load_older(with_older_comments(d, Ok(older))),
        !with_older_comments(d, Ok(older)).comments_loading_more,
{
}

/// A first page loaded for the shown gist offers an older page exactly when its oldest page
/// is past the first and nothing else is loading.
pub proof fn law_first_page_offers_older_iff_more_pages(d: DetailState, init: InitialComments)
    ensures
        can_load_older(with_initial_comments(d, Ok(init))) == (init.oldest_page > 1
            && !d.comments_loading_more),
        with_initial_comments(d, Ok(init)).comments_scroll_to_bottom,
{
}

} // verus!
