//! The read-only preview of a gist file: its title, its scrollable body, the keys it
//! answers, and how a fetched file lands in it.

use vstd::prelude::*;
use crate::chrome::footer_with_status;
use crate::content_cache::{without_spec, CachedFile, ContentCache};
use crate::domain::GistGroup;
use crate::keys::{Key, NavAction, PAGE_SCROLL};
use crate::revisions::LoopFlow;
use crate::scroll::{
    down_spec, left_spec, page_down_spec, page_up_spec, right_spec, up_spec, ScrollBody,
};
use crate::text::{owned, push_str, trim};

verus! {

/// Rows a mouse-wheel tick scrolls a preview.
pub fn wheel_step() -> (n: usize)
    ensures
        n == 3,
{
    3
}

/// The body after a navigation move: lines and pages vertically, characters sideways.
pub open spec fn scroll_nav_spec(b: ScrollBody, action: NavAction) -> ScrollBody {
    match action {
        NavAction::Down => down_spec(b),
        NavAction::Up => up_spec(b),
        NavAction::PageDown => page_down_spec(b, PAGE_SCROLL),
        NavAction::PageUp => page_up_spec(b, PAGE_SCROLL),
        NavAction::Right => right_spec(b),
        NavAction::Left => left_spec(b),
    }
}

/// Navigation on a scrollable body (diff, confirm, preview).
pub fn scroll_navigation(body: &mut ScrollBody, action: NavAction)
    ensures
        *final(body) == scroll_nav_spec(*old(body), action),
{
    match action {
        NavAction::Down => body.down(),
        NavAction::Up => body.up(),
        NavAction::PageDown => body.page_down(PAGE_SCROLL),
        NavAction::PageUp => body.page_up(PAGE_SCROLL),
        NavAction::Right => body.right(),
        NavAction::Left => body.left(),
    }
}

/// The preview screen's state: title, body, and the gist file it shows (id, file name).
#[derive(Debug, Clone, PartialEq, Eq)]
pub struct PreviewState {
    pub title: String,
    pub body: ScrollBody,
    pub gist_key: Option<(String, String)>,
}

/// The preview title: the gist's description (its id when the description is blank or the
/// gist is unknown) and the file name.
pub open spec fn preview_title_spec(group: Option<GistGroup>, gist_id: Seq<char>, filename: Seq<char>) -> Seq<char> {
    "Preview: "@ + (match group {
        Some(g) => if trim(g.description@).len() == 0 {
            "Gist "@ + gist_id
        } else {
            g.description@
        },
        None => "Gist "@ + gist_id,
    }) + " / "@ + filename
}

/// Title of the preview of `filename` from gist `gist_id` (`group` when it is known).
pub fn preview_title(group: Option<&GistGroup>, gist_id: &str, filename: &str) -> (s: String)
    ensures
        s@ == preview_title_spec(
            match group {
                Some(g) => Some(*g),
                None => None,
            },
            gist_id@,
            filename@,
        ),
{
    let mut s = owned("Preview: ");
    let described = match group {
        Some(g) => !crate::text::is_blank(g.description.as_str()),
        None => false,
    };
    if described {
        match group {
            Some(g) => push_str(&mut s, g.description.as_str()),
            None => {},
        }
    } else {
        push_str(&mut s, "Gist ");
        push_str(&mut s, gist_id);
    }
    push_str(&mut s, " / ");
    push_str(&mut s, filename);
    s
}

/// What a key on the preview asks the rest of the program to do.
#[derive(Debug, Clone, PartialEq, Eq)]
pub enum PreviewAction {
    Nothing,
    Leave,
    RefreshPreview { gist_id: String, filename: String },
    CopyGistUrl { gist_id: String },
    CopyPreviewContent,
}

/// The preview session: its state, the wrap toggle and the status line.
pub struct PreviewSession {
    pub preview: PreviewState,
    pub wrap: bool,
    pub status: Option<String>,
}

/// Keys on the preview (any key first clears the status): `q`/Esc leave, `R` re-fetches the
/// file, `w` toggles wrapping, `y` copies the gist's URL (`context_gist` when the preview is
/// not tied to a file), `Y` copies the content.
pub fn handle_key_preview(s: &mut PreviewSession, key: Key, context_gist: Option<&str>) -> (a: PreviewAction)
    ensures
        final(s).status.is_none(),
        final(s).preview == old(s).preview,
        final(s).wrap == (if key == Key::Char('w') {
            !old(s).wrap
        } else {
            old(s).wrap
        }),
        (key == Key::Char('q') || key == Key::Esc) ==> a == PreviewAction::Leave,
        key == Key::Char('R') ==> match old(s).preview.gist_key {
            Some((id, name)) => a == (PreviewAction::RefreshPreview { gist_id: id, filename: name }),
            None => a == PreviewAction::Nothing,
        },
        key == Key::Char('y') ==> match old(s).preview.gist_key {
            Some((id, _)) => a == (PreviewAction::CopyGistUrl { gist_id: id }),
            None => match context_gist {
                Some(c) => a matches PreviewAction::CopyGistUrl { gist_id } && gist_id@ == c@,
                None => a == PreviewAction::Nothing,
            },
        },
        key == Key::Char('Y') ==> a == PreviewAction::CopyPreviewContent,
        !(key == Key::Char('q') || key == Key::Esc || key == Key::Char('R') || key == Key::Char('y')
            || key == Key::Char('Y')) ==> a == PreviewAction::Nothing,
{
    s.status = None;
    match key {
        Key::Esc => PreviewAction::Leave,
        Key::Char(c) => if c == 'q' {
            PreviewAction::Leave
        } else if c == 'R' {
            match &s.preview.gist_key {
                Some((id, name)) => PreviewAction::RefreshPreview {
                    gist_id: id.clone(),
                    filename: name.clone(),
                },
                None => PreviewAction::Nothing,
            }
        } else if c == 'w' {
            s.wrap = !s.wrap;
            PreviewAction::Nothing
        } else if c == 'y' {
            match &s.preview.gist_key {
                Some((id, _)) => PreviewAction::CopyGistUrl { gist_id: id.clone() },
                None => match context_gist {
                    Some(c) => PreviewAction::CopyGistUrl { gist_id: owned(c) },
                    None => PreviewAction::Nothing,
                },
            }
        } else if c == 'Y' {
            PreviewAction::CopyPreviewContent
        } else {
            PreviewAction::Nothing
        },
        _ => PreviewAction::Nothing,
    }
}

/// The preview's footer hints: no sideways scroll while wrapping.
pub open spec fn preview_hints(wrap: bool) -> Seq<char> {
    if wrap {
        "↑↓ PgUp/Dn scroll  ·  w wrap [on]  ·  y/Y copy url/content  ·  R refresh  ·  Esc/q back"@
    } else {
        "↑↓←→ PgUp/Dn scroll  ·  w wrap [off]  ·  y/Y copy url/content  ·  R refresh  ·  Esc/q back"@
    }
}

/// The extension of a file name: what follows its last `.`, when that is neither the first
/// nor the last character.
pub open spec fn file_ext_spec(name: Seq<char>) -> Option<Seq<char>> {
    let i = last_dot(name, name.len() as int);
    if i <= 0 || i + 1 >= name.len() {
        None
    } else {
        Some(name.skip(i + 1))
    }
}

/// Index of the last `.` in `name[..end]`, or -1.
pub open spec fn last_dot(name: Seq<char>, end: int) -> int
    decreases end,
{
    if end <= 0 {
        -1
    } else if name[end - 1] == '.' {
        end - 1
    } else {
        last_dot(name, end - 1)
    }
}

proof fn lemma_last_dot(name: Seq<char>, end: int)
    requires
        0 <= end <= name.len(),
    ensures
        -1 <= last_dot(name, end) < end,
        last_dot(name, end) >= 0 ==> name[last_dot(name, end)] == '.',
    decreases end,
{
    if end > 0 && name[end - 1] != '.' {
        lemma_last_dot(name, end - 1);
    }
}

/// The extension of `name`, for syntax highlighting.
pub fn file_ext(name: &str) -> (r: Option<String>)
    ensures
        match r {
            Some(e) => file_ext_spec(name@) == Some(e@),
            None => file_ext_spec(name@) is None,
        },
{
    let v = crate::text::chars_of(name);
    let n = v.len();
    let mut end = n;
    while end > 0 && v[end - 1] != '.'
        invariant
            end <= n,
            n == v@.len(),
            last_dot(v@, n as int) == last_dot(v@, end as int),
        decreases end,
    {
        end = end - 1;
    }
    proof {
        lemma_last_dot(v@, end as int);
    }
    if end <= 1 || end >= n {
        return None;
    }
    let e = crate::text::string_of_range(v.as_slice(), end, n);
    assert(v@.subrange(end as int, n as int) =~= v@.skip(end as int));
    Some(e)
}

/// What the preview paints.
#[derive(Debug, Clone, PartialEq, Eq)]
pub struct PreviewVm {
    pub title: String,
    pub body: String,
    pub footer: String,
    pub footer_colored: bool,
    pub wrap: bool,
    pub scroll: u16,
    pub hscroll: u16,
    pub syntax_highlight: bool,
    pub ext: Option<String>,
}

/// The preview's view: title and body with their offsets, the status (or the hints) in the
/// footer, and the file's extension for highlighting.
pub fn build_preview_vm(s: &PreviewSession, syntax_highlight: bool) -> (vm: PreviewVm)
    ensures
        vm.title == s.preview.title,
        vm.body == s.preview.body.text,
        vm.scroll == s.preview.body.scroll,
        vm.hscroll == s.preview.body.hscroll,
        vm.wrap == s.wrap,
        vm.syntax_highlight == syntax_highlight,
        match s.status {
            Some(m) => vm.footer@ == m@ && !vm.footer_colored,
            None => vm.footer@ == preview_hints(s.wrap) && vm.footer_colored,
        },
        match s.preview.gist_key {
            Some((_, name)) => match vm.ext {
                Some(e) => file_ext_spec(name@) == Some(e@),
                None => file_ext_spec(name@) is None,
            },
            None => vm.ext is None,
        },
{
    let hints = if s.wrap {
        "↑↓ PgUp/Dn scroll  ·  w wrap [on]  ·  y/Y copy url/content  ·  R refresh  ·  Esc/q back"
    } else {
        "↑↓←→ PgUp/Dn scroll  ·  w wrap [off]  ·  y/Y copy url/content  ·  R refresh  ·  Esc/q back"
    };
    let status: Option<&str> = match &s.status {
        Some(m) => Some(m.as_str()),
        None => None,
    };
    let (footer, footer_colored) = footer_with_status(status, hints);
    let ext = match &s.preview.gist_key {
        Some((_, name)) => file_ext(name.as_str()),
        None => None,
    };
    PreviewVm {
        title: s.preview.title.clone(),
        body: s.preview.body.text.clone(),
        footer,
        footer_colored,
        wrap: s.wrap,
        scroll: s.preview.body.scroll,
        hscroll: s.preview.body.hscroll,
        syntax_highlight,
        ext,
    }
}

/// A fetched file for the preview: the file's content is cached (in place of what was
/// cached for it) and opens the preview (unscrolled, tied to the file); a failed fetch leaves
/// `fetch failed: …` in the status and the cache as it was. Returns the preview to open, if
/// any.
pub fn on_preview_content(
    cache: &mut ContentCache,
    status: &mut Option<String>,
    result: Result<String, String>,
    gist_id: String,
    filename: String,
    preview_title: String,
) -> (r: (Option<PreviewState>, LoopFlow))
    ensures
        r.1 == LoopFlow::Proceed,
        match result {
            Ok(content) => {
                &&& *final(status) == *old(status)
                &&& final(cache).entries@ == without_spec(old(cache).entries@, gist_id@, filename@).push(
                    CachedFile { gist_id, filename, content },
                )
                &&& r.0 matches Some(p) && p.title == preview_title && p.body.text == content
                    && p.body.scroll == 0 && p.body.hscroll == 0 && p.gist_key == Some((gist_id, filename))
            },
            Err(e) => {
                &&& r.0 is None
                &&& final(cache).entries@ == old(cache).entries@
                &&& *final(status) matches Some(m) && m@ == "fetch failed: "@ + e@
            },
        },
{
    match result {
        Ok(content) => {
            cache.insert(gist_id.clone(), filename.clone(), content.clone());
            (
                Some(
                    PreviewState {
                        title: preview_title,
                        body: ScrollBody { text: content, scroll: 0, hscroll: 0 },
                        gist_key: Some((gist_id, filename)),
                    },
                ),
                LoopFlow::Proceed,
            )
        },
        Err(error) => {
            let mut m = owned("fetch failed: ");
            push_str(&mut m, error.as_str());
            *status = Some(m);
            (None, LoopFlow::Proceed)
        },
    }
}

} // verus!
