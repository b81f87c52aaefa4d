//! Key handling on the gist detail screen: which keys apply to the shown gist, what each
//! does to the screen's state, and what it asks the rest of the program to do.

use vstd::prelude::*;
use crate::chrome::TextInput;
use crate::domain::GistGroup;
use crate::chrome::Rect;
use crate::keys::{apply_edit, edit_spec, Key, NavAction};
use crate::state::{can_load_older, DetailFocus, DetailState};
use crate::text::{dec, is_blank, owned, push_dec, push_str, strings_view, trim};

verus! {

/// The detail screen's state plus the description editor and the status line it drives.
pub struct DetailSession {
    pub detail: DetailState,
    pub editing_description: bool,
    pub description_input: TextInput,
    pub status: Option<String>,
}

/// What the program knows of the gist the detail screen shows.
pub struct ShownGist {
    /// The gist belongs to the signed-in user.
    pub owned: bool,
    /// The gist's metadata, when it is in the loaded list.
    pub group: Option<GistGroup>,
    /// The gist's file names, in display order.
    pub files: Vec<String>,
    /// Whether each file (same order) can be previewed as text.
    pub previewable: Vec<bool>,
}

/// What a key on the detail screen asks the rest of the program to do.
#[derive(Debug, Clone, PartialEq, Eq)]
pub enum DetailAction {
    Nothing,
    Leave,
    OpenBrowser { gist_id: String },
    CopyGistUrl { gist_id: String },
    OpenRevisions { gist_id: String, target_file: String },
    CompactGist { gist_id: String, label: String },
    ToggleGistStar { gist_id: String },
    ForkGist { gist_id: String },
    PreviewContent { gist_id: String, filename: String },
    /// A file that cannot be previewed as text was asked for.
    PreviewBlocked { filename: String },
    FetchComments { gist_id: String },
    LoadOlderComments { gist_id: String, page: u32 },
    ConfirmDelete { gist_id: String, label: String, text: String },
    ApplyDescription { gist_id: String, description: String },
    OpenHelp,
}

/// An action, its strings read as characters.
pub enum ActionView {
    Nothing,
    Leave,
    OpenBrowser(Seq<char>),
    CopyGistUrl(Seq<char>),
    OpenRevisions(Seq<char>, Seq<char>),
    CompactGist(Seq<char>, Seq<char>),
    ToggleGistStar(Seq<char>),
    ForkGist(Seq<char>),
    PreviewContent(Seq<char>, Seq<char>),
    PreviewBlocked(Seq<char>),
    FetchComments(Seq<char>),
    LoadOlderComments(Seq<char>, u32),
    ConfirmDelete(Seq<char>, Seq<char>, Seq<char>),
    ApplyDescription(Seq<char>, Seq<char>),
    OpenHelp,
}

/// The view of an action.
pub open spec fn action_view(a: DetailAction) -> ActionView {
    match a {
        DetailAction::Nothing => ActionView::Nothing,
        DetailAction::Leave => ActionView::Leave,
        DetailAction::OpenBrowser { gist_id } => ActionView::OpenBrowser(gist_id@),
        DetailAction::CopyGistUrl { gist_id } => ActionView::CopyGistUrl(gist_id@),
        DetailAction::OpenRevisions { gist_id, target_file } => ActionView::OpenRevisions(
            gist_id@,
            target_file@,
        ),
        DetailAction::CompactGist { gist_id, label } => ActionView::CompactGist(gist_id@, label@),
        DetailAction::ToggleGistStar { gist_id } => ActionView::ToggleGistStar(gist_id@),
        DetailAction::ForkGist { gist_id } => ActionView::ForkGist(gist_id@),
        DetailAction::PreviewContent { gist_id, filename } => ActionView::PreviewContent(
            gist_id@,
            filename@,
        ),
        DetailAction::PreviewBlocked { filename } => ActionView::PreviewBlocked(filename@),
        DetailAction::FetchComments { gist_id } => ActionView::FetchComments(gist_id@),
        DetailAction::LoadOlderComments { gist_id, page } => ActionView::LoadOlderComments(
            gist_id@,
            page,
        ),
        DetailAction::ConfirmDelete { gist_id, label, text } => ActionView::ConfirmDelete(
            gist_id@,
            label@,
            text@,
        ),
        DetailAction::ApplyDescription { gist_id, description } => ActionView::ApplyDescription(
            gist_id@,
            description@,
        ),
        DetailAction::OpenHelp => ActionView::OpenHelp,
    }
}

/// The shown gist's id as characters.
pub open spec fn gist_of(d: DetailState) -> Option<Seq<char>> {
    match d.gist_id {
        Some(g) => Some(g@),
        None => None,
    }
}

/// Whether the shown gist is the user's (never when no gist is shown).
pub open spec fn owns(d: DetailState, g: ShownGist) -> bool {
    d.gist_id is Some && g.owned
}

/// The file at `i`, when there is one.
pub open spec fn file_at(g: ShownGist, i: int) -> Option<Seq<char>> {
    if 0 <= i < g.files@.len() {
        Some(g.files@[i]@)
    } else {
        None
    }
}

/// Whether file `i` exists and can be previewed as text.
pub open spec fn previewable_at(g: ShownGist, i: int) -> bool {
    0 <= i < g.files@.len() && i < g.previewable@.len() && g.previewable@[i]
}

/// Whether `key` would do something on the detail screen — the same predicate the menu
/// uses to enable an entry, so the two never drift: Enter previews a previewable file under
/// the cursor of the Files tab; `o` `y` `H` `*` need a gist; `e` `c` `X` need it to be the
/// user's; `F` needs it to be someone else's; `m` needs an older comment page on the
/// Comments tab.
pub open spec fn detail_guard_spec(d: DetailState, g: ShownGist, key: Key) -> bool {
    match key {
        Key::Enter => d.focus == DetailFocus::Files && d.gist_id is Some && previewable_at(
            g,
            d.file_cursor as int,
        ),
        Key::Char(c) => if c == 'o' || c == 'y' || c == 'H' || c == '*' {
            d.gist_id is Some
        } else if c == 'e' || c == 'c' || c == 'X' {
            owns(d, g)
        } else if c == 'F' {
            d.gist_id is Some && !g.owned
        } else if c == 'm' {
            d.focus == DetailFocus::Comments && can_load_older(d)
        } else {
            false
        },
        _ => false,
    }
}

fn shown_file(g: &ShownGist, i: usize) -> (r: Option<String>)
    ensures
        match r {
            Some(f) => file_at(*g, i as int) == Some(f@),
            None => file_at(*g, i as int) is None,
        },
{
    if i < g.files.len() {
        Some(g.files[i].clone())
    } else {
        None
    }
}

fn can_preview(g: &ShownGist, i: usize) -> (r: bool)
    ensures
        r == previewable_at(*g, i as int),
{
    i < g.files.len() && i < g.previewable.len() && g.previewable[i]
}

/// Whether a key would do something on the detail screen (see [`detail_guard_spec`]).
pub fn detail_guard(d: &DetailState, g: &ShownGist, key: Key) -> (r: bool)
    ensures
        r == detail_guard_spec(*d, *g, key),
{
    match key {
        Key::Enter => d.focus == DetailFocus::Files && d.gist_id.is_some() && can_preview(
            g,
            d.file_cursor,
        ),
        Key::Char(c) => if c == 'o' || c == 'y' || c == 'H' || c == '*' {
            d.gist_id.is_some()
        } else if c == 'e' || c == 'c' || c == 'X' {
            d.gist_id.is_some() && g.owned
        } else if c == 'F' {
            d.gist_id.is_some() && !g.owned
        } else if c == 'm' {
            d.focus == DetailFocus::Comments && d.comments.is_some()
                && d.comments_loaded_oldest_page > 1 && !d.comments_loading_more
                && !d.comments_loading
        } else {
            false
        },
        _ => false,
    }
}

/// How a gist is named when it is compacted: its description, or its id when that is blank.
pub open spec fn compact_label(group: Option<GistGroup>, id: Seq<char>) -> Seq<char> {
    match group {
        Some(grp) => if trim(grp.description@).len() == 0 {
            grp.id@
        } else {
            grp.description@
        },
        None => id,
    }
}

/// How a gist is named when it is deleted: its description, or its id when that is empty.
pub open spec fn delete_label(grp: GistGroup) -> Seq<char> {
    if grp.description@.len() == 0 {
        grp.id@
    } else {
        grp.description@
    }
}

/// The question the delete confirm asks.
pub open spec fn delete_text(grp: GistGroup) -> Seq<char> {
    "Delete gist "@ + grp.id@ + " ("@ + dec(grp.file_count as nat) + " file(s)): "@ + delete_label(
        grp,
    ) + ".\n\nThis permanently removes the entire gist and all its files."@
}

/// The status message as characters.
pub open spec fn status_of(status: Option<String>) -> Option<Seq<char>> {
    match status {
        Some(m) => Some(m@),
        None => None,
    }
}

/// The input's (text, caret).
pub open spec fn input_of(i: TextInput) -> (Seq<char>, nat) {
    (i.text_view(), i.cursor_view())
}

/// The result of a key: the detail state, whether the description editor is open, the
/// editor's (text, caret), the status line, and the action asked for.
pub struct Step {
    pub detail: DetailState,
    pub editing: bool,
    pub input: (Seq<char>, nat),
    pub status: Option<Seq<char>>,
    pub action: ActionView,
}

/// A key that only asks for `action`, leaving the screen as it was.
pub open spec fn only(s: DetailSession, action: ActionView) -> Step {
    Step {
        detail: s.detail,
        editing: s.editing_description,
        input: input_of(s.description_input),
        status: None,
        action,
    }
}

/// A key that leaves a status message and asks for nothing.
pub open spec fn noted(s: DetailSession, message: Seq<char>) -> Step {
    Step { status: Some(message), ..only(s, ActionView::Nothing) }
}

/// The other tab.
pub open spec fn other_focus(f: DetailFocus) -> DetailFocus {
    match f {
        DetailFocus::Files => DetailFocus::Comments,
        DetailFocus::Comments => DetailFocus::Files,
    }
}

/// What `key` does on the detail screen in session `s` (the status line is cleared first).
///
/// While the description editor is open, Esc closes and clears it, Enter asks to apply the
/// description to the shown gist, and other keys edit the text. Otherwise: `q`/Esc leave;
/// `o` `y` open or copy the gist's URL; `H` opens the history of the file under the cursor;
/// `e` opens the editor on the current description; `c` asks to compact; `*` toggles the
/// star; `F` forks someone else's gist; `1`-`9` preview the Nth file; Tab switches tabs
/// (fetching comments the first time the Comments tab opens); `X` asks to delete; Enter
/// previews the file under the cursor; `m` loads the next older comment page; `?` opens
/// help. Guarded keys do nothing when their guard fails.
pub open spec fn detail_key_spec(s: DetailSession, g: ShownGist, key: Key) -> Step {
    let d = s.detail;
    if s.editing_description {
        if key == Key::Esc {
            Step { editing: false, input: (Seq::empty(), 0), ..only(s, ActionView::Nothing) }
        } else if key == Key::Enter {
            match gist_of(d) {
                Some(id) => only(s, ActionView::ApplyDescription(id, s.description_input.text_view())),
                None => match g.group {
                    Some(grp) => only(
                        s,
                        ActionView::ApplyDescription(grp.id@, s.description_input.text_view()),
                    ),
                    None => only(s, ActionView::Nothing),
                },
            }
        } else {
            Step {
                input: edit_spec(
                    s.description_input.text_view(),
                    s.description_input.cursor_view(),
                    key,
                ),
                ..only(s, ActionView::Nothing)
            }
        }
    } else {
        let guard = detail_guard_spec(d, g, key);
        match key {
            Key::Esc => only(s, ActionView::Leave),
            Key::Tab => {
                let focus = other_focus(d.focus);
                let nd = DetailState { focus, ..d };
                let fetch = focus == DetailFocus::Comments && d.comments is None
                    && !d.comments_loading;
                Step {
                    detail: nd,
                    ..only(
                        s,
                        if fetch && gist_of(d) is Some {
                            ActionView::FetchComments(gist_of(d)->0)
                        } else {
                            ActionView::Nothing
                        },
                    )
                }
            },
            Key::Enter => if guard {
                only(s, ActionView::PreviewContent(gist_of(d)->0, file_at(g, d.file_cursor as int)->0))
            } else {
                only(s, ActionView::Nothing)
            },
            Key::Char(c) => if c == 'q' {
                only(s, ActionView::Leave)
            } else if c == 'o' && guard {
                only(s, ActionView::OpenBrowser(gist_of(d)->0))
            } else if c == 'y' && guard {
                only(s, ActionView::CopyGistUrl(gist_of(d)->0))
            } else if c == 'H' && guard {
                only(
                    s,
                    ActionView::OpenRevisions(
                        gist_of(d)->0,
                        match file_at(g, d.file_cursor as int) {
                            Some(f) => f,
                            None => Seq::empty(),
                        },
                    ),
                )
            } else if c == 'e' && guard {
                match g.group {
                    Some(grp) => Step {
                        editing: true,
                        input: (grp.description@, grp.description@.len()),
                        ..only(s, ActionView::Nothing)
                    },
                    None => only(s, ActionView::Nothing),
                }
            } else if c == 'c' && guard {
                only(
                    s,
                    ActionView::CompactGist(gist_of(d)->0, compact_label(g.group, gist_of(d)->0)),
                )
            } else if c == '*' {
                match gist_of(d) {
                    Some(id) => only(s, ActionView::ToggleGistStar(id)),
                    None => noted(s, "select a gist first"@),
                }
            } else if c == 'F' {
                match gist_of(d) {
                    None => noted(s, "select a gist to fork"@),
                    Some(id) => if g.owned {
                        noted(s, "already yours — no fork needed"@)
                    } else {
                        only(s, ActionView::ForkGist(id))
                    },
                }
            } else if '1' <= c <= '9' {
                let i = (c as int) - ('1' as int);
                match (gist_of(d), file_at(g, i)) {
                    (Some(id), Some(f)) => if previewable_at(g, i) {
                        only(s, ActionView::PreviewContent(id, f))
                    } else {
                        only(s, ActionView::PreviewBlocked(f))
                    },
                    _ => only(s, ActionView::Nothing),
                }
            } else if c == 'X' && guard {
                match g.group {
                    Some(grp) => only(
                        s,
                        ActionView::ConfirmDelete(grp.id@, delete_label(grp), delete_text(grp)),
                    ),
                    None => only(s, ActionView::Nothing),
                }
            } else if c == 'm' && guard {
                match gist_of(d) {
                    Some(id) => only(
                        s,
                        ActionView::LoadOlderComments(id, (d.comments_loaded_oldest_page - 1) as u32),
                    ),
                    None => only(s, ActionView::Nothing),
                }
            } else if c == '?' {
                only(s, ActionView::OpenHelp)
            } else {
                only(s, ActionView::Nothing)
            },
            _ => only(s, ActionView::Nothing),
        }
    }
}

fn shown_id(d: &DetailState) -> (r: String)
    requires
        d.gist_id is Some,
    ensures
        Some(r@) == gist_of(*d),
{
    match &d.gist_id {
        Some(id) => id.clone(),
        None => String::new(),
    }
}

fn delete_confirm(grp: &GistGroup) -> (a: DetailAction)
    ensures
        action_view(a) == ActionView::ConfirmDelete(grp.id@, delete_label(*grp), delete_text(*grp)),
{
    let label = if grp.description.unicode_len() == 0 {
        grp.id.clone()
    } else {
        grp.description.clone()
    };
    let mut text = owned("Delete gist ");
    push_str(&mut text, grp.id.as_str());
    push_str(&mut text, " (");
    push_dec(&mut text, grp.file_count as u64);
    push_str(&mut text, " file(s)): ");
    push_str(&mut text, label.as_str());
    push_str(&mut text, ".\n\nThis permanently removes the entire gist and all its files.");
    DetailAction::ConfirmDelete { gist_id: grp.id.clone(), label, text }
}

/// Apply `key` to the detail screen: update the session and return what the rest of the
/// program is asked to do (see [`detail_key_spec`]).
pub fn handle_key_detail(s: &mut DetailSession, g: &ShownGist, key: Key) -> (a: DetailAction)
    requires
        old(s).description_input.well_formed(),
        old(s).description_input.text_view().len() < usize::MAX,
    ensures
        final(s).description_input.well_formed(),
        ({
            let e = detail_key_spec(*old(s), *g, key);
            &&& final(s).detail == e.detail
            &&& final(s).editing_description == e.editing
            &&& input_of(final(s).description_input) == e.input
            &&& status_of(final(s).status) == e.status
            &&& action_view(a) == e.action
        }),
{
    s.status = None;
    if s.editing_description {
        if key == Key::Esc {
            s.editing_description = false;
            s.description_input.clear();
            return DetailAction::Nothing;
        }
        if key == Key::Enter {
            let gist_id = match &s.detail.gist_id {
                Some(id) => id.clone(),
                None => match &g.group {
                    Some(grp) => grp.id.clone(),
                    None => return DetailAction::Nothing,
                },
            };
            return DetailAction::ApplyDescription { gist_id, description: s.description_input.text() };
        }
        apply_edit(&mut s.description_input, key);
        return DetailAction::Nothing;
    }
    let guard = detail_guard(&s.detail, g, key);
    match key {
        Key::Esc => DetailAction::Leave,
        Key::Tab => {
            let focus = match s.detail.focus {
                DetailFocus::Comments => DetailFocus::Files,
                DetailFocus::Files => DetailFocus::Comments,
            };
            s.detail.focus = focus;
            let fetch = focus == DetailFocus::Comments && s.detail.comments.is_none()
                && !s.detail.comments_loading;
            if fetch {
                if let Some(id) = &s.detail.gist_id {
                    return DetailAction::FetchComments { gist_id: id.clone() };
                }
            }
            DetailAction::Nothing
        },
        Key::Enter => {
            if guard {
                let id = shown_id(&s.detail);
                let file = shown_file(g, s.detail.file_cursor).unwrap();
                return DetailAction::PreviewContent { gist_id: id, filename: file };
            }
            DetailAction::Nothing
        },
        Key::Char(c) => {
            if c == 'q' {
                DetailAction::Leave
            } else if c == 'o' && guard {
                DetailAction::OpenBrowser { gist_id: shown_id(&s.detail) }
            } else if c == 'y' && guard {
                DetailAction::CopyGistUrl { gist_id: shown_id(&s.detail) }
            } else if c == 'H' && guard {
                let target_file = match shown_file(g, s.detail.file_cursor) {
                    Some(f) => f,
                    None => String::new(),
                };
                DetailAction::OpenRevisions { gist_id: shown_id(&s.detail), target_file }
            } else if c == 'e' && guard {
                if let Some(grp) = &g.group {
                    s.editing_description = true;
                    s.description_input = TextInput::from(grp.description.as_str());
                }
                DetailAction::Nothing
            } else if c == 'c' && guard {
                let id = shown_id(&s.detail);
                let label = match &g.group {
                    Some(grp) => if is_blank(grp.description.as_str()) {
                        grp.id.clone()
                    } else {
                        grp.description.clone()
                    },
                    None => id.clone(),
                };
                DetailAction::CompactGist { gist_id: id, label }
            } else if c == '*' {
                match &s.detail.gist_id {
                    Some(id) => DetailAction::ToggleGistStar { gist_id: id.clone() },
                    None => {
                        s.status = Some(owned("select a gist first"));
                        DetailAction::Nothing
                    },
                }
            } else if c == 'F' {
                match &s.detail.gist_id {
                    None => {
                        s.status = Some(owned("select a gist to fork"));
                        DetailAction::Nothing
                    },
                    Some(id) => if g.owned {
                        s.status = Some(owned("already yours — no fork needed"));
                        DetailAction::Nothing
                    } else {
                        DetailAction::ForkGist { gist_id: id.clone() }
                    },
                }
            } else if '1' <= c && c <= '9' {
                let i = ((c as u32) - ('1' as u32)) as usize;
                preview_detail_file(&s.detail, g, i)
            } else if c == 'X' && guard {
                match &g.group {
                    Some(grp) => delete_confirm(grp),
                    None => DetailAction::Nothing,
                }
            } else if c == 'm' && guard {
                match &s.detail.gist_id {
                    Some(id) => DetailAction::LoadOlderComments {
                        gist_id: id.clone(),
                        page: s.detail.comments_loaded_oldest_page - 1,
                    },
                    None => DetailAction::Nothing,
                }
            } else if c == '?' {
                DetailAction::OpenHelp
            } else {
                DetailAction::Nothing
            }
        },
        _ => DetailAction::Nothing,
    }
}

/// Whether `key` is one of the keys whose effect the guard decides.
pub open spec fn is_guarded(key: Key) -> bool {
    key == Key::Enter || key == Key::Char('o') || key == Key::Char('y') || key == Key::Char('H')
        || key == Key::Char('e') || key == Key::Char('c') || key == Key::Char('X') || key
        == Key::Char('m')
}

/// A guarded key whose guard fails does nothing: the screen is unchanged and no action is
/// asked for. The menu greys out exactly these keys, so it never offers a dead entry.
pub proof fn law_disabled_keys_do_nothing(s: DetailSession, g: ShownGist, key: Key)
    requires
        !s.editing_description,
        is_guarded(key),
        !detail_guard_spec(s.detail, g, key),
    ensures
        detail_key_spec(s, g, key) == only(s, ActionView::Nothing),
{
}

/// A guarded key whose guard holds acts: it asks for an action, or (for `e`) opens the
/// description editor — for `e` and `X` provided the gist's metadata is loaded, for `m`
/// provided a gist is shown.
pub proof fn law_enabled_keys_act(s: DetailSession, g: ShownGist, key: Key)
    requires
        !s.editing_description,
        is_guarded(key),
        detail_guard_spec(s.detail, g, key),
        key == Key::Char('e') || key == Key::Char('X') ==> g.group is Some,
        key == Key::Char('m') ==> s.detail.gist_id is Some,
    ensures
        detail_key_spec(s, g, key).action != ActionView::Nothing || detail_key_spec(
            s,
            g,
            key,
        ).editing,
{
}

/// Pressing Tab twice comes back to the tab it started on, with nothing else changed.
pub proof fn law_tab_twice_restores_focus(s: DetailSession, g: ShownGist)
    requires
        !s.editing_description,
    ensures
        ({
            let once = detail_key_spec(s, g, Key::Tab);
            let s1 = DetailSession { detail: once.detail, status: None, ..s };
            detail_key_spec(s1, g, Key::Tab).detail == s.detail
        }),
{
}

/// Loading older comments asks for the page just before the oldest one loaded, which is
/// always a real page (at least 1).
pub proof fn law_older_page_is_the_previous_one(s: DetailSession, g: ShownGist)
    requires
        !s.editing_description,
        detail_guard_spec(s.detail, g, Key::Char('m')),
        s.detail.gist_id is Some,
    ensures
        detail_key_spec(s, g, Key::Char('m')).action == ActionView::LoadOlderComments(
            gist_of(s.detail)->0,
            (s.detail.comments_loaded_oldest_page - 1) as u32,
        ),
        s.detail.comments_loaded_oldest_page - 1 >= 1,
{
}

/// Escape in the description editor closes it and throws the draft away.
pub proof fn law_escape_discards_the_draft(s: DetailSession, g: ShownGist)
    requires
        s.editing_description,
    ensures
        !detail_key_spec(s, g, Key::Esc).editing,
        detail_key_spec(s, g, Key::Esc).input == (Seq::<char>::empty(), 0nat),
        detail_key_spec(s, g, Key::Esc).action == ActionView::Nothing,
{
}

/// The detail screen after moving `delta` rows within the focused pane: the comment thread
/// scrolls (saturating at both ends of `u16`); the file cursor moves, clamped to the
/// `count` files (nothing moves when there are none).
pub open spec fn detail_nav_spec(d: DetailState, delta: int, count: nat) -> DetailState {
    match d.focus {
        DetailFocus::Comments => DetailState {
            scroll: (if d.scroll + delta < 0 {
                0
            } else if d.scroll + delta > u16::MAX {
                u16::MAX as int
            } else {
                d.scroll + delta
            }) as u16,
            ..d
        },
        DetailFocus::Files => if count == 0 {
            d
        } else {
            DetailState {
                file_cursor: (if d.file_cursor + delta < 0 {
                    0
                } else if d.file_cursor + delta > count - 1 {
                    count - 1
                } else {
                    d.file_cursor + delta
                }) as usize,
                ..d
            }
        },
    }
}

/// Move within the focused detail pane: scroll the comments, or move the file cursor
/// (clamped to the gist's `count` files). `delta` is signed rows.
pub fn detail_nav(d: &mut DetailState, delta: i32, count: usize)
    requires
        -65535 <= delta <= 65535,
    ensures
        *final(d) == detail_nav_spec(*old(d), delta as int, count as nat),
{
    match d.focus {
        DetailFocus::Comments => {
            d.scroll = if delta < 0 {
                d.scroll.saturating_sub((-delta) as u16)
            } else {
                d.scroll.saturating_add(delta as u16)
            };
        },
        DetailFocus::Files => {
            if count == 0 {
                return;
            }
            let max = count - 1;
            if delta < 0 {
                let back = (-delta) as usize;
                d.file_cursor = if d.file_cursor < back {
                    0
                } else {
                    d.file_cursor - back
                };
                if d.file_cursor > max {
                    d.file_cursor = max;
                }
            } else {
                let fwd = delta as usize;
                d.file_cursor = if d.file_cursor >= max || fwd >= max - d.file_cursor {
                    max
                } else {
                    d.file_cursor + fwd
                };
            }
        },
    }
}

/// Arrow and page navigation on the detail screen, within the focused pane; `false` for a
/// sideways move, which the screen does not use.
pub fn apply_navigation_detail(d: &mut DetailState, action: NavAction, count: usize) -> (r: bool)
    ensures
        r == !(action == NavAction::Right || action == NavAction::Left),
        *final(d) == match action {
            NavAction::Down => detail_nav_spec(*old(d), 1, count as nat),
            NavAction::Up => detail_nav_spec(*old(d), -1, count as nat),
            NavAction::PageDown => detail_nav_spec(*old(d), 10, count as nat),
            NavAction::PageUp => detail_nav_spec(*old(d), -10, count as nat),
            _ => *old(d),
        },
{
    match action {
        NavAction::Down => detail_nav(d, 1, count),
        NavAction::Up => detail_nav(d, -1, count),
        NavAction::PageDown => detail_nav(d, 10, count),
        NavAction::PageUp => detail_nav(d, -10, count),
        _ => return false,
    }
    true
}

/// One mouse-wheel tick on the detail screen: three lines of comments, or one file.
pub fn wheel_detail(d: &mut DetailState, down: bool, count: usize)
    ensures
        *final(d) == detail_nav_spec(
            *old(d),
            (if old(d).focus == DetailFocus::Comments {
                3int
            } else {
                1int
            }) * (if down {
                1int
            } else {
                -1int
            }),
            count as nat,
        ),
{
    let step: i32 = match d.focus {
        DetailFocus::Comments => 3,
        DetailFocus::Files => 1,
    };
    detail_nav(d, if down {
        step
    } else {
        -step
    }, count);
}

/// Whether the cell (`col`, `row`) lies in `r`.
pub open spec fn point_in_spec(r: Rect, col: int, row: int) -> bool {
    r.x <= col < r.x + r.width && r.y <= row < r.y + r.height
}

/// Whether the cell (`col`, `row`) lies in `r`.
pub fn point_in(r: Rect, col: u16, row: u16) -> (b: bool)
    ensures
        b == point_in_spec(r, col as int, row as int),
{
    col >= r.x && (col - r.x) < r.width && row >= r.y && (row - r.y) < r.height
}

/// Where a bordered list pane was painted, and the index of its first visible row.
#[derive(Debug, Clone, Copy, PartialEq, Eq, Structural)]
pub struct PaneHit {
    pub rect: Rect,
    pub offset: usize,
}

/// The list index under `row` of pane `hit` holding `count` rows: rows start below the top
/// border and end above the bottom one.
pub open spec fn index_at_spec(hit: PaneHit, row: int, count: nat) -> Option<usize> {
    if row > hit.rect.y && row < hit.rect.y + hit.rect.height - 1 {
        let idx = row - hit.rect.y - 1 + hit.offset;
        if idx < count {
            Some(idx as usize)
        } else {
            None
        }
    } else {
        None
    }
}

impl PaneHit {
    /// The list index under `row`, when a row is there.
    pub fn index_at(&self, row: u16, count: usize) -> (r: Option<usize>)
        ensures
            r == index_at_spec(*self, row as int, count as nat),
    {
        if row > self.rect.y && ((row - self.rect.y) as u32) + 1 < self.rect.height as u32 {
            let within = (row - self.rect.y - 1) as usize;
            if within < count && self.offset < count - within {
                Some(within + self.offset)
            } else {
                None
            }
        } else {
            None
        }
    }
}

/// Where the detail screen's clickable parts were painted.
#[derive(Debug, Clone, Copy, PartialEq, Eq, Structural)]
pub struct DetailLayout {
    pub files: Option<PaneHit>,
    pub tab_files: Option<Rect>,
    pub tab_comments: Option<Rect>,
}

/// Preview the `index`-th file of the shown gist: the preview is asked for when the file
/// exists and is text, blocked when it is not text, and nothing happens when there is no
/// such file or no gist.
pub fn preview_detail_file(d: &DetailState, g: &ShownGist, index: usize) -> (a: DetailAction)
    ensures
        action_view(a) == match (gist_of(*d), file_at(*g, index as int)) {
            (Some(id), Some(f)) => if previewable_at(*g, index as int) {
                ActionView::PreviewContent(id, f)
            } else {
                ActionView::PreviewBlocked(f)
            },
            _ => ActionView::Nothing,
        },
{
    match (&d.gist_id, shown_file(g, index)) {
        (Some(id), Some(f)) => if can_preview(g, index) {
            DetailAction::PreviewContent { gist_id: id.clone(), filename: f }
        } else {
            DetailAction::PreviewBlocked { filename: f }
        },
        _ => DetailAction::Nothing,
    }
}

/// A click on the file list focuses the Files tab and, on a row, moves the cursor there;
/// returns whether a row was hit (a double-click then previews it).
pub fn click_select_detail(d: &mut DetailState, col: u16, row: u16, layout: &DetailLayout, count: usize) -> (hit_row: bool)
    ensures
        match layout.files {
            Some(hit) => if point_in_spec(hit.rect, col as int, row as int) {
                match index_at_spec(hit, row as int, count as nat) {
                    Some(i) => hit_row && *final(d) == DetailState {
                        focus: DetailFocus::Files,
                        file_cursor: i,
                        ..*old(d)
                    },
                    None => !hit_row && *final(d) == DetailState {
                        focus: DetailFocus::Files,
                        ..*old(d)
                    },
                }
            } else {
                !hit_row && *final(d) == *old(d)
            },
            None => !hit_row && *final(d) == *old(d),
        },
{
    if let Some(hit) = layout.files {
        if point_in(hit.rect, col, row) {
            d.focus = DetailFocus::Files;
            if let Some(idx) = hit.index_at(row, count) {
                d.file_cursor = idx;
                return true;
            }
        }
    }
    false
}

/// A click on a tab header switches to that tab (asking for the comments the first time
/// the Comments tab opens). `None` when the click was not on a tab.
pub fn click_detail_tab(d: &mut DetailState, col: u16, row: u16, layout: &DetailLayout) -> (r: Option<DetailAction>)
    ensures
        match layout.tab_files {
            Some(rf) if point_in_spec(rf, col as int, row as int) => r matches Some(a) && action_view(a) == ActionView::Nothing
                && *final(d) == DetailState { focus: DetailFocus::Files, ..*old(d) },
            _ => match layout.tab_comments {
                Some(rc) if point_in_spec(rc, col as int, row as int) => {
                    let fetch = old(d).comments is None && !old(d).comments_loading && old(d).gist_id is Some;
                    &&& *final(d) == DetailState { focus: DetailFocus::Comments, ..*old(d) }
                    &&& r matches Some(a) && action_view(a) == if fetch {
                        ActionView::FetchComments(gist_of(*old(d))->0)
                    } else {
                        ActionView::Nothing
                    }
                },
                _ => r is None && *final(d) == *old(d),
            },
        },
{
    if let Some(rf) = layout.tab_files {
        if point_in(rf, col, row) {
            d.focus = DetailFocus::Files;
            return Some(DetailAction::Nothing);
        }
    }
    if let Some(rc) = layout.tab_comments {
        if point_in(rc, col, row) {
            d.focus = DetailFocus::Comments;
            if d.comments.is_none() && !d.comments_loading {
                if let Some(id) = &d.gist_id {
                    return Some(DetailAction::FetchComments { gist_id: id.clone() });
                }
            }
            return Some(DetailAction::Nothing);
        }
    }
    None
}

} // verus!
