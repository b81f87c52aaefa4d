//! What the gist detail screen paints of the comment thread: the thread's title, its lines,
//! the affordance above them, and the wrapped body the comments pane shows.

use vstd::prelude::*;
use crate::domain::{humanize_age, humanize_age_spec, parse_rfc3339_to_unix, rfc3339_seconds, rfc3339_well_formed, GistComment};
use crate::chrome::{footer_with_status, TextInput};
use crate::domain::GistGroup;
use crate::labels::{gist_info_line, info_line_text, opt_str_view};
use crate::state::{comment_lines, comments_lines, DetailFocus, DetailState};
use crate::text::{is_blank, trim};
use crate::text::{dec, lines_of, owned, push_dec, push_str, split_lines, strings_view};
use crate::text_fit::{views, wrap_hanging, wrap_hanging_spec};

verus! {

/// What sits above the thread: older comments loading, a prompt to load them, or the start
/// of the thread.
#[derive(Debug, Clone, Copy, PartialEq, Eq, Structural)]
pub enum CommentsAffordance {
    LoadingMore,
    LoadOlder,
    StartOfThread,
}

/// One line of the comment thread.
#[derive(Debug, Clone, PartialEq, Eq)]
pub enum CommentLineVm {
    /// `author · age`.
    Author { text: String },
    /// A line of a comment's body, indented.
    Body { text: String },
    /// The gap after a comment.
    Blank,
}

/// The comments pane.
#[derive(Debug, Clone, PartialEq, Eq)]
pub enum CommentsPaneVm {
    /// The first page is loading.
    Loading,
    /// Nothing is loaded yet.
    PromptLoad,
    Error { message: String },
    /// The gist has no comments.
    Empty,
    Thread { title: String, affordance: CommentsAffordance, lines: Vec<CommentLineVm>, scroll: u16 },
}

/// The thread's title: how many comments are loaded, and which of the total they are.
pub open spec fn comments_title_spec(d: DetailState) -> Seq<char> {
    match d.comments {
        Some(c) => if d.comments_error is Some {
            "Comments ("@ + dec(c@.len()) + ")"@
        } else if c@.len() > 0 {
            match d.comments_total {
                Some(total) => {
                    let loaded = c@.len();
                    let first: nat = if total > loaded {
                        (total - loaded + 1) as nat
                    } else {
                        1
                    };
                    "Comments ("@ + dec(first) + "–"@ + dec(total as nat) + " / "@ + dec(
                        total as nat,
                    ) + ")"@
                },
                None => "Comments (newest "@ + dec(c@.len()) + ")"@,
            }
        } else {
            "Comments"@
        },
        None => "Comments"@,
    }
}

/// The thread's title (see [`comments_title_spec`]).
pub fn comments_title_text(d: &DetailState) -> (s: String)
    ensures
        s@ == comments_title_spec(*d),
{
    match &d.comments {
        Some(c) => {
            if d.comments_error.is_some() {
                let mut s = owned("Comments (");
                push_dec(&mut s, c.len() as u64);
                push_str(&mut s, ")");
                s
            } else if c.len() > 0 {
                match d.comments_total {
                    Some(total) => {
                        let loaded = c.len();
                        let first: u64 = if (total as usize) > loaded {
                            (total as usize - loaded + 1) as u64
                        } else {
                            1
                        };
                        let mut s = owned("Comments (");
                        push_dec(&mut s, first);
                        push_str(&mut s, "–");
                        push_dec(&mut s, total as u64);
                        push_str(&mut s, " / ");
                        push_dec(&mut s, total as u64);
                        push_str(&mut s, ")");
                        s
                    },
                    None => {
                        let mut s = owned("Comments (newest ");
                        push_dec(&mut s, c.len() as u64);
                        push_str(&mut s, ")");
                        s
                    },
                }
            } else {
                owned("Comments")
            }
        },
        None => owned("Comments"),
    }
}

/// A thread line, its text read as characters.
pub enum LineView {
    Author(Seq<char>),
    Body(Seq<char>),
    Blank,
}

/// The view of a thread line.
pub open spec fn line_view(l: CommentLineVm) -> LineView {
    match l {
        CommentLineVm::Author { text } => LineView::Author(text@),
        CommentLineVm::Body { text } => LineView::Body(text@),
        CommentLineVm::Blank => LineView::Blank,
    }
}

/// The views of thread lines.
pub open spec fn lines_view(v: Seq<CommentLineVm>) -> Seq<LineView> {
    v.map_values(|l: CommentLineVm| line_view(l))
}

/// How long ago a comment was written, or `?` when its time does not parse.
pub open spec fn comment_age(created_at: Seq<char>, now: int) -> Seq<char> {
    if rfc3339_well_formed(created_at) {
        humanize_age_spec(now - rfc3339_seconds(created_at))
    } else {
        "?"@
    }
}

/// The lines of one comment: `author · age`, each body line indented by two spaces, a blank.
pub open spec fn comment_lines_spec(c: GistComment, now: int) -> Seq<LineView> {
    seq![LineView::Author(c.author@ + " · "@ + comment_age(c.created_at@, now))] + lines_of(
        c.body@,
    ).map_values(|l: Seq<char>| LineView::Body("  "@ + l)) + seq![LineView::Blank]
}

/// The lines of a thread.
pub open spec fn thread_lines_spec(cs: Seq<GistComment>, now: int) -> Seq<LineView>
    decreases cs.len(),
{
    if cs.len() == 0 {
        Seq::empty()
    } else {
        thread_lines_spec(cs.drop_last(), now) + comment_lines_spec(cs.last(), now)
    }
}

/// The lines of one comment (see [`comment_lines_spec`]).
fn push_comment_lines(c: &GistComment, now: u64, out: &mut Vec<CommentLineVm>)
    requires
        now <= i64::MAX,
    ensures
        lines_view(final(out)@) == lines_view(old(out)@) + comment_lines_spec(*c, now as int),
{
    let age = match parse_rfc3339_to_unix(c.created_at.as_str()) {
        Some(t) => {
            proof {
                crate::domain::lemma_rfc3339_seconds_range(c.created_at@);
            }
            humanize_age((now as i64) - (t as i64))
        },
        None => owned("?"),
    };
    let mut author = owned(c.author.as_str());
    push_str(&mut author, " · ");
    push_str(&mut author, age.as_str());
    let ghost start = out@;
    out.push(CommentLineVm::Author { text: author });
    let body = split_lines(c.body.as_str());
    let ghost bl = lines_of(c.body@);
    let mut i: usize = 0;
    while i < body.len()
        invariant
            i <= body@.len(),
            strings_view(body@) == bl,
            lines_view(out@) == lines_view(start) + seq![
                LineView::Author(c.author@ + " · "@ + comment_age(c.created_at@, now as int)),
            ] + bl.take(i as int).map_values(|l: Seq<char>| LineView::Body("  "@ + l)),
        decreases body@.len() - i,
    {
        let mut t = owned("  ");
        push_str(&mut t, body[i].as_str());
        let ghost prev = out@;
        out.push(CommentLineVm::Body { text: t });
        assert(bl[i as int] == body@[i as int]@);
        assert(bl.take(i + 1) =~= bl.take(i as int).push(bl[i as int]));
        assert(lines_view(out@) =~= lines_view(prev).push(LineView::Body("  "@ + bl[i as int])));
        assert(bl.take(i + 1).map_values(|l: Seq<char>| LineView::Body("  "@ + l)) =~= bl.take(
            i as int,
        ).map_values(|l: Seq<char>| LineView::Body("  "@ + l)).push(LineView::Body("  "@ + bl[i as int])));
        i = i + 1;
    }
    assert(bl.take(bl.len() as int) =~= bl);
    let ghost before_blank = out@;
    out.push(CommentLineVm::Blank);
    assert(lines_view(out@) =~= lines_view(before_blank).push(LineView::Blank));
    assert(lines_view(out@) =~= lines_view(start) + comment_lines_spec(*c, now as int));
}

/// The comments pane as built from the detail state at `now` (Unix seconds).
pub open spec fn comments_pane_ok(vm: CommentsPaneVm, d: DetailState, now: int) -> bool {
    match d.comments {
        None => if d.comments_loading {
            vm == CommentsPaneVm::Loading
        } else {
            vm == CommentsPaneVm::PromptLoad
        },
        Some(c) => match d.comments_error {
            Some(e) => vm matches CommentsPaneVm::Error { message } && message@ == "comments error: "@
                + e@,
            None => if c@.len() == 0 {
                vm == CommentsPaneVm::Empty
            } else {
                vm matches CommentsPaneVm::Thread { title, affordance, lines, scroll } && title@
                    == comments_title_spec(d) && affordance == (if d.comments_loading_more {
                    CommentsAffordance::LoadingMore
                } else if d.comments_loaded_oldest_page > 1 {
                    CommentsAffordance::LoadOlder
                } else {
                    CommentsAffordance::StartOfThread
                }) && lines_view(lines@) == thread_lines_spec(c@, now) && scroll == d.scroll
            },
        },
    }
}

/// Build the comments pane from the detail state at `now` (see [`comments_pane_ok`]).
pub fn build_comments_pane_vm(d: &DetailState, now: u64) -> (vm: CommentsPaneVm)
    requires
        now <= i64::MAX,
    ensures
        comments_pane_ok(vm, *d, now as int),
{
    match &d.comments {
        None => if d.comments_loading {
            CommentsPaneVm::Loading
        } else {
            CommentsPaneVm::PromptLoad
        },
        Some(c) => match &d.comments_error {
            Some(e) => {
                let mut message = owned("comments error: ");
                push_str(&mut message, e.as_str());
                CommentsPaneVm::Error { message }
            },
            None => {
                if c.len() == 0 {
                    return CommentsPaneVm::Empty;
                }
                let affordance = if d.comments_loading_more {
                    CommentsAffordance::LoadingMore
                } else if d.comments_loaded_oldest_page > 1 {
                    CommentsAffordance::LoadOlder
                } else {
                    CommentsAffordance::StartOfThread
                };
                let mut lines: Vec<CommentLineVm> = Vec::new();
                let mut i: usize = 0;
                while i < c.len()
                    invariant
                        i <= c@.len(),
                        now <= i64::MAX,
                        lines_view(lines@) == thread_lines_spec(c@.take(i as int), now as int),
                    decreases c@.len() - i,
                {
                    push_comment_lines(&c[i], now, &mut lines);
                    assert(c@.take(i + 1).drop_last() =~= c@.take(i as int));
                    i = i + 1;
                }
                assert(c@.take(c@.len() as int) =~= c@);
                CommentsPaneVm::Thread {
                    title: comments_title_text(d),
                    affordance,
                    lines,
                    scroll: d.scroll,
                }
            },
        },
    }
}

// ---------------------------------------------------------------------------------------------
// The pane's body
// ---------------------------------------------------------------------------------------------

/// How a comments-pane row is styled.
#[derive(Debug, Clone, Copy, PartialEq, Eq, Structural)]
pub enum CommentRowStyle {
    Dim,
    Error,
    Accent,
    Plain,
}

/// The comments pane's body as painted: its title, the rows (already wrapped to the pane's
/// inner width), how far it is scrolled, and whether the load-older prompt is its first row.
pub struct CommentsBody {
    pub title: String,
    pub rows: Vec<(String, CommentRowStyle)>,
    pub scroll: u16,
    pub load_older: bool,
}

/// The rows of a thread line wrapped to `width`.
pub open spec fn wrapped_rows(l: LineView, width: nat) -> Seq<(Seq<char>, CommentRowStyle)> {
    match l {
        LineView::Author(t) => wrap_hanging_spec(t, width).map_values(
            |r: Seq<char>| (r, CommentRowStyle::Accent),
        ),
        LineView::Body(t) => wrap_hanging_spec(t, width).map_values(
            |r: Seq<char>| (r, CommentRowStyle::Plain),
        ),
        LineView::Blank => seq![(Seq::<char>::empty(), CommentRowStyle::Plain)],
    }
}

/// The rows of thread lines wrapped to `width`.
pub open spec fn thread_rows(ls: Seq<LineView>, width: nat) -> Seq<(Seq<char>, CommentRowStyle)>
    decreases ls.len(),
{
    if ls.len() == 0 {
        Seq::empty()
    } else {
        thread_rows(ls.drop_last(), width) + wrapped_rows(ls.last(), width)
    }
}

/// The label over the thread.
pub open spec fn affordance_label(a: CommentsAffordance) -> Seq<char> {
    match a {
        CommentsAffordance::LoadingMore => "Loading…"@,
        CommentsAffordance::LoadOlder => "↑ Load 30 older comments"@,
        CommentsAffordance::StartOfThread => "— Start of thread —"@,
    }
}

/// The rows' views.
pub open spec fn rows_of(v: Seq<(String, CommentRowStyle)>) -> Seq<(Seq<char>, CommentRowStyle)> {
    v.map_values(|r: (String, CommentRowStyle)| (r.0@, r.1))
}

/// The comments pane body as built from `vm` for an inner width of `width` cells.
pub open spec fn comments_body_ok(b: CommentsBody, vm: CommentsPaneVm, width: nat) -> bool {
    match vm {
        CommentsPaneVm::Thread { title, affordance, lines, scroll } => {
            &&& b.title@ == title@
            &&& b.scroll == scroll
            &&& b.load_older == (affordance == CommentsAffordance::LoadOlder)
            &&& rows_of(b.rows@) == seq![
                (affordance_label(affordance), CommentRowStyle::Dim),
                (Seq::<char>::empty(), CommentRowStyle::Plain),
            ] + thread_rows(lines_view(lines@), width)
        },
        _ => {
            &&& b.title@ == "Comments"@
            &&& b.scroll == 0
            &&& !b.load_older
            &&& rows_of(b.rows@) == seq![
                match vm {
                    CommentsPaneVm::Loading => ("Loading comments…"@, CommentRowStyle::Dim),
                    CommentsPaneVm::PromptLoad => ("Tab here to load comments"@, CommentRowStyle::Dim),
                    CommentsPaneVm::Error { message } => (message@, CommentRowStyle::Error),
                    _ => ("No comments"@, CommentRowStyle::Dim),
                },
            ]
        },
    }
}

/// Append `rows`, each with `style`.
fn push_rows(out: &mut Vec<(String, CommentRowStyle)>, rows: Vec<String>, style: CommentRowStyle)
    ensures
        rows_of(final(out)@) == rows_of(old(out)@) + views(rows@).map_values(
            |r: Seq<char>| (r, style),
        ),
{
    let ghost start = out@;
    let mut i: usize = 0;
    while i < rows.len()
        invariant
            i <= rows@.len(),
            rows_of(out@) == rows_of(start) + views(rows@).take(i as int).map_values(
                |r: Seq<char>| (r, style),
            ),
        decreases rows@.len() - i,
    {
        let ghost prev = out@;
        out.push((owned(rows[i].as_str()), style));
        assert(views(rows@).take(i + 1) =~= views(rows@).take(i as int).push(views(rows@)[i as int]));
        assert(rows_of(out@) =~= rows_of(prev).push((views(rows@)[i as int], style)));
        assert(views(rows@).take(i + 1).map_values(|r: Seq<char>| (r, style)) =~= views(rows@).take(
            i as int,
        ).map_values(|r: Seq<char>| (r, style)).push((views(rows@)[i as int], style)));
        i = i + 1;
    }
    assert(views(rows@).take(rows@.len() as int) =~= views(rows@));
}

/// Build the comments pane body for an inner width of `width` cells (see
/// [`comments_body_ok`]).
pub fn comments_body(vm: &CommentsPaneVm, width: usize) -> (b: CommentsBody)
    ensures
        comments_body_ok(b, *vm, width as nat),
{
    let mut rows: Vec<(String, CommentRowStyle)> = Vec::new();
    match vm {
        CommentsPaneVm::Thread { title, affordance, lines, scroll } => {
            let label = match affordance {
                CommentsAffordance::LoadingMore => "Loading…",
                CommentsAffordance::LoadOlder => "↑ Load 30 older comments",
                CommentsAffordance::StartOfThread => "— Start of thread —",
            };
            rows.push((owned(label), CommentRowStyle::Dim));
            rows.push((String::new(), CommentRowStyle::Plain));
            let ghost head = rows@;
            let mut i: usize = 0;
            while i < lines.len()
                invariant
                    i <= lines@.len(),
                    rows_of(rows@) == rows_of(head) + thread_rows(
                        lines_view(lines@.take(i as int)),
                        width as nat,
                    ),
                decreases lines@.len() - i,
            {
                let ghost before = rows@;
                match &lines[i] {
                    CommentLineVm::Author { text } => {
                        let parts = wrap_hanging(text.as_str(), width);
                        push_rows(&mut rows, parts, CommentRowStyle::Accent);
                    },
                    CommentLineVm::Body { text } => {
                        let parts = wrap_hanging(text.as_str(), width);
                        push_rows(&mut rows, parts, CommentRowStyle::Plain);
                    },
                    CommentLineVm::Blank => {
                        rows.push((String::new(), CommentRowStyle::Plain));
                        assert(rows_of(rows@) =~= rows_of(before) + seq![
                            (Seq::<char>::empty(), CommentRowStyle::Plain),
                        ]);
                    },
                }
                assert(lines_view(lines@.take(i + 1)).drop_last() =~= lines_view(lines@.take(i as int)));
                assert(lines_view(lines@.take(i + 1)).last() == line_view(lines@[i as int]));
                assert(rows_of(rows@) =~= rows_of(head) + thread_rows(
                    lines_view(lines@.take(i + 1)),
                    width as nat,
                ));
                i = i + 1;
            }
            assert(lines@.take(lines@.len() as int) =~= lines@);
            proof {
                assert(rows_of(head) =~= seq![
                    (affordance_label(*affordance), CommentRowStyle::Dim),
                    (Seq::<char>::empty(), CommentRowStyle::Plain),
                ]);
            }
            CommentsBody {
                title: owned(title.as_str()),
                rows,
                scroll: *scroll,
                load_older: *affordance == CommentsAffordance::LoadOlder,
            }
        },
        _ => {
            let row = match vm {
                CommentsPaneVm::Loading => (owned("Loading comments…"), CommentRowStyle::Dim),
                CommentsPaneVm::PromptLoad => (owned("Tab here to load comments"), CommentRowStyle::Dim),
                CommentsPaneVm::Error { message } => (owned(message.as_str()), CommentRowStyle::Error),
                _ => (owned("No comments"), CommentRowStyle::Dim),
            };
            rows.push(row);
            assert(rows_of(rows@) =~= seq![
                match *vm {
                    CommentsPaneVm::Loading => ("Loading comments…"@, CommentRowStyle::Dim),
                    CommentsPaneVm::PromptLoad => ("Tab here to load comments"@, CommentRowStyle::Dim),
                    CommentsPaneVm::Error { message } => (message@, CommentRowStyle::Error),
                    _ => ("No comments"@, CommentRowStyle::Dim),
                },
            ]);
            CommentsBody { title: owned("Comments"), rows, scroll: 0, load_older: false }
        },
    }
}

/// How far the comments pane can scroll: its rows (counted in 16 bits, as the pane
/// counts them) less the rows inside its border, or nothing.
pub fn comments_max_scroll(rows: usize, pane_height: u16) -> (m: u16)
    ensures
        m == ({
            let total = rows % 65536;
            let inner = if pane_height >= 2 {
                pane_height - 2
            } else {
                0
            };
            if total > inner {
                total - inner
            } else {
                0
            }
        }),
{
    let total: u16 = (rows % 65536) as u16;
    let inner: u16 = if pane_height >= 2 {
        pane_height - 2
    } else {
        0
    };
    if total > inner {
        total - inner
    } else {
        0
    }
}

// ---------------------------------------------------------------------------------------------
// The whole detail screen
// ---------------------------------------------------------------------------------------------

/// What the gist detail screen paints.
pub struct GistDetailVm {
    /// The gist is not known (no id, or not in the loaded list): only the footer is painted.
    pub missing: bool,
    pub block_title: String,
    pub info_line: String,
    pub focus: DetailFocus,
    pub files: Vec<String>,
    pub files_title: String,
    pub file_cursor: usize,
    pub comments_count: u32,
    pub comments: CommentsPaneVm,
    pub footer: String,
    /// The footer holds key hints to colour, rather than a plain message.
    pub footer_colored: bool,
    /// The description editor, while it is open.
    pub description_input: Option<TextInput>,
}

/// What the detail screen shows of its gist beside the detail state: the gist (when it is in
/// the loaded list), whether the user starred it, its (comment, star, fork) counts, its file
/// names in display order, and their total size as a label.
pub struct DetailGist {
    pub group: Option<GistGroup>,
    pub starred: bool,
    pub counts: (u32, u32, u32),
    pub files: Vec<String>,
    pub size_label: String,
}

/// The detail box's title: `Gist: <description>`, or `Gist <id>` when it has none.
pub open spec fn detail_title_spec(g: GistGroup) -> Seq<char> {
    if trim(g.description@).len() == 0 {
        "Gist "@ + g.id@
    } else {
        "Gist: "@ + g.description@
    }
}

/// The detail view as built (see [`build_gist_detail_vm`]).
pub open spec fn detail_vm_ok(
    vm: GistDetailVm,
    d: DetailState,
    g: DetailGist,
    now: u64,
    user: Option<Seq<char>>,
    status: Option<Seq<char>>,
    hint: Seq<char>,
    editing: Option<(Seq<char>, nat)>,
) -> bool {
    &&& vm.focus == d.focus
    &&& match status {
        Some(m) => vm.footer@ == m && !vm.footer_colored,
        None => vm.footer@ == hint && vm.footer_colored,
    }
    &&& match editing {
        Some(e) => vm.description_input matches Some(i) && (i.text_view(), i.cursor_view()) == e,
        None => vm.description_input is None,
    }
    &&& if d.gist_id is None || g.group is None {
        &&& vm.missing
        &&& vm.block_title@.len() == 0
        &&& vm.info_line@.len() == 0
        &&& vm.files@.len() == 0
        &&& vm.files_title@.len() == 0
        &&& vm.file_cursor == 0
        &&& vm.comments_count == 0
        &&& vm.comments == CommentsPaneVm::PromptLoad
    } else {
        let group = g.group->0;
        let n = g.files@.len();
        &&& !vm.missing
        &&& vm.block_title@ == detail_title_spec(group)
        &&& vm.info_line@ == info_line_text(group, now, user, g.starred, g.counts)
        &&& strings_view(vm.files@) == strings_view(g.files@)
        &&& vm.files_title@ == "Files ("@ + dec(n) + "): "@ + g.size_label@ + " total"@
        &&& vm.file_cursor == (if n == 0 {
            0
        } else if d.file_cursor >= n {
            (n - 1) as usize
        } else {
            d.file_cursor
        })
        &&& vm.comments_count == g.counts.0
        &&& comments_pane_ok(vm.comments, d, now as int)
    }
}

/// Build what the gist detail screen paints, at `now` (Unix seconds), for the signed-in
/// `user`, with the one-shot `status` line, the footer's key `hint`, and the description
/// editor when it is open.
pub fn build_gist_detail_vm(
    d: &DetailState,
    g: &DetailGist,
    now: u64,
    user: Option<&str>,
    status: Option<&str>,
    hint: &str,
    editing: Option<&TextInput>,
) -> (vm: GistDetailVm)
    requires
        now <= i64::MAX,
    ensures
        detail_vm_ok(
            vm,
            *d,
            *g,
            now,
            opt_str_view(user),
            opt_str_view(status),
            hint@,
            match editing {
                Some(i) => Some((i.text_view(), i.cursor_view())),
                None => None,
            },
        ),
{
    let (footer, footer_colored) = footer_with_status(status, hint);
    let description_input = match editing {
        Some(i) => Some(i.duplicate()),
        None => None,
    };
    let group = match (&d.gist_id, &g.group) {
        (Some(_), Some(group)) => group,
        _ => {
            return GistDetailVm {
                missing: true,
                block_title: String::new(),
                info_line: String::new(),
                focus: d.focus,
                files: Vec::new(),
                files_title: String::new(),
                file_cursor: 0,
                comments_count: 0,
                comments: CommentsPaneVm::PromptLoad,
                footer,
                footer_colored,
                description_input,
            };
        },
    };
    let block_title = if is_blank(group.description.as_str()) {
        let mut t = owned("Gist ");
        push_str(&mut t, group.id.as_str());
        t
    } else {
        let mut t = owned("Gist: ");
        push_str(&mut t, group.description.as_str());
        t
    };
    let info_line = gist_info_line(group, now, user, g.starred, g.counts);
    let mut files: Vec<String> = Vec::new();
    let mut i: usize = 0;
    while i < g.files.len()
        invariant
            i <= g.files@.len(),
            strings_view(files@) == strings_view(g.files@).take(i as int),
        decreases g.files@.len() - i,
    {
        files.push(owned(g.files[i].as_str()));
        assert(strings_view(g.files@).take(i + 1) =~= strings_view(g.files@).take(i as int).push(
            g.files@[i as int]@,
        ));
        assert(strings_view(files@) =~= strings_view(g.files@).take(i + 1));
        i = i + 1;
    }
    assert(strings_view(g.files@).take(g.files@.len() as int) =~= strings_view(g.files@));
    let n = files.len();
    let mut files_title = owned("Files (");
    push_dec(&mut files_title, n as u64);
    push_str(&mut files_title, "): ");
    push_str(&mut files_title, g.size_label.as_str());
    push_str(&mut files_title, " total");
    let file_cursor = if n == 0 {
        0
    } else if d.file_cursor >= n {
        n - 1
    } else {
        d.file_cursor
    };
    GistDetailVm {
        missing: false,
        block_title,
        info_line,
        focus: d.focus,
        files,
        files_title,
        file_cursor,
        comments_count: g.counts.0,
        comments: build_comments_pane_vm(d, now),
        footer,
        footer_colored,
        description_input,
    }
}

/// The thread the comments pane shows has exactly as many lines as the scroll arithmetic
/// counts for the same comments (an author line, the body's lines, a blank each), so a
/// scroll position computed from the count lands on the painted lines.
pub proof fn law_thread_lines_match_count(cs: Seq<GistComment>, now: int)
    ensures
        thread_lines_spec(cs, now).len() == comments_lines(cs),
    decreases cs.len(),
{
    if cs.len() > 0 {
        law_thread_lines_match_count(cs.drop_last(), now);
        let c = cs.last();
        assert(comment_lines_spec(c, now).len() == comment_lines(c));
    }
}

/// What a compaction confirm paints behind itself: the gist's header and its files, as the
/// detail screen shows them.
#[derive(Debug, Clone, PartialEq, Eq)]
pub struct CompactGistBgVm {
    pub block_title: String,
    pub info_line: String,
    pub files: Vec<String>,
    pub file_cursor: usize,
}

/// The background of the compaction confirm for gist `g`, with the detail screen's file
/// cursor when one is up (`cursor`): `None` when the gist is not known; else the detail
/// box's title and info line, the gist's files, and the cursor kept within them.
pub open spec fn compact_bg_ok(
    r: Option<CompactGistBgVm>,
    g: DetailGist,
    cursor: Option<usize>,
    now: u64,
    user: Option<Seq<char>>,
) -> bool {
    match g.group {
        None => r is None,
        Some(group) => r matches Some(bg) && bg.block_title@ == detail_title_spec(group)
            && bg.info_line@ == info_line_text(group, now, user, g.starred, g.counts)
            && strings_view(bg.files@) == strings_view(g.files@) && bg.file_cursor == {
            let c = match cursor {
                Some(c) => c as int,
                None => 0,
            };
            if g.files@.len() == 0 {
                0
            } else if c >= g.files@.len() {
                g.files@.len() - 1
            } else {
                c
            }
        },
    }
}

/// The background of the compaction confirm (see [`compact_bg_ok`]).
pub fn build_compact_gist_bg_vm(
    g: &DetailGist,
    cursor: Option<usize>,
    now: u64,
    user: Option<&str>,
) -> (r: Option<CompactGistBgVm>)
    requires
        now <= i64::MAX,
    ensures
        compact_bg_ok(r, *g, cursor, now, opt_str_view(user)),
{
    let group = match &g.group {
        Some(group) => group,
        None => return None,
    };
    let block_title = if is_blank(group.description.as_str()) {
        let mut t = owned("Gist ");
        push_str(&mut t, group.id.as_str());
        t
    } else {
        let mut t = owned("Gist: ");
        push_str(&mut t, group.description.as_str());
        t
    };
    let info_line = gist_info_line(group, now, user, g.starred, g.counts);
    let mut files: Vec<String> = Vec::new();
    let mut i: usize = 0;
    while i < g.files.len()
        invariant
            i <= g.files@.len(),
            strings_view(files@) == strings_view(g.files@).take(i as int),
        decreases g.files@.len() - i,
    {
        files.push(owned(g.files[i].as_str()));
        assert(strings_view(g.files@).take(i + 1) =~= strings_view(g.files@).take(i as int).push(
            g.files@[i as int]@,
        ));
        assert(strings_view(files@) =~= strings_view(g.files@).take(i + 1));
        i = i + 1;
    }
    assert(strings_view(g.files@).take(g.files@.len() as int) =~= strings_view(g.files@));
    let n = files.len();
    let c = match cursor {
        Some(c) => c,
        None => 0,
    };
    let file_cursor = if n == 0 {
        0
    } else if c >= n {
        n - 1
    } else {
        c
    };
    Some(CompactGistBgVm { block_title, info_line, files, file_cursor })
}

} // verus!
