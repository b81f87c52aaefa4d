//! Highlighted unified-diff lines: `-`/`+` pairs with word-level highlighting, tinted header
//! labels, optional syntax-coloured context, all scrolled by hand.

use vstd::prelude::*;
use crate::chrome::{apply_hscroll_spans, joined, scroll_runs, styled_views, StyledText};
use crate::text::{chars_of, lines_of, owned, push_char, split_lines, string_of_range};
use crate::text_fit::{find_chars, find_from};
use crate::theme::{Color, Theme};

verus! {

/// Tag of an unchanged word run in a word diff.
pub const WORD_EQUAL: u8 = 0;

/// Tag of a deleted word run in a word diff.
pub const WORD_DELETE: u8 = 1;

/// Tag of an inserted word run in a word diff.
pub const WORD_INSERT: u8 = 2;

/// The changes `similar::TextDiff::from_words(old, new).iter_all_changes()` yields, in
/// order, as (tag, token) pairs: tag 0 for an unchanged token, 1 for a deleted one, 2 for an
/// inserted one. A token is a maximal run of whitespace or of non-whitespace.
pub uninterp spec fn word_changes_of(old: Seq<char>, new: Seq<char>) -> Seq<(u8, Seq<char>)>;

/// The tokens of `cs` that belong to one side: tag 0 and `tag`, joined in order.
pub open spec fn side_text(cs: Seq<(u8, Seq<char>)>, tag: u8) -> Seq<char>
    decreases cs.len(),
{
    if cs.len() == 0 {
        Seq::empty()
    } else {
        (if cs[0].0 == WORD_EQUAL || cs[0].0 == tag {
            cs[0].1
        } else {
            Seq::empty()
        }) + side_text(cs.drop_first(), tag)
    }
}

/// The view of word changes.
pub open spec fn changes_view(v: Seq<(u8, String)>) -> Seq<(u8, Seq<char>)> {
    v.map_values(|c: (u8, String)| (c.0, c.1@))
}

/// Word-level diff of `old` against `new` with `similar`'s default (Myers, no deadline) text
/// diff. The contract names the result [`word_changes_of`] of the two texts, and states what
/// any such diff keeps: every tag is one of the three, the unchanged and deleted tokens
/// rebuild `old`, and the unchanged and inserted tokens rebuild `new`.
#[verifier::external_body]
fn word_changes(old: &str, new: &str) -> (r: Vec<(u8, String)>)
    ensures
        changes_view(r@) == word_changes_of(old@, new@),
        forall|i: int| 0 <= i < r@.len() ==> #[trigger] r@[i].0 <= WORD_INSERT,
        side_text(changes_view(r@), WORD_DELETE) == old@,
        side_text(changes_view(r@), WORD_INSERT) == new@,
{
    let diff = similar::TextDiff::from_words(old, new);
    let mut out = Vec::new();
    for change in diff.iter_all_changes() {
        let tag = match change.tag() {
            similar::ChangeTag::Equal => WORD_EQUAL,
            similar::ChangeTag::Delete => WORD_DELETE,
            similar::ChangeTag::Insert => WORD_INSERT,
        };
        out.push((tag, change.value().to_string()));
    }
    out
}

/// A styled run with no reversal.
pub open spec fn run_of(t: Seq<char>, fg: Option<Color>, bold: bool) -> (
    Seq<char>,
    Option<Color>,
    bool,
    bool,
) {
    (t, fg, bold, false)
}

/// The runs one side of an inline pair shows: unchanged tokens in `color`, that side's own
/// changed tokens (tag `bold_tag`) in bold `color`, the other side's tokens left out.
pub open spec fn change_runs(cs: Seq<(u8, Seq<char>)>, color: Color, bold_tag: u8) -> Seq<
    (Seq<char>, Option<Color>, bool, bool),
>
    decreases cs.len(),
{
    if cs.len() == 0 {
        Seq::empty()
    } else {
        (if cs[0].0 == bold_tag {
            seq![run_of(cs[0].1, Some(color), true)]
        } else if cs[0].0 == WORD_EQUAL {
            seq![run_of(cs[0].1, Some(color), false)]
        } else {
            Seq::empty()
        }) + change_runs(cs.drop_first(), color, bold_tag)
    }
}

proof fn lemma_change_runs_text(cs: Seq<(u8, Seq<char>)>, color: Color, tag: u8)
    requires
        tag == WORD_DELETE || tag == WORD_INSERT,
    ensures
        joined(change_runs(cs, color, tag)) == side_text(cs, tag),
    decreases cs.len(),
{
    if cs.len() > 0 {
        lemma_change_runs_text(cs.drop_first(), color, tag);
        let head: Seq<RunView> = if cs[0].0 == tag {
            seq![run_of(cs[0].1, Some(color), true)]
        } else if cs[0].0 == WORD_EQUAL {
            seq![run_of(cs[0].1, Some(color), false)]
        } else {
            Seq::empty()
        };
        lemma_joined_append(head, change_runs(cs.drop_first(), color, tag));
        if head.len() == 1 {
            assert(head.drop_first() =~= Seq::<RunView>::empty());
            assert(joined(Seq::<RunView>::empty()) =~= Seq::empty());
            assert(joined(head) =~= head[0].0 + joined(head.drop_first()));
            assert(joined(head) =~= head[0].0);
        }
    }
}

proof fn lemma_joined_append(a: Seq<RunView>, b: Seq<RunView>)
    ensures
        joined(a + b) == joined(a) + joined(b),
    decreases a.len(),
{
    if a.len() == 0 {
        assert(a + b =~= b);
        assert(joined(a) + joined(b) =~= joined(b));
    } else {
        assert((a + b).drop_first() =~= a.drop_first() + b);
        lemma_joined_append(a.drop_first(), b);
        assert(joined(a) + joined(b) =~= a[0].0 + (joined(a.drop_first()) + joined(b)));
    }
}

/// A diff line without its one-character marker.
pub open spec fn body_of(line: Seq<char>) -> Seq<char> {
    if line.len() >= 1 {
        line.skip(1)
    } else {
        Seq::empty()
    }
}

/// One side of an inline-highlighted `-`/`+` pair: the marker, then that side's word runs,
/// scrolled `hscroll` characters.
pub open spec fn inline_line_spec(
    del_line: Seq<char>,
    ins_line: Seq<char>,
    hscroll: nat,
    color: Color,
    prefix: char,
    bold_tag: u8,
) -> Seq<(Seq<char>, Option<Color>, bool, bool)> {
    scroll_runs(
        seq![run_of(seq![prefix], Some(color), false)] + change_runs(
            word_changes_of(body_of(del_line), body_of(ins_line)),
            color,
            bold_tag,
        ),
        hscroll,
    )
}

fn styled(text: String, fg: Option<Color>, bold: bool) -> (s: StyledText)
    ensures
        s.text == text,
        s.fg == fg,
        s.bold == bold,
        !s.reversed,
{
    StyledText { text, fg, bold, reversed: false }
}

fn body_str(line: &str) -> (s: String)
    ensures
        s@ == body_of(line@),
{
    let v = chars_of(line);
    if v.len() == 0 {
        return String::new();
    }
    string_of_range(v.as_slice(), 1, v.len())
}

/// Word-level inline highlight for a unified-diff `-`/`+` line. `bold_tag` is the change side
/// that gets bold (delete for the `-` line, insert for the `+` line).
pub fn inline_change_line(
    del_line: &str,
    ins_line: &str,
    hscroll: usize,
    color: Color,
    prefix: char,
    bold_tag: u8,
) -> (v: Vec<StyledText>)
    ensures
        styled_views(v@) == inline_line_spec(
            del_line@,
            ins_line@,
            hscroll as nat,
            color,
            prefix,
            bold_tag,
        ),
        bold_tag == WORD_DELETE ==> joined(styled_views(v@)) == skip_chars(
            seq![prefix] + body_of(del_line@),
            hscroll as nat,
        ),
        bold_tag == WORD_INSERT ==> joined(styled_views(v@)) == skip_chars(
            seq![prefix] + body_of(ins_line@),
            hscroll as nat,
        ),
{
    let del_content = body_str(del_line);
    let ins_content = body_str(ins_line);
    let changes = word_changes(del_content.as_str(), ins_content.as_str());
    let ghost cs = changes_view(changes@);
    let mut spans: Vec<StyledText> = Vec::new();
    let mut sign = String::new();
    push_char(&mut sign, prefix);
    spans.push(styled(sign, Some(color), false));
    assert(styled_views(spans@) =~= seq![run_of(seq![prefix], Some(color), false)]);
    assert(cs.skip(0) =~= cs);
    let mut i: usize = 0;
    while i < changes.len()
        invariant
            i <= changes@.len(),
            cs == changes_view(changes@),
            styled_views(spans@) + change_runs(cs.skip(i as int), color, bold_tag) == seq![
                run_of(seq![prefix], Some(color), false),
            ] + change_runs(cs, color, bold_tag),
        decreases changes@.len() - i,
    {
        let tag = changes[i].0;
        let ghost rest = cs.skip(i as int);
        assert(rest.drop_first() =~= cs.skip(i + 1));
        assert(rest[0] == (tag, changes@[i as int].1@));
        let ghost prev = styled_views(spans@);
        if tag == bold_tag {
            let t = changes[i].1.clone();
            spans.push(styled(t, Some(color), true));
            assert(styled_views(spans@) =~= prev.push(run_of(rest[0].1, Some(color), true)));
        } else if tag == WORD_EQUAL {
            let t = changes[i].1.clone();
            spans.push(styled(t, Some(color), false));
            assert(styled_views(spans@) =~= prev.push(run_of(rest[0].1, Some(color), false)));
        }
        i = i + 1;
    }
    proof {
        let all = seq![run_of(seq![prefix], Some(color), false)] + change_runs(cs, color, bold_tag);
        assert(cs.skip(cs.len() as int) =~= Seq::<(u8, Seq<char>)>::empty());
        crate::chrome::lemma_scroll_runs_joined(all, hscroll as nat);
        if bold_tag == WORD_DELETE || bold_tag == WORD_INSERT {
            lemma_change_runs_text(cs, color, bold_tag);
            lemma_joined_append(seq![run_of(seq![prefix], Some(color), false)], change_runs(cs, color, bold_tag));
            let one: Seq<RunView> = seq![run_of(seq![prefix], Some(color), false)];
            assert(one.drop_first() =~= Seq::<RunView>::empty());
            assert(joined(Seq::<RunView>::empty()) =~= Seq::empty());
            assert(joined(one) =~= one[0].0 + joined(one.drop_first()));
            assert(joined(one) =~= seq![prefix]);
        }
    }
    apply_hscroll_spans(spans, hscroll)
}

/// Whether `t` starts with `p`.
pub open spec fn starts_with(t: Seq<char>, p: Seq<char>) -> bool {
    t.len() >= p.len() && t.take(p.len() as int) == p
}

/// `t` without its first `n` characters (empty when it is shorter).
pub open spec fn skip_chars(t: Seq<char>, n: nat) -> Seq<char> {
    if n >= t.len() {
        Seq::empty()
    } else {
        t.skip(n as int)
    }
}

/// Whether `t[from..]` starts with `p`.
pub fn starts_with_at(t: &[char], from: usize, p: &str) -> (r: bool)
    requires
        from <= t@.len(),
    ensures
        r == starts_with(t@.skip(from as int), p@),
{
    let pv = chars_of(p);
    if pv.len() > t.len() - from {
        return false;
    }
    let n = t.len();
    let mut k: usize = 0;
    while k < pv.len()
        invariant
            n == t@.len(),
            k <= pv@.len(),
            pv@ == p@,
            from + pv@.len() <= t@.len(),
            forall|j: int| 0 <= j < k ==> t@[from + j] == pv@[j],
        decreases pv@.len() - k,
    {
        if t[from + k] != pv[k] {
            assert(t@.skip(from as int).take(pv@.len() as int)[k as int] != p@[k as int]);
            return false;
        }
        k = k + 1;
    }
    assert(t@.skip(from as int).take(pv@.len() as int) =~= p@);
    true
}

/// `t` scrolled `n` characters left.
fn skip_str(t: &[char], n: usize) -> (s: String)
    ensures
        s@ == skip_chars(t@, n as nat),
{
    if n >= t.len() {
        return String::new();
    }
    let s = string_of_range(t, n, t.len());
    assert(t@.subrange(n as int, t@.len() as int) =~= t@.skip(n as int));
    s
}

/// The side label a `---`/`+++` header names, with the colour it is tinted in.
pub open spec fn header_keyword(line: Seq<char>, theme: Theme) -> Option<(Seq<char>, Color)> {
    let body = if starts_with(line, "--- "@) || starts_with(line, "+++ "@) {
        line.skip(4)
    } else {
        line
    };
    if starts_with(body, "local"@) {
        Some(("local"@, theme.notice_color))
    } else if starts_with(body, "gist"@) {
        Some(("gist"@, theme.gist_label_color))
    } else {
        None
    }
}

/// A `---`/`+++` header line, scrolled, all bold, with the first `local`/`gist` keyword of
/// the visible part tinted by the side it names.
pub open spec fn header_line_spec(line: Seq<char>, hscroll: nat, theme: Theme) -> Seq<
    (Seq<char>, Option<Color>, bool, bool),
> {
    let visible = skip_chars(line, hscroll);
    match header_keyword(line, theme) {
        None => seq![run_of(visible, None, true)],
        Some((k, c)) => {
            let idx = find_from(visible, 0, k);
            if idx < 0 {
                seq![run_of(visible, None, true)]
            } else {
                seq![
                    run_of(visible.take(idx), None, true),
                    run_of(k, Some(c), true),
                    run_of(visible.skip(idx + k.len()), None, true),
                ]
            }
        },
    }
}

/// Renders a `--- /+++` header line, tinting the leading `local`/`gist` keyword so each
/// side's identity is readable whichever way the diff is oriented. The side is classified
/// from the un-scrolled line (right after the marker), then the keyword is coloured in the
/// horizontally-scrolled slice; the rest stays bold.
pub fn header_line(line: &str, hscroll: usize, theme: &Theme) -> (v: Vec<StyledText>)
    ensures
        styled_views(v@) == header_line_spec(line@, hscroll as nat, *theme),
{
    let chars = chars_of(line);
    let visible = skip_str(chars.as_slice(), hscroll);
    let start: usize = if starts_with_at(chars.as_slice(), 0, "--- ") || starts_with_at(
        chars.as_slice(),
        0,
        "+++ ",
    ) {
        4
    } else {
        0
    };
    assert(chars@.skip(0) =~= chars@);
    proof {
        reveal_strlit("--- ");
        reveal_strlit("+++ ");
    }
    let mut out: Vec<StyledText> = Vec::new();
    let keyword: &str;
    let color: Color;
    if starts_with_at(chars.as_slice(), start, "local") {
        keyword = "local";
        color = theme.notice_color;
    } else if starts_with_at(chars.as_slice(), start, "gist") {
        keyword = "gist";
        color = theme.gist_label_color;
    } else {
        out.push(styled(visible, None, true));
        assert(styled_views(out@) =~= header_line_spec(line@, hscroll as nat, *theme));
        return out;
    }
    let vis = chars_of(visible.as_str());
    let vlen = vis.len();
    let kw = chars_of(keyword);
    match find_chars(vis.as_slice(), 0, kw.as_slice()) {
        Some(idx) => {
            proof {
                crate::text_fit::lemma_find_from_bound(vis@, 0, kw@);
            }
            out.push(styled(string_of_range(vis.as_slice(), 0, idx), None, true));
            out.push(styled(owned(keyword), Some(color), true));
            let after = idx + kw.len();
            out.push(styled(string_of_range(vis.as_slice(), after, vis.len()), None, true));
            assert(vis@.subrange(0, idx as int) =~= vis@.take(idx as int));
            assert(vis@.subrange(after as int, vis@.len() as int) =~= vis@.skip(after as int));
        },
        None => {
            out.push(styled(visible, None, true));
        },
    }
    assert(styled_views(out@) =~= header_line_spec(line@, hscroll as nat, *theme));
    out
}

/// A styled run, as its view.
pub type RunView = (Seq<char>, Option<Color>, bool, bool);

/// A `-` line of the diff body (not the `---` header).
pub open spec fn is_del_line(l: Seq<char>) -> bool {
    starts_with(l, seq!['-']) && !starts_with(l, seq!['-', '-', '-'])
}

/// A `+` line of the diff body (not the `+++` header).
pub open spec fn is_ins_line(l: Seq<char>) -> bool {
    starts_with(l, seq!['+']) && !starts_with(l, seq!['+', '+', '+'])
}

/// A `---`/`+++` header line.
pub open spec fn is_header_line(l: Seq<char>) -> bool {
    starts_with(l, seq!['+', '+', '+']) || starts_with(l, seq!['-', '-', '-'])
}

/// A context line the syntax highlighter colours: space-prefixed and free of tabs (a tabbed
/// line stays plain so its indentation lines up with the raw-tab `-`/`+` lines).
pub open spec fn is_ctx_candidate(l: Seq<char>) -> bool {
    starts_with(l, seq![' ']) && !l.contains('\t')
}

/// End of the run of `-` lines (`del`) or `+` lines starting at `i`.
pub open spec fn run_end(raw: Seq<Seq<char>>, i: int, del: bool) -> int
    decreases raw.len() - i,
{
    if 0 <= i < raw.len() && (if del {
        is_del_line(raw[i])
    } else {
        is_ins_line(raw[i])
    }) {
        run_end(raw, i + 1, del)
    } else {
        i
    }
}

pub proof fn lemma_run_end(raw: Seq<Seq<char>>, i: int, del: bool)
    requires
        0 <= i <= raw.len(),
    ensures
        i <= run_end(raw, i, del) <= raw.len(),
        forall|k: int|
            i <= k < run_end(raw, i, del) ==> (if del {
                is_del_line(#[trigger] raw[k])
            } else {
                is_ins_line(raw[k])
            }),
        run_end(raw, i, del) < raw.len() ==> !(if del {
            is_del_line(raw[run_end(raw, i, del)])
        } else {
            is_ins_line(raw[run_end(raw, i, del)])
        }),
    decreases raw.len() - i,
{
    if i < raw.len() && (if del {
        is_del_line(raw[i])
    } else {
        is_ins_line(raw[i])
    }) {
        lemma_run_end(raw, i + 1, del);
    }
}

/// How many highlight candidates come before line `i`.
pub open spec fn ctx_rank(raw: Seq<Seq<char>>, i: int) -> nat
    decreases i,
{
    if i <= 0 || i > raw.len() {
        0
    } else {
        ctx_rank(raw, i - 1) + if is_ctx_candidate(raw[i - 1]) {
            1nat
        } else {
            0nat
        }
    }
}

/// A line shown as one run: scrolled, in `fg` (no colour for plain context).
pub open spec fn plain_line(l: Seq<char>, hscroll: nat, fg: Option<Color>) -> Seq<RunView> {
    seq![run_of(skip_chars(l, hscroll), fg, false)]
}

/// The lines a block of `-` lines `raw[i..d]` followed by `+` lines `raw[d..e]` shows: paired
/// lines (the shorter run's length) get word-level highlighting, the extras plain colour.
pub open spec fn block_lines(raw: Seq<Seq<char>>, i: int, d: int, e: int, hscroll: nat, theme: Theme) -> Seq<Seq<RunView>> {
    let dels = raw.subrange(i, d);
    let inss = raw.subrange(d, e);
    let pair = if dels.len() < inss.len() {
        dels.len()
    } else {
        inss.len()
    };
    Seq::new(
        dels.len(),
        |j: int|
            if j < pair {
                inline_line_spec(dels[j], inss[j], hscroll, theme.del_color, '-', WORD_DELETE)
            } else {
                plain_line(dels[j], hscroll, Some(theme.del_color))
            },
    ) + Seq::new(
        inss.len(),
        |j: int|
            if j < pair {
                inline_line_spec(dels[j], inss[j], hscroll, theme.ins_color, '+', WORD_INSERT)
            } else {
                plain_line(inss[j], hscroll, Some(theme.ins_color))
            },
    )
}

/// The lines shown for `raw[i..]`, before vertical scroll; `hl` holds the highlighter's runs
/// for the candidate context lines, in order, when highlighting is on.
pub open spec fn render_from(raw: Seq<Seq<char>>, i: int, hscroll: nat, hl: Option<Seq<Seq<RunView>>>, theme: Theme) -> Seq<Seq<RunView>>
    decreases raw.len() - i,
{
    if i < 0 || i >= raw.len() {
        Seq::empty()
    } else if is_del_line(raw[i]) || is_ins_line(raw[i]) {
        let d = run_end(raw, i, true);
        let e = run_end(raw, d, false);
        proof {
            lemma_run_end(raw, i, true);
            lemma_run_end(raw, d, false);
        }
        if e <= i {
            Seq::empty()
        } else {
            block_lines(raw, i, d, e, hscroll, theme) + render_from(raw, e, hscroll, hl, theme)
        }
    } else if is_header_line(raw[i]) {
        seq![header_line_spec(raw[i], hscroll, theme)] + render_from(raw, i + 1, hscroll, hl, theme)
    } else if hl is Some && is_ctx_candidate(raw[i]) && ctx_rank(raw, i) < hl->0.len() {
        seq![scroll_runs(seq![run_of(seq![' '], None, false)] + hl->0[ctx_rank(raw, i) as int], hscroll)]
            + render_from(raw, i + 1, hscroll, hl, theme)
    } else {
        seq![plain_line(raw[i], hscroll, None)] + render_from(raw, i + 1, hscroll, hl, theme)
    }
}

/// The visible lines of the diff `text`: every line rendered, the first `vscroll` dropped.
pub open spec fn diff_view_spec(text: Seq<char>, vscroll: nat, hscroll: nat, hl: Option<Seq<Seq<RunView>>>, theme: Theme) -> Seq<Seq<RunView>> {
    let all = render_from(lines_of(text), 0, hscroll, hl, theme);
    if vscroll >= all.len() {
        Seq::empty()
    } else {
        all.skip(vscroll as int)
    }
}

/// How a diff line is shown.
#[derive(Debug, Clone, Copy, PartialEq, Eq, Structural)]
pub enum LineKind {
    Del,
    Ins,
    Header,
    Candidate,
    Plain,
}

/// The kind of line `l` is, as the painter tests it.
pub open spec fn line_kind_spec(l: Seq<char>) -> LineKind {
    if is_del_line(l) {
        LineKind::Del
    } else if is_ins_line(l) {
        LineKind::Ins
    } else if is_header_line(l) {
        LineKind::Header
    } else if is_ctx_candidate(l) {
        LineKind::Candidate
    } else {
        LineKind::Plain
    }
}

fn has_tab(v: &[char]) -> (r: bool)
    ensures
        r == v@.contains('\t'),
{
    let mut i: usize = 0;
    while i < v.len()
        invariant
            i <= v@.len(),
            forall|k: int| 0 <= k < i ==> v@[k] != '\t',
        decreases v@.len() - i,
    {
        if v[i] == '\t' {
            return true;
        }
        i = i + 1;
    }
    false
}

/// Classify one diff line.
pub fn line_kind(line: &str) -> (k: LineKind)
    ensures
        k == line_kind_spec(line@),
{
    let v = chars_of(line);
    assert(v@.skip(0) =~= v@);
    proof {
        reveal_strlit("-");
        reveal_strlit("---");
        reveal_strlit("+");
        reveal_strlit("+++");
        reveal_strlit(" ");
    }
    let dash = starts_with_at(v.as_slice(), 0, "-");
    let dashes = starts_with_at(v.as_slice(), 0, "---");
    let plus = starts_with_at(v.as_slice(), 0, "+");
    let pluses = starts_with_at(v.as_slice(), 0, "+++");
    assert("-"@ =~= seq!['-']);
    assert("---"@ =~= seq!['-', '-', '-']);
    assert("+"@ =~= seq!['+']);
    assert("+++"@ =~= seq!['+', '+', '+']);
    assert(" "@ =~= seq![' ']);
    if dash && !dashes {
        LineKind::Del
    } else if plus && !pluses {
        LineKind::Ins
    } else if pluses || dashes {
        LineKind::Header
    } else if starts_with_at(v.as_slice(), 0, " ") && !has_tab(v.as_slice()) {
        LineKind::Candidate
    } else {
        LineKind::Plain
    }
}

fn plain_line_exec(line: &str, hscroll: usize, fg: Option<Color>) -> (v: Vec<StyledText>)
    ensures
        styled_views(v@) == plain_line(line@, hscroll as nat, fg),
{
    let chars = chars_of(line);
    let visible = skip_str(chars.as_slice(), hscroll);
    let mut out: Vec<StyledText> = Vec::new();
    out.push(styled(visible, fg, false));
    assert(styled_views(out@) =~= plain_line(line@, hscroll as nat, fg));
    out
}

/// The views of rendered lines.
pub open spec fn line_views(v: Seq<Vec<StyledText>>) -> Seq<Seq<RunView>> {
    v.map_values(|l: Vec<StyledText>| styled_views(l@))
}

/// The view of the highlighter's runs, when there are any.
pub open spec fn highlight_view(h: Option<&[Vec<StyledText>]>) -> Option<Seq<Seq<RunView>>> {
    match h {
        Some(s) => Some(line_views(s@)),
        None => None,
    }
}

proof fn lemma_kinds_exclusive(l: Seq<char>)
    ensures
        is_del_line(l) ==> !is_ctx_candidate(l) && !is_header_line(l) && !is_ins_line(l),
        is_ins_line(l) ==> !is_ctx_candidate(l) && !is_header_line(l),
        is_header_line(l) ==> !is_ctx_candidate(l),
{
    if l.len() > 0 {
        assert(l.take(1)[0] == l[0]);
        if l.len() >= 3 {
            assert(l.take(3)[0] == l[0]);
        }
    }
}

proof fn lemma_rank_skips_changes(raw: Seq<Seq<char>>, a: int, b: int)
    requires
        0 <= a <= b <= raw.len(),
        forall|k: int| a <= k < b ==> is_del_line(#[trigger] raw[k]) || is_ins_line(raw[k]),
    ensures
        ctx_rank(raw, b) == ctx_rank(raw, a),
    decreases b - a,
{
    if b > a {
        lemma_kinds_exclusive(raw[b - 1]);
        lemma_rank_skips_changes(raw, a, b - 1);
    }
}

fn copy_styled(s: &StyledText) -> (c: StyledText)
    ensures
        crate::chrome::styled_view(c) == crate::chrome::styled_view(*s),
{
    StyledText { text: s.text.clone(), fg: s.fg, bold: s.bold, reversed: s.reversed }
}

/// The highlighter's runs for one context line, behind the re-prepended space marker, scrolled.
fn highlighted_context(runs: &Vec<StyledText>, hscroll: usize) -> (v: Vec<StyledText>)
    ensures
        styled_views(v@) == scroll_runs(
            seq![run_of(seq![' '], None, false)] + styled_views(runs@),
            hscroll as nat,
        ),
{
    let mut spans: Vec<StyledText> = Vec::new();
    let mut space = String::new();
    push_char(&mut space, ' ');
    spans.push(styled(space, None, false));
    let mut k: usize = 0;
    while k < runs.len()
        invariant
            k <= runs@.len(),
            styled_views(spans@) == seq![run_of(seq![' '], None, false)] + styled_views(runs@).take(
                k as int,
            ),
        decreases runs@.len() - k,
    {
        let ghost prev = styled_views(spans@);
        spans.push(copy_styled(&runs[k]));
        assert(styled_views(spans@) =~= prev.push(styled_views(runs@)[k as int]));
        assert(styled_views(runs@).take(k + 1) =~= styled_views(runs@).take(k as int).push(
            styled_views(runs@)[k as int],
        ));
        k = k + 1;
    }
    assert(styled_views(runs@).take(runs@.len() as int) =~= styled_views(runs@));
    apply_hscroll_spans(spans, hscroll)
}

/// Builds the visible, coloured lines of a unified diff. Adjacent `-`/`+` line pairs get
/// word-level inline highlighting (changed words bold) so small edits are easy to spot;
/// `---`/`+++` headers get their side tinted; scrolling is applied by hand — the first
/// `vscroll` lines skipped, `hscroll` leading characters dropped per line.
///
/// `highlighted`, when given, holds a syntax highlighter's runs for the unchanged context
/// lines that are space-prefixed and tab-free, in order; those lines are painted with them.
/// `-`/`+` lines always keep their red/green so the add/delete signal stays dominant.
pub fn diff_view_highlighted(
    text: &str,
    vscroll: u16,
    hscroll: u16,
    highlighted: Option<&[Vec<StyledText>]>,
    theme: &Theme,
) -> (v: Vec<Vec<StyledText>>)
    ensures
        line_views(v@) == diff_view_spec(
            text@,
            vscroll as nat,
            hscroll as nat,
            highlight_view(highlighted),
            *theme,
        ),
{
    let raw = split_lines(text);
    let ghost rv = crate::text::strings_view(raw@);
    let ghost hl = highlight_view(highlighted);
    let hs = hscroll as usize;
    let n = raw.len();
    let mut result: Vec<Vec<StyledText>> = Vec::new();
    let mut rank: usize = 0;
    let mut i: usize = 0;
    assert(line_views(result@) + render_from(rv, 0, hs as nat, hl, *theme) =~= render_from(
        rv,
        0,
        hs as nat,
        hl,
        *theme,
    ));
    while i < n
        invariant
            n == raw@.len(),
            rv == crate::text::strings_view(raw@),
            rv == lines_of(text@),
            hl == highlight_view(highlighted),
            hs == hscroll,
            i <= n,
            rank == ctx_rank(rv, i as int),
            rank <= i,
            render_from(rv, 0, hs as nat, hl, *theme) == line_views(result@) + render_from(
                rv,
                i as int,
                hs as nat,
                hl,
                *theme,
            ),
        decreases n - i,
    {
        let kind = line_kind(raw[i].as_str());
        proof {
            lemma_kinds_exclusive(rv[i as int]);
        }
        if kind == LineKind::Del || kind == LineKind::Ins {
            let start = i;
            let mut d = i;
            while d < n && line_kind(raw[d].as_str()) == LineKind::Del
                invariant
                    n == raw@.len(),
                    rv == crate::text::strings_view(raw@),
                    start <= d <= n,
                    run_end(rv, start as int, true) == run_end(rv, d as int, true),
                decreases n - d,
            {
                d = d + 1;
            }
            let mut e = d;
            while e < n && line_kind(raw[e].as_str()) == LineKind::Ins
                invariant
                    n == raw@.len(),
                    rv == crate::text::strings_view(raw@),
                    d <= e <= n,
                    run_end(rv, d as int, false) == run_end(rv, e as int, false),
                decreases n - e,
            {
                e = e + 1;
            }
            proof {
                lemma_run_end(rv, start as int, true);
                lemma_run_end(rv, d as int, false);
                assert(d as int == run_end(rv, start as int, true));
                assert(e as int == run_end(rv, d as int, false));
                assert(e > start);
                lemma_rank_skips_changes(rv, start as int, e as int);
            }
            let ghost block = block_lines(rv, start as int, d as int, e as int, hs as nat, *theme);
            let ghost before = line_views(result@);
            let dl = d - start;
            let il = e - d;
            let pair = if dl < il {
                dl
            } else {
                il
            };
            let mut j: usize = 0;
            while j < dl
                invariant
                    n == raw@.len(),
                    rv == crate::text::strings_view(raw@),
                    start <= d <= e <= n,
                    dl == d - start,
                    il == e - d,
                    pair == (if dl < il { dl } else { il }),
                    hs == hscroll,
                    block == block_lines(rv, start as int, d as int, e as int, hs as nat, *theme),
                    j <= dl,
                    line_views(result@) == before + block.take(j as int),
                decreases dl - j,
            {
                let line = if j < pair {
                    inline_change_line(
                        raw[start + j].as_str(),
                        raw[d + j].as_str(),
                        hs,
                        theme.del_color,
                        '-',
                        WORD_DELETE,
                    )
                } else {
                    plain_line_exec(raw[start + j].as_str(), hs, Some(theme.del_color))
                };
                let ghost prev = line_views(result@);
                result.push(line);
                assert(line_views(result@) =~= prev.push(styled_views(line@)));
                assert(block.take(j + 1) =~= block.take(j as int).push(block[j as int]));
                j = j + 1;
            }
            let mut j: usize = 0;
            while j < il
                invariant
                    n == raw@.len(),
                    rv == crate::text::strings_view(raw@),
                    start <= d <= e <= n,
                    dl == d - start,
                    il == e - d,
                    pair == (if dl < il { dl } else { il }),
                    hs == hscroll,
                    block == block_lines(rv, start as int, d as int, e as int, hs as nat, *theme),
                    j <= il,
                    line_views(result@) == before + block.take(dl + j),
                decreases il - j,
            {
                let line = if j < pair {
                    inline_change_line(
                        raw[start + j].as_str(),
                        raw[d + j].as_str(),
                        hs,
                        theme.ins_color,
                        '+',
                        WORD_INSERT,
                    )
                } else {
                    plain_line_exec(raw[d + j].as_str(), hs, Some(theme.ins_color))
                };
                let ghost prev = line_views(result@);
                result.push(line);
                assert(line_views(result@) =~= prev.push(styled_views(line@)));
                assert(block.take(dl + j + 1) =~= block.take(dl + j).push(block[dl + j]));
                j = j + 1;
            }
            assert(block.take(dl + il) =~= block);
            i = e;
        } else {
            let line = if kind == LineKind::Header {
                header_line(raw[i].as_str(), hs, theme)
            } else {
                match highlighted {
                    Some(h) if kind == LineKind::Candidate && rank < h.len() => highlighted_context(
                        &h[rank],
                        hs,
                    ),
                    _ => plain_line_exec(raw[i].as_str(), hs, None),
                }
            };
            let ghost prev = line_views(result@);
            result.push(line);
            assert(line_views(result@) =~= prev.push(styled_views(line@)));
            if kind == LineKind::Candidate {
                rank = rank + 1;
            }
            i = i + 1;
        }
    }
    assert(line_views(result@) + Seq::<Seq<RunView>>::empty() =~= line_views(result@));
    let vs = vscroll as usize;
    if vs >= result.len() {
        return Vec::new();
    }
    let ghost full = result@;
    let tail = result.split_off(vs);
    assert(line_views(tail@) =~= line_views(full).skip(vs as int));
    tail
}


// ---------------------------------------------------------------------------------------------
// Colours of the changed lines
// ---------------------------------------------------------------------------------------------

/// The first run of `runs` starts with the character `c`.
pub open spec fn leads_with(runs: Seq<RunView>, c: char) -> bool {
    runs.len() > 0 && runs[0].0.len() > 0 && runs[0].0[0] == c
}

/// Every run of `runs` is painted in `c`.
pub open spec fn all_in(runs: Seq<RunView>, c: Color) -> bool {
    forall|r: int| 0 <= r < runs.len() ==> (#[trigger] runs[r]).1 == Some(c)
}

proof fn lemma_scroll_runs_colors(v: Seq<RunView>, skip: nat, c: Color)
    requires
        all_in(v, c),
    ensures
        all_in(scroll_runs(v, skip), c),
        skip == 0 && v.len() > 0 && v[0].0.len() > 0 ==> scroll_runs(v, skip).len() > 0
            && scroll_runs(v, skip)[0].0 == v[0].0,
    decreases v.len(),
{
    if v.len() > 0 {
        assert(all_in(v.drop_first(), c)) by {
            assert forall|r: int| 0 <= r < v.drop_first().len() implies (
            #[trigger] v.drop_first()[r]).1 == Some(c) by {
                assert(v.drop_first()[r] == v[r + 1]);
            }
        }
        let r = v[0];
        if skip >= r.0.len() {
            lemma_scroll_runs_colors(v.drop_first(), (skip - r.0.len()) as nat, c);
        } else {
            lemma_scroll_runs_colors(v.drop_first(), 0, c);
            let head = seq![(r.0.skip(skip as int), r.1, r.2, r.3)];
            let tail = scroll_runs(v.drop_first(), 0);
            if skip == 0 {
                assert(r.0.skip(0) =~= r.0);
            }
            assert forall|k: int| 0 <= k < (head + tail).len() implies (#[trigger] (head
                + tail)[k]).1 == Some(c) by {
                if k > 0 {
                    assert((head + tail)[k] == tail[k - 1]);
                }
            }
        }
    }
}

proof fn lemma_change_runs_colors(cs: Seq<(u8, Seq<char>)>, color: Color, tag: u8)
    ensures
        all_in(change_runs(cs, color, tag), color),
    decreases cs.len(),
{
    if cs.len() > 0 {
        lemma_change_runs_colors(cs.drop_first(), color, tag);
        let head: Seq<RunView> = if cs[0].0 == tag {
            seq![run_of(cs[0].1, Some(color), true)]
        } else if cs[0].0 == WORD_EQUAL {
            seq![run_of(cs[0].1, Some(color), false)]
        } else {
            Seq::empty()
        };
        let tail = change_runs(cs.drop_first(), color, tag);
        assert(change_runs(cs, color, tag) == head + tail);
        assert forall|k: int| 0 <= k < (head + tail).len() implies (#[trigger] (head + tail)[k]).1
            == Some(color) by {
            if k >= head.len() {
                assert((head + tail)[k] == tail[k - head.len()]);
            }
        }
    }
}

/// An inline-highlighted side is painted in its colour throughout, and starts with its
/// marker when not scrolled.
proof fn lemma_inline_line_colors(
    del_line: Seq<char>,
    ins_line: Seq<char>,
    hscroll: nat,
    color: Color,
    prefix: char,
    tag: u8,
)
    ensures
        all_in(inline_line_spec(del_line, ins_line, hscroll, color, prefix, tag), color),
        hscroll == 0 ==> leads_with(
            inline_line_spec(del_line, ins_line, hscroll, color, prefix, tag),
            prefix,
        ),
{
    let cr = change_runs(word_changes_of(body_of(del_line), body_of(ins_line)), color, tag);
    lemma_change_runs_colors(word_changes_of(body_of(del_line), body_of(ins_line)), color, tag);
    let v = seq![run_of(seq![prefix], Some(color), false)] + cr;
    assert forall|k: int| 0 <= k < v.len() implies (#[trigger] v[k]).1 == Some(color) by {
        if k > 0 {
            assert(v[k] == cr[k - 1]);
        }
    }
    lemma_scroll_runs_colors(v, hscroll, color);
}

/// The lines rendered from `raw[i..]`: one per raw line, and each `-` line painted in the
/// delete colour throughout, each `+` line in the insert colour, each starting with its
/// marker when not scrolled sideways.
proof fn lemma_render_from_colors(
    raw: Seq<Seq<char>>,
    i: int,
    hscroll: nat,
    hl: Option<Seq<Seq<RunView>>>,
    theme: Theme,
)
    requires
        0 <= i <= raw.len(),
    ensures
        ({
            let out = render_from(raw, i, hscroll, hl, theme);
            &&& out.len() == raw.len() - i
            &&& forall|k: int|
                0 <= k < out.len() ==> {
                    &&& is_ins_line(raw[i + k]) ==> all_in(#[trigger] out[k], theme.ins_color)
                        && (hscroll == 0 ==> leads_with(out[k], '+'))
                    &&& is_del_line(raw[i + k]) ==> all_in(out[k], theme.del_color) && (hscroll
                        == 0 ==> leads_with(out[k], '-'))
                }
        }),
    decreases raw.len() - i,
{
    if i < raw.len() {
        if is_del_line(raw[i]) || is_ins_line(raw[i]) {
            let d = run_end(raw, i, true);
            let e = run_end(raw, d, false);
            lemma_run_end(raw, i, true);
            lemma_run_end(raw, d, false);
            if is_ins_line(raw[i]) {
                lemma_kinds_exclusive(raw[i]);
            }
            assert(e > i);
            lemma_render_from_colors(raw, e, hscroll, hl, theme);
            let block = block_lines(raw, i, d, e, hscroll, theme);
            let rest = render_from(raw, e, hscroll, hl, theme);
            let out = render_from(raw, i, hscroll, hl, theme);
            assert(out == block + rest);
            let dels = raw.subrange(i, d);
            let inss = raw.subrange(d, e);
            let pair = if dels.len() < inss.len() {
                dels.len()
            } else {
                inss.len()
            };
            assert forall|k: int| 0 <= k < out.len() implies {
                &&& is_ins_line(raw[i + k]) ==> all_in(#[trigger] out[k], theme.ins_color) && (
                hscroll == 0 ==> leads_with(out[k], '+'))
                &&& is_del_line(raw[i + k]) ==> all_in(out[k], theme.del_color) && (hscroll == 0
                    ==> leads_with(out[k], '-'))
            } by {
                lemma_kinds_exclusive(raw[i + k]);
                if k < d - i {
                    let j = k;
                    assert(dels[j] == raw[i + k]);
                    assert(is_del_line(raw[i + k]));
                    assert(out[k] == block[k]);
                    if j < pair {
                        lemma_inline_line_colors(
                            dels[j],
                            inss[j],
                            hscroll,
                            theme.del_color,
                            '-',
                            WORD_DELETE,
                        );
                    }
                } else if k < e - i {
                    let j = k - (d - i);
                    assert(inss[j] == raw[i + k]);
                    assert(is_ins_line(raw[i + k]));
                    assert(out[k] == block[k]);
                    if j < pair {
                        lemma_inline_line_colors(
                            dels[j],
                            inss[j],
                            hscroll,
                            theme.ins_color,
                            '+',
                            WORD_INSERT,
                        );
                    }
                } else {
                    assert(out[k] == rest[k - (e - i)]);
                    assert(raw[i + k] == raw[e + (k - (e - i))]);
                }
            }
        } else {
            lemma_render_from_colors(raw, i + 1, hscroll, hl, theme);
            let out = render_from(raw, i, hscroll, hl, theme);
            let rest = render_from(raw, i + 1, hscroll, hl, theme);
            assert forall|k: int| 0 <= k < out.len() implies {
                &&& is_ins_line(raw[i + k]) ==> all_in(#[trigger] out[k], theme.ins_color) && (
                hscroll == 0 ==> leads_with(out[k], '+'))
                &&& is_del_line(raw[i + k]) ==> all_in(out[k], theme.del_color) && (hscroll == 0
                    ==> leads_with(out[k], '-'))
            } by {
                if k > 0 {
                    assert(out[k] == rest[k - 1]);
                    assert(raw[i + k] == raw[(i + 1) + (k - 1)]);
                }
            }
        }
    }
}

/// The diff view keeps the add/delete signal: it shows one line per line of the diff below
/// the scroll, and every `+` line of the diff is painted in the theme's insert colour
/// throughout, every `-` line in its delete colour, whatever the highlighter gave for the
/// context; unscrolled sideways, each starts with its own `+` or `-` marker.
pub proof fn law_changed_lines_keep_their_colours(
    text: Seq<char>,
    vscroll: nat,
    hscroll: nat,
    hl: Option<Seq<Seq<RunView>>>,
    theme: Theme,
)
    ensures
        ({
            let raw = lines_of(text);
            let v = diff_view_spec(text, vscroll, hscroll, hl, theme);
            &&& v.len() == (if vscroll < raw.len() {
                raw.len() - vscroll
            } else {
                0
            })
            &&& forall|k: int|
                0 <= k < v.len() ==> {
                    &&& is_ins_line(raw[vscroll + k]) ==> all_in(#[trigger] v[k], theme.ins_color)
                        && (hscroll == 0 ==> leads_with(v[k], '+'))
                    &&& is_del_line(raw[vscroll + k]) ==> all_in(v[k], theme.del_color) && (
                    hscroll == 0 ==> leads_with(v[k], '-'))
                }
        }),
{
    let raw = lines_of(text);
    lemma_render_from_colors(raw, 0, hscroll, hl, theme);
    let all = render_from(raw, 0, hscroll, hl, theme);
    if vscroll < all.len() {
        let v = all.skip(vscroll as int);
        assert forall|k: int| 0 <= k < v.len() implies v[k] == all[vscroll + k] by {}
    }
}

} // verus!
