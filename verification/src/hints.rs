//! The footer's key hints as styled runs: each `·`-separated item's leading key is accented
//! by what its action risks, its label keeps the default colour, and the separators and the
//! indents are dimmed. Every character of the hint text is kept, so a painted hint line is as
//! wide as the text it was sized by.

use vstd::prelude::*;
use crate::chrome::{category_color, category_color_spec, Category, StyledText};
use crate::text::{is_whitespace, is_ws, owned, str_eq, string_of_range, chars_of};
use crate::theme::{Color, Theme};

verus! {

/// The separator between hint items.
pub const HINT_SEP: char = '·';

/// A key of the screen's keymap and what its action risks.
#[derive(Debug, Clone, PartialEq, Eq)]
pub struct KeyBinding {
    pub key: String,
    pub category: Category,
}

/// What the key `key` risks: the first binding of that key, and navigation for a key no
/// binding claims.
pub open spec fn category_of(bindings: Seq<KeyBinding>, key: Seq<char>) -> Category
    decreases bindings.len(),
{
    if bindings.len() == 0 {
        Category::Nav
    } else if bindings[0].key@ == key {
        bindings[0].category
    } else {
        category_of(bindings.drop_first(), key)
    }
}

/// What the key `key` risks (see [`category_of`]).
pub fn category_for_key(bindings: &[KeyBinding], key: &str) -> (c: Category)
    ensures
        c == category_of(bindings@, key@),
{
    let mut i: usize = 0;
    assert(bindings@.skip(0) =~= bindings@);
    while i < bindings.len()
        invariant
            i <= bindings@.len(),
            category_of(bindings@, key@) == category_of(bindings@.skip(i as int), key@),
        decreases bindings@.len() - i,
    {
        assert(bindings@.skip(i as int)[0] == bindings@[i as int]);
        assert(bindings@.skip(i as int).drop_first() =~= bindings@.skip(i + 1));
        if str_eq(bindings[i].key.as_str(), key) {
            return bindings[i].category;
        }
        i = i + 1;
    }
    Category::Nav
}

/// The first index at or after `i` holding `c`, or the length when none does.
pub open spec fn next_char(s: Seq<char>, i: int, c: char) -> int
    decreases s.len() - i,
{
    if i >= s.len() {
        s.len() as int
    } else if s[i] == c {
        i
    } else {
        next_char(s, i + 1, c)
    }
}

/// The first index at or after `i` holding whitespace, or the length when none does.
pub open spec fn next_ws(s: Seq<char>, i: int) -> int
    decreases s.len() - i,
{
    if i >= s.len() {
        s.len() as int
    } else if is_ws(s[i]) {
        i
    } else {
        next_ws(s, i + 1)
    }
}

/// The first index at or after `i` holding no whitespace, or the length when none does.
pub open spec fn next_non_ws(s: Seq<char>, i: int) -> int
    decreases s.len() - i,
{
    if i >= s.len() {
        s.len() as int
    } else if !is_ws(s[i]) {
        i
    } else {
        next_non_ws(s, i + 1)
    }
}

pub proof fn lemma_next_char_bounds(s: Seq<char>, i: int, c: char)
    requires
        0 <= i <= s.len(),
    ensures
        i <= next_char(s, i, c) <= s.len(),
        next_char(s, i, c) < s.len() ==> s[next_char(s, i, c)] == c,
    decreases s.len() - i,
{
    if i < s.len() && s[i] != c {
        lemma_next_char_bounds(s, i + 1, c);
    }
}

pub proof fn lemma_next_ws_bounds(s: Seq<char>, i: int)
    requires
        0 <= i <= s.len(),
    ensures
        i <= next_ws(s, i) <= s.len(),
    decreases s.len() - i,
{
    if i < s.len() && !is_ws(s[i]) {
        lemma_next_ws_bounds(s, i + 1);
    }
}

pub proof fn lemma_next_non_ws_bounds(s: Seq<char>, i: int)
    requires
        0 <= i <= s.len(),
    ensures
        i <= next_non_ws(s, i) <= s.len(),
    decreases s.len() - i,
{
    if i < s.len() && is_ws(s[i]) {
        lemma_next_non_ws_bounds(s, i + 1);
    }
}

/// One run: its characters and colour (`None` for the terminal's default).
pub type Run = (Seq<char>, Option<Color>);

/// The runs of one hint item `seg`: its indent, dimmed (when it has one); then its key, the
/// text up to the first whitespace, in its category's colour; then the rest, its label, in
/// the default colour (when there is one).
pub open spec fn item_runs(seg: Seq<char>, bindings: Seq<KeyBinding>, theme: Theme) -> Seq<Run> {
    let lead = next_non_ws(seg, 0);
    let indent = seg.take(lead);
    let rest = seg.skip(lead);
    let p = next_ws(rest, 0);
    let key = rest.take(p);
    let label = rest.skip(p);
    (if lead > 0 {
        seq![(indent, Some(theme.dim))]
    } else {
        Seq::empty()
    }) + (if rest.len() == 0 {
        Seq::empty()
    } else {
        seq![(key, Some(category_color_spec(category_of(bindings, key), theme)))]
    }) + (if label.len() == 0 {
        Seq::empty()
    } else {
        seq![(label, None)]
    })
}

/// The runs of the hint text `s` from index `from`: each item's runs, the items separated by
/// a dimmed `·`.
pub open spec fn hint_runs_from(s: Seq<char>, from: int, bindings: Seq<KeyBinding>, theme: Theme) -> Seq<Run>
    decreases s.len() - from,
{
    if from < 0 || from > s.len() {
        Seq::empty()
    } else {
        let end = next_char(s, from, HINT_SEP);
        let here = item_runs(s.subrange(from, end), bindings, theme);
        if end < s.len() && end >= from {
            here + seq![(seq![HINT_SEP], Some(theme.dim))] + hint_runs_from(
                s,
                end + 1,
                bindings,
                theme,
            )
        } else {
            here
        }
    }
}

/// The (characters, colour) view of runs.
pub open spec fn runs_of(v: Seq<StyledText>) -> Seq<Run> {
    v.map_values(|r: StyledText| (r.text@, r.fg))
}

/// No run is bold or reversed.
pub open spec fn unemphasised(v: Seq<StyledText>) -> bool {
    forall|i: int| 0 <= i < v.len() ==> !(#[trigger] v[i]).bold && !v[i].reversed
}

/// The characters of runs, joined.
pub open spec fn joined_runs(v: Seq<Run>) -> Seq<char>
    decreases v.len(),
{
    if v.len() == 0 {
        Seq::empty()
    } else {
        joined_runs(v.drop_last()) + v.last().0
    }
}

fn push_styled(out: &mut Vec<StyledText>, text: String, fg: Option<Color>)
    requires
        unemphasised(old(out)@),
    ensures
        runs_of(final(out)@) == runs_of(old(out)@).push((text@, fg)),
        unemphasised(final(out)@),
{
    let ghost before = out@;
    out.push(StyledText { text, fg, bold: false, reversed: false });
    assert(runs_of(out@) =~= runs_of(before).push((text@, fg)));
}

/// Push the runs of the hint item `v[start..end]` (see [`item_runs`]).
fn push_item(
    out: &mut Vec<StyledText>,
    v: &[char],
    start: usize,
    end: usize,
    bindings: &[KeyBinding],
    theme: &Theme,
)
    requires
        start <= end <= v@.len(),
        unemphasised(old(out)@),
    ensures
        runs_of(final(out)@) == runs_of(old(out)@) + item_runs(
            v@.subrange(start as int, end as int),
            bindings@,
            *theme,
        ),
        unemphasised(final(out)@),
{
    let ghost seg = v@.subrange(start as int, end as int);
    let ghost before = runs_of(out@);
    // The indent.
    let mut a: usize = start;
    proof {
        lemma_next_non_ws_bounds(seg, 0);
    }
    while a < end && is_whitespace(v[a])
        invariant
            start <= a <= end <= v@.len(),
            seg == v@.subrange(start as int, end as int),
            next_non_ws(seg, 0) == next_non_ws(seg, a - start),
        decreases end - a,
    {
        a = a + 1;
    }
    let ghost lead = (a - start) as int;
    assert(next_non_ws(seg, 0) == lead);
    if a > start {
        push_styled(out, string_of_range(v, start, a), Some(theme.dim));
        assert(v@.subrange(start as int, a as int) =~= seg.take(lead));
    }
    let ghost rest = seg.skip(lead);
    // The key.
    let mut b: usize = a;
    proof {
        lemma_next_ws_bounds(rest, 0);
    }
    while b < end && !is_whitespace(v[b])
        invariant
            start <= a <= b <= end <= v@.len(),
            rest == v@.subrange(a as int, end as int),
            next_ws(rest, 0) == next_ws(rest, b - a),
        decreases end - b,
    {
        b = b + 1;
    }
    assert(rest =~= v@.subrange(a as int, end as int));
    let ghost p = (b - a) as int;
    assert(next_ws(rest, 0) == p);
    if a < end {
        let key = string_of_range(v, a, b);
        assert(key@ =~= rest.take(p));
        let category = category_for_key(bindings, key.as_str());
        let colour = category_color(category, theme);
        push_styled(out, key, Some(colour));
    }
    // The label.
    if b < end {
        let label = string_of_range(v, b, end);
        assert(label@ =~= rest.skip(p));
        push_styled(out, label, None);
    }
    assert(runs_of(out@) =~= before + item_runs(seg, bindings@, *theme));
}

/// The footer's hint text `text` as styled runs (see [`hint_runs_from`]): keys accented by
/// their category in `bindings`, labels plain, separators and indents dimmed.
pub fn hint_line(text: &str, bindings: &[KeyBinding], theme: &Theme) -> (v: Vec<StyledText>)
    ensures
        runs_of(v@) == hint_runs_from(text@, 0, bindings@, *theme),
        unemphasised(v@),
{
    let chars = chars_of(text);
    let ghost s = chars@;
    let n = chars.len();
    let mut out: Vec<StyledText> = Vec::new();
    let mut start: usize = 0;
    assert(runs_of(out@) =~= Seq::<Run>::empty());
    loop
        invariant
            s == chars@,
            s == text@,
            n == s.len(),
            start <= n,
            unemphasised(out@),
            runs_of(out@) + hint_runs_from(s, start as int, bindings@, *theme) == hint_runs_from(
                s,
                0,
                bindings@,
                *theme,
            ),
        decreases n - start,
    {
        let mut end: usize = start;
        proof {
            lemma_next_char_bounds(s, start as int, HINT_SEP);
        }
        while end < n && chars[end] != HINT_SEP
            invariant
                start <= end <= n,
                n == s.len(),
                s == chars@,
                next_char(s, start as int, HINT_SEP) == next_char(s, end as int, HINT_SEP),
            decreases n - end,
        {
            end = end + 1;
        }
        let ghost prev = runs_of(out@);
        let ghost here = item_runs(s.subrange(start as int, end as int), bindings@, *theme);
        push_item(&mut out, chars.as_slice(), start, end, bindings, theme);
        if end < n {
            let mut dot = String::new();
            crate::text::push_char(&mut dot, HINT_SEP);
            assert(dot@ =~= seq![HINT_SEP]);
            push_styled(&mut out, dot, Some(theme.dim));
            assert(runs_of(out@) =~= prev + here + seq![(seq![HINT_SEP], Some(theme.dim))]);
            assert(hint_runs_from(s, start as int, bindings@, *theme) == here + seq![
                (seq![HINT_SEP], Some(theme.dim)),
            ] + hint_runs_from(s, end + 1, bindings@, *theme));
            assert(runs_of(out@) + hint_runs_from(s, end + 1, bindings@, *theme) =~= prev
                + hint_runs_from(s, start as int, bindings@, *theme));
            start = end + 1;
        } else {
            assert(hint_runs_from(s, start as int, bindings@, *theme) == here);
            return out;
        }
    }
}

// ---------------------------------------------------------------------------------------------
// Every character is kept
// ---------------------------------------------------------------------------------------------

pub proof fn lemma_joined_concat(a: Seq<Run>, b: Seq<Run>)
    ensures
        joined_runs(a + b) == joined_runs(a) + joined_runs(b),
    decreases b.len(),
{
    if b.len() == 0 {
        assert(a + b =~= a);
        assert(joined_runs(a) + joined_runs(b) =~= joined_runs(a));
    } else {
        lemma_joined_concat(a, b.drop_last());
        assert((a + b).drop_last() =~= a + b.drop_last());
        assert(joined_runs(a) + joined_runs(b) =~= joined_runs(a) + joined_runs(b.drop_last())
            + b.last().0);
    }
}

pub proof fn lemma_joined_one(r: Run)
    ensures
        joined_runs(seq![r]) == r.0,
{
    let one: Seq<Run> = seq![r];
    assert(one.drop_last() =~= Seq::<Run>::empty());
    assert(one.last() == r);
    assert(joined_runs(Seq::<Run>::empty()) == Seq::<char>::empty());
    assert(Seq::<char>::empty() + r.0 =~= r.0);
}

/// An item's runs hold exactly its characters.
pub proof fn lemma_item_runs_keep(seg: Seq<char>, bindings: Seq<KeyBinding>, theme: Theme)
    ensures
        joined_runs(item_runs(seg, bindings, theme)) == seg,
{
    let lead = next_non_ws(seg, 0);
    lemma_next_non_ws_bounds(seg, 0);
    let indent = seg.take(lead);
    let rest = seg.skip(lead);
    let p = next_ws(rest, 0);
    lemma_next_ws_bounds(rest, 0);
    let key = rest.take(p);
    let label = rest.skip(p);
    let r1: Seq<Run> = if lead > 0 {
        seq![(indent, Some(theme.dim))]
    } else {
        Seq::empty()
    };
    let r2: Seq<Run> = if rest.len() == 0 {
        Seq::empty()
    } else {
        seq![(key, Some(category_color_spec(category_of(bindings, key), theme)))]
    };
    let r3: Seq<Run> = if label.len() == 0 {
        Seq::empty()
    } else {
        seq![(label, None)]
    };
    lemma_joined_concat(r1 + r2, r3);
    lemma_joined_concat(r1, r2);
    if lead > 0 {
        lemma_joined_one((indent, Some(theme.dim)));
    }
    if rest.len() > 0 {
        lemma_joined_one((key, Some(category_color_spec(category_of(bindings, key), theme))));
    }
    if label.len() > 0 {
        lemma_joined_one((label, None));
    }
    assert(joined_runs(r1) =~= indent);
    assert(joined_runs(r2) =~= key);
    assert(joined_runs(r3) =~= label);
    assert(indent + key + label =~= seg);
}

/// Every character of the hint text from `from` on is kept, in order, by its runs.
pub proof fn lemma_hint_runs_keep(s: Seq<char>, from: int, bindings: Seq<KeyBinding>, theme: Theme)
    requires
        0 <= from <= s.len(),
    ensures
        joined_runs(hint_runs_from(s, from, bindings, theme)) == s.subrange(from, s.len() as int),
    decreases s.len() - from,
{
    let end = next_char(s, from, HINT_SEP);
    lemma_next_char_bounds(s, from, HINT_SEP);
    let here = item_runs(s.subrange(from, end), bindings, theme);
    lemma_item_runs_keep(s.subrange(from, end), bindings, theme);
    if end < s.len() {
        lemma_hint_runs_keep(s, end + 1, bindings, theme);
        let dot: Seq<Run> = seq![(seq![HINT_SEP], Some(theme.dim))];
        let tail = hint_runs_from(s, end + 1, bindings, theme);
        lemma_joined_concat(here + dot, tail);
        lemma_joined_concat(here, dot);
        lemma_joined_one((seq![HINT_SEP], Some(theme.dim)));
        assert(s.subrange(from, end) + seq![HINT_SEP] + s.subrange(end + 1, s.len() as int)
            =~= s.subrange(from, s.len() as int));
    } else {
        assert(s.subrange(from, end) =~= s.subrange(from, s.len() as int));
    }
}

/// A hint line keeps every character of its text, in order: painted, it is exactly as wide
/// as the text the footer was sized by.
pub proof fn law_hint_line_preserves_every_character(s: Seq<char>, bindings: Seq<KeyBinding>, theme: Theme)
    ensures
        joined_runs(hint_runs_from(s, 0, bindings, theme)) == s,
{
    lemma_hint_runs_keep(s, 0, bindings, theme);
    assert(s.subrange(0, s.len() as int) =~= s);
}

} // verus!
