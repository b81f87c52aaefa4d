//! How a confirm modal lays out its answer keys in rows, and how many rows its body takes.

use vstd::prelude::*;
use crate::chrome::{wrap_line_count, wrap_line_count_spec};
use crate::confirm::{ConfirmKeyVm, ConfirmPromptVm};
use crate::text::{owned, push_char, push_str};

verus! {

/// One run of a key row: the key itself (painted in the border colour, bold) or the text
/// after it.
pub struct KeySpan {
    pub text: String,
    pub is_key: bool,
}

/// Cells a key and its label take.
pub open spec fn key_width_of(k: ConfirmKeyVm) -> int {
    (k.key@.len() + 2 + k.label@.len()) as int
}

/// The widest key among the first `n` of `ks`, or 0.
pub open spec fn widest(ks: Seq<ConfirmKeyVm>, n: int) -> int
    decreases n,
{
    if n <= 0 {
        0
    } else {
        let w = key_width_of(ks[n - 1]);
        let rest = widest(ks, n - 1);
        if w > rest {
            w
        } else {
            rest
        }
    }
}

/// The cell each key gets: the widest key of both groups plus a gutter of four.
pub open spec fn cell_of(keys: Seq<ConfirmKeyVm>, options: Seq<ConfirmKeyVm>) -> int {
    let a = widest(keys, keys.len() as int);
    let b = widest(options, options.len() as int);
    (if a > b {
        a
    } else {
        b
    }) + 4
}

/// Keys a row holds: as many cells as fit in the modal's inner width (the last key needs no
/// gutter, which buys four cells), at least one.
pub open spec fn per_line_spec(cell: int, inner_width: int) -> int {
    if cell > inner_width + 4 {
        1
    } else {
        (inner_width + 4) / cell
    }
}

/// ` ` repeated `n` times.
pub open spec fn spaces(n: nat) -> Seq<char>
    decreases n,
{
    if n == 0 {
        Seq::empty()
    } else {
        spaces((n - 1) as nat).push(' ')
    }
}

/// The runs of one key of a row: the key, then two spaces, the label, and (unless it ends
/// the row) the padding out to the cell.
pub open spec fn key_runs(k: ConfirmKeyVm, last: bool, cell: int) -> Seq<(Seq<char>, bool)> {
    let pad = if last || cell <= key_width_of(k) {
        Seq::<char>::empty()
    } else {
        spaces((cell - key_width_of(k)) as nat)
    };
    seq![(k.key@, true), ("  "@ + k.label@ + pad, false)]
}

/// The runs of the first `n` keys of `row`.
pub open spec fn runs_upto(row: Seq<ConfirmKeyVm>, n: int, cell: int) -> Seq<(Seq<char>, bool)>
    decreases n,
{
    if n <= 0 {
        Seq::empty()
    } else {
        runs_upto(row, n - 1, cell) + key_runs(row[n - 1], n == row.len(), cell)
    }
}

/// The rows of `group`, `per` keys to a row, in order.
pub open spec fn chunk_rows(group: Seq<ConfirmKeyVm>, per: int, cell: int) -> Seq<Seq<(Seq<char>, bool)>>
    decreases group.len(),
{
    if group.len() == 0 || per <= 0 {
        Seq::empty()
    } else if group.len() <= per {
        seq![runs_upto(group, group.len() as int, cell)]
    } else {
        seq![runs_upto(group.take(per), per, cell)] + chunk_rows(group.skip(per), per, cell)
    }
}

/// The key rows of a confirm modal whose inner width is `inner_width`: the answer keys,
/// then the options, each group broken into rows of equal cells.
pub open spec fn key_rows_spec(
    keys: Seq<ConfirmKeyVm>,
    options: Seq<ConfirmKeyVm>,
    inner_width: int,
) -> Seq<Seq<(Seq<char>, bool)>> {
    let cell = cell_of(keys, options);
    let per = per_line_spec(cell, inner_width);
    chunk_rows(keys, per, cell) + chunk_rows(options, per, cell)
}

/// The views of a row's runs.
pub open spec fn spans_view(v: Seq<KeySpan>) -> Seq<(Seq<char>, bool)> {
    v.map_values(|s: KeySpan| (s.text@, s.is_key))
}

/// The views of rows.
pub open spec fn rows_view(v: Seq<Vec<KeySpan>>) -> Seq<Seq<(Seq<char>, bool)>> {
    v.map_values(|r: Vec<KeySpan>| spans_view(r@))
}

/// The widest key of `ks`, or 0.
fn widest_of(ks: &[ConfirmKeyVm]) -> (w: usize)
    requires
        forall|i: int| 0 <= i < ks@.len() ==> key_width_of(#[trigger] ks@[i]) <= u16::MAX,
    ensures
        w == widest(ks@, ks@.len() as int),
        w <= u16::MAX,
{
    let mut w: usize = 0;
    let mut i: usize = 0;
    while i < ks.len()
        invariant
            i <= ks@.len(),
            w == widest(ks@, i as int),
            w <= u16::MAX,
            forall|j: int| 0 <= j < ks@.len() ==> key_width_of(#[trigger] ks@[j]) <= u16::MAX,
        decreases ks@.len() - i,
    {
        assert(key_width_of(ks@[i as int]) <= u16::MAX);
        let k = ks[i].width();
        if k > w {
            w = k;
        }
        i = i + 1;
    }
    w
}

/// The runs of one key.
fn push_key_runs(out: &mut Vec<KeySpan>, k: &ConfirmKeyVm, last: bool, cell: usize)
    requires
        key_width_of(*k) <= u16::MAX,
    ensures
        spans_view(final(out)@) == spans_view(old(out)@) + key_runs(*k, last, cell as int),
{
    let ghost start = out@;
    out.push(KeySpan { text: owned(k.key), is_key: true });
    let mut t = owned("  ");
    push_str(&mut t, k.label.as_str());
    let w = k.width();
    if !last && cell > w {
        let n = cell - w;
        let ghost base = t@;
        let mut i: usize = 0;
        while i < n
            invariant
                i <= n,
                t@ == base + spaces(i as nat),
            decreases n - i,
        {
            push_char(&mut t, ' ');
            i = i + 1;
        }
    }
    let ghost mid = out@;
    out.push(KeySpan { text: t, is_key: false });
    proof {
        reveal_strlit("  ");
        assert(spans_view(out@) =~= spans_view(start) + key_runs(*k, last, cell as int));
    }
}

/// The rows of `group`, `per` keys to a row.
fn push_chunk_rows(rows: &mut Vec<Vec<KeySpan>>, group: &[ConfirmKeyVm], per: usize, cell: usize)
    requires
        per >= 1,
        forall|i: int| 0 <= i < group@.len() ==> key_width_of(#[trigger] group@[i]) <= u16::MAX,
    ensures
        rows_view(final(rows)@) == rows_view(old(rows)@) + chunk_rows(group@, per as int, cell as int),
{
    let ghost start_rows = rows@;
    let mut start: usize = 0;
    assert(group@.skip(0) =~= group@);
    while start < group.len()
        invariant
            start <= group@.len(),
            per >= 1,
            forall|i: int| 0 <= i < group@.len() ==> key_width_of(#[trigger] group@[i]) <= u16::MAX,
            rows_view(start_rows) + chunk_rows(group@, per as int, cell as int) == rows_view(rows@)
                + chunk_rows(group@.skip(start as int), per as int, cell as int),
        decreases group@.len() - start,
    {
        let left = group.len() - start;
        let n = if left <= per {
            left
        } else {
            per
        };
        let ghost sub = group@.skip(start as int);
        let ghost chunk = if left <= per {
            sub
        } else {
            sub.take(per as int)
        };
        assert(chunk.len() == n);
        let mut row: Vec<KeySpan> = Vec::new();
        let mut j: usize = 0;
        while j < n
            invariant
                j <= n,
                n == chunk.len(),
                start + n <= group@.len(),
                group@.len() <= usize::MAX,
                chunk == group@.subrange(start as int, start + n),
                forall|i: int| 0 <= i < group@.len() ==> key_width_of(#[trigger] group@[i]) <= u16::MAX,
                spans_view(row@) == runs_upto(chunk, j as int, cell as int),
            decreases n - j,
        {
            assert(chunk[j as int] == group@[start + j]);
            push_key_runs(&mut row, &group[start + j], j + 1 == n, cell);
            j = j + 1;
        }
        let ghost before = rows@;
        rows.push(row);
        assert(rows_view(rows@) =~= rows_view(before).push(runs_upto(chunk, n as int, cell as int)));
        if left <= per {
            assert(chunk_rows(sub, per as int, cell as int) =~= seq![runs_upto(sub, sub.len() as int, cell as int)]);
            assert(group@.skip(start + n) =~= Seq::<ConfirmKeyVm>::empty());
        } else {
            assert(sub.skip(per as int) =~= group@.skip(start + n));
            assert(chunk_rows(sub, per as int, cell as int) =~= seq![
                runs_upto(sub.take(per as int), per as int, cell as int),
            ] + chunk_rows(group@.skip(start + n), per as int, cell as int));
        }
        start = start + n;
    }
    assert(group@.skip(group@.len() as int) =~= Seq::<ConfirmKeyVm>::empty());
}

/// Lay the answer keys and then the options out in rows of equal cells for a modal whose
/// inner width is `inner_width` (see [`key_rows_spec`]).
pub fn confirm_key_rows(keys: &[ConfirmKeyVm], options: &[ConfirmKeyVm], inner_width: u16) -> (rows: Vec<Vec<KeySpan>>)
    requires
        forall|i: int| 0 <= i < keys@.len() ==> key_width_of(#[trigger] keys@[i]) <= u16::MAX,
        forall|i: int| 0 <= i < options@.len() ==> key_width_of(#[trigger] options@[i]) <= u16::MAX,
    ensures
        rows_view(rows@) == key_rows_spec(keys@, options@, inner_width as int),
{
    let a = widest_of(keys);
    let b = widest_of(options);
    let cell = (if a > b {
        a
    } else {
        b
    }) + 4;
    let room = inner_width as usize + 4;
    let per = if cell > room {
        1
    } else {
        assert(room / cell >= 1) by (nonlinear_arith)
            requires
                cell <= room,
                cell >= 4,
        ;
        room / cell
    };
    let mut rows: Vec<Vec<KeySpan>> = Vec::new();
    push_chunk_rows(&mut rows, keys, per, cell);
    push_chunk_rows(&mut rows, options, per, cell);
    assert(rows_view(Seq::<Vec<KeySpan>>::empty()) =~= Seq::empty());
    rows
}

/// Rows a confirm prompt's body takes at `inner_width`: the wrapped question, the wrapped
/// detail, and (when there are keys) a blank row and the key rows, counted in 16 bits that
/// stop at the top.
pub open spec fn body_rows_spec(p: ConfirmPromptVm, inner_width: int) -> u16 {
    let q = wrap_line_count_spec(p.question@, inner_width as nat) as int;
    let d = match p.detail {
        Some(t) => wrap_line_count_spec(t@, inner_width as nat) as int,
        None => 0,
    };
    let k = key_rows_spec(p.keys@, p.options@, inner_width).len();
    let total = q + d + if k > 0 {
        1 + k
    } else {
        0
    };
    if total > u16::MAX {
        u16::MAX
    } else {
        total as u16
    }
}

/// Rows a confirm prompt's body takes (see [`body_rows_spec`]).
pub fn confirm_body_rows(p: &ConfirmPromptVm, inner_width: u16) -> (n: u16)
    requires
        forall|i: int| 0 <= i < p.keys@.len() ==> key_width_of(#[trigger] p.keys@[i]) <= u16::MAX,
        forall|i: int| 0 <= i < p.options@.len() ==> key_width_of(#[trigger] p.options@[i])
            <= u16::MAX,
    ensures
        n == body_rows_spec(*p, inner_width as int),
{
    let mut rows = wrap_line_count(p.question.as_str(), inner_width);
    match &p.detail {
        Some(t) => rows = rows.saturating_add(wrap_line_count(t.as_str(), inner_width)),
        None => {},
    }
    let key_rows = confirm_key_rows(p.keys.as_slice(), p.options.as_slice(), inner_width);
    if key_rows.len() > 0 {
        let k: u16 = if key_rows.len() >= 65535 {
            65535
        } else {
            key_rows.len() as u16
        };
        rows = rows.saturating_add(1).saturating_add(k);
    }
    rows
}

} // verus!
