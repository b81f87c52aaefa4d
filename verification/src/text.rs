//! Character-sequence helpers shared by every label and fitting routine: building strings,
//! whitespace trimming, decimal rendering, and the line structure of a text body.

use vstd::prelude::*;
use vstd::string::*;

verus! {

// ---------------------------------------------------------------------------------------------
// Building strings
// ---------------------------------------------------------------------------------------------

/// Appends one character to `s`.
///
/// Calls `String::push`, which std documents as appending the given char to the end of the
/// string; the contract says exactly that over the string's character view.
#[verifier::external_body]
pub(crate) fn push_char(s: &mut String, c: char)
    ensures
        final(s)@ == old(s)@.push(c),
{
    s.push(c);
}

/// Appends `t` to `s`.
pub(crate) fn push_str(s: &mut String, t: &str)
    ensures
        final(s)@ == old(s)@ + t@,
{
    s.append(t);
}

/// The characters of `s`, in order.
pub fn chars_of(s: &str) -> (v: Vec<char>)
    ensures
        v@ == s@,
{
    let n = s.unicode_len();
    let mut v: Vec<char> = Vec::new();
    let mut i: usize = 0;
    while i < n
        invariant
            n == s@.len(),
            i <= n,
            v@ == s@.take(i as int),
        decreases n - i,
    {
        let c = s.get_char(i);
        v.push(c);
        i = i + 1;
        assert(v@ =~= s@.take(i as int));
    }
    assert(v@ =~= s@);
    v
}

/// A `String` holding exactly the characters of `v`.
pub fn string_of(v: &[char]) -> (s: String)
    ensures
        s@ == v@,
{
    let mut s = String::new();
    let mut i: usize = 0;
    while i < v.len()
        invariant
            i <= v.len(),
            s@ == v@.take(i as int),
        decreases v.len() - i,
    {
        push_char(&mut s, v[i]);
        i = i + 1;
        assert(s@ =~= v@.take(i as int));
    }
    assert(v@.take(v@.len() as int) =~= v@);
    s
}

/// A `String` holding the characters `v[from..to]`.
pub fn string_of_range(v: &[char], from: usize, to: usize) -> (s: String)
    requires
        from <= to <= v@.len(),
    ensures
        s@ == v@.subrange(from as int, to as int),
{
    let mut s = String::new();
    let mut i: usize = from;
    while i < to
        invariant
            from <= i <= to <= v@.len(),
            s@ == v@.subrange(from as int, i as int),
        decreases to - i,
    {
        push_char(&mut s, v[i]);
        i = i + 1;
        assert(s@ =~= v@.subrange(from as int, i as int));
    }
    s
}

/// A `String` copy of `t`.
pub fn owned(t: &str) -> (s: String)
    ensures
        s@ == t@,
{
    let mut s = String::new();
    push_str(&mut s, t);
    assert(s@ =~= t@);
    s
}

/// Whether `a` and `b` hold the same characters.
pub fn chars_eq(a: &[char], b: &[char]) -> (r: bool)
    ensures
        r == (a@ == b@),
{
    if a.len() != b.len() {
        return false;
    }
    let mut i: usize = 0;
    while i < a.len()
        invariant
            a@.len() == b@.len(),
            i <= a@.len(),
            forall|j: int| 0 <= j < i ==> a@[j] == b@[j],
        decreases a.len() - i,
    {
        if a[i] != b[i] {
            return false;
        }
        i = i + 1;
    }
    assert(a@ =~= b@);
    true
}

/// Whether the strings `a` and `b` hold the same characters.
pub fn str_eq(a: &str, b: &str) -> (r: bool)
    ensures
        r == (a@ == b@),
{
    let x = chars_of(a);
    let y = chars_of(b);
    chars_eq(x.as_slice(), y.as_slice())
}

// ---------------------------------------------------------------------------------------------
// Whitespace
// ---------------------------------------------------------------------------------------------

/// Unicode `White_Space`, the property `char::is_whitespace` tests.
pub open spec fn is_ws(c: char) -> bool {
    let u = c as u32;
    ||| 0x09 <= u <= 0x0D
    ||| u == 0x20
    ||| u == 0x85
    ||| u == 0xA0
    ||| u == 0x1680
    ||| 0x2000 <= u <= 0x200A
    ||| u == 0x2028
    ||| u == 0x2029
    ||| u == 0x202F
    ||| u == 0x205F
    ||| u == 0x3000
}

/// Whether `c` is whitespace in the sense of [`is_ws`].
pub fn is_whitespace(c: char) -> (r: bool)
    ensures
        r == is_ws(c),
{
    let u = c as u32;
    (0x09 <= u && u <= 0x0D) || u == 0x20 || u == 0x85 || u == 0xA0 || u == 0x1680 || (0x2000
        <= u && u <= 0x200A) || u == 0x2028 || u == 0x2029 || u == 0x202F || u == 0x205F || u
        == 0x3000
}

/// Length of the whitespace run of `s` that starts at `i`.
pub open spec fn ws_run_from(s: Seq<char>, i: int) -> nat
    decreases s.len() - i,
{
    if i < 0 || i >= s.len() || !is_ws(s[i]) {
        0
    } else {
        1 + ws_run_from(s, i + 1)
    }
}

/// Length of the whitespace run of `s` that ends just before `n`.
pub open spec fn ws_run_back(s: Seq<char>, n: int) -> nat
    decreases n,
{
    if n <= 0 || n > s.len() || !is_ws(s[n - 1]) {
        0
    } else {
        1 + ws_run_back(s, n - 1)
    }
}

/// `s` without its leading whitespace (`str::trim_start`).
pub open spec fn trim_start(s: Seq<char>) -> Seq<char> {
    s.skip(ws_run_from(s, 0) as int)
}

/// `s` without its trailing whitespace (`str::trim_end`).
pub open spec fn trim_end(s: Seq<char>) -> Seq<char> {
    s.take(s.len() - ws_run_back(s, s.len() as int))
}

/// `s` without leading or trailing whitespace (`str::trim`).
pub open spec fn trim(s: Seq<char>) -> Seq<char> {
    trim_end(trim_start(s))
}

pub proof fn lemma_ws_run_from_bound(s: Seq<char>, i: int)
    requires
        0 <= i <= s.len(),
    ensures
        i + ws_run_from(s, i) <= s.len(),
    decreases s.len() - i,
{
    if i < s.len() && is_ws(s[i]) {
        lemma_ws_run_from_bound(s, i + 1);
    }
}

pub proof fn lemma_ws_run_from_skip(s: Seq<char>, a: int, i: int)
    requires
        0 <= a <= s.len(),
        0 <= i,
    ensures
        ws_run_from(s.skip(a), i) == ws_run_from(s, a + i),
    decreases s.len() - a - i,
{
    if a + i < s.len() && is_ws(s[a + i]) {
        lemma_ws_run_from_skip(s, a, i + 1);
    }
}

pub proof fn lemma_ws_run_back_bound(s: Seq<char>, n: int)
    requires
        0 <= n <= s.len(),
    ensures
        ws_run_back(s, n) <= n,
    decreases n,
{
    if n > 0 && is_ws(s[n - 1]) {
        lemma_ws_run_back_bound(s, n - 1);
    }
}

pub proof fn lemma_ws_run_back_all(s: Seq<char>, n: int)
    requires
        0 < n <= s.len(),
        ws_run_back(s, n) == n,
    ensures
        is_ws(s[0]),
    decreases n,
{
    if n > 1 {
        lemma_ws_run_back_all(s, n - 1);
    }
}

/// Number of leading whitespace characters of `s[from..]`.
pub fn leading_ws(s: &[char], from: usize) -> (k: usize)
    requires
        from <= s@.len(),
    ensures
        k == ws_run_from(s@, from as int),
        from + k <= s@.len(),
        from + k < s@.len() ==> !is_ws(s@[from + k]),
{
    let mut i = from;
    while i < s.len() && is_whitespace(s[i])
        invariant
            from <= i <= s@.len(),
            ws_run_from(s@, from as int) == (i - from) + ws_run_from(s@, i as int),
        decreases s.len() - i,
    {
        i = i + 1;
    }
    i - from
}

/// Number of trailing whitespace characters of `s[..n]`.
pub fn trailing_ws(s: &[char], n: usize) -> (k: usize)
    requires
        n <= s@.len(),
    ensures
        k == ws_run_back(s@, n as int),
        k <= n,
        k < n ==> !is_ws(s@[n - k - 1]),
{
    let mut i = n;
    while i > 0 && is_whitespace(s[i - 1])
        invariant
            i <= n <= s@.len(),
            ws_run_back(s@, n as int) == (n - i) + ws_run_back(s@, i as int),
        decreases i,
    {
        i = i - 1;
    }
    n - i
}

/// Whether `s` is empty or all whitespace (`s.trim().is_empty()`).
pub fn is_blank(s: &str) -> (r: bool)
    ensures
        r == (trim(s@).len() == 0),
{
    let v = chars_of(s);
    let k = leading_ws(v.as_slice(), 0);
    proof {
        lemma_ws_run_from_bound(s@, 0);
        let t = trim_start(s@);
        lemma_ws_run_back_bound(t, t.len() as int);
        if t.len() > 0 && ws_run_back(t, t.len() as int) == t.len() {
            lemma_ws_run_back_all(t, t.len() as int);
        }
    }
    k == v.len()
}

// ---------------------------------------------------------------------------------------------
// Decimal rendering
// ---------------------------------------------------------------------------------------------

/// The ASCII digit for `d` (`0`–`9`).
pub open spec fn digit(d: nat) -> char {
    if d == 0 {
        '0'
    } else if d == 1 {
        '1'
    } else if d == 2 {
        '2'
    } else if d == 3 {
        '3'
    } else if d == 4 {
        '4'
    } else if d == 5 {
        '5'
    } else if d == 6 {
        '6'
    } else if d == 7 {
        '7'
    } else if d == 8 {
        '8'
    } else {
        '9'
    }
}

/// The decimal rendering of `n`, as `format!("{n}")` writes it.
pub open spec fn dec(n: nat) -> Seq<char>
    decreases n,
{
    if n < 10 {
        seq![digit(n)]
    } else {
        dec(n / 10).push(digit(n % 10))
    }
}

/// `dec(n)` left-padded with `0` to at least `w` characters (`format!("{n:0w$}")`).
pub open spec fn dec_pad(n: nat, w: nat) -> Seq<char> {
    let d = dec(n);
    if d.len() >= w {
        d
    } else {
        Seq::new((w - d.len()) as nat, |_i: int| '0') + d
    }
}

fn digit_char(d: u64) -> (c: char)
    requires
        d < 10,
    ensures
        c == digit(d as nat),
{
    if d == 0 {
        '0'
    } else if d == 1 {
        '1'
    } else if d == 2 {
        '2'
    } else if d == 3 {
        '3'
    } else if d == 4 {
        '4'
    } else if d == 5 {
        '5'
    } else if d == 6 {
        '6'
    } else if d == 7 {
        '7'
    } else if d == 8 {
        '8'
    } else {
        '9'
    }
}

pub proof fn lemma_dec_nonempty(n: nat)
    ensures
        dec(n).len() >= 1,
    decreases n,
{
    if n >= 10 {
        lemma_dec_nonempty(n / 10);
    }
}

/// The decimal digits of `n`.
pub fn dec_chars(n: u64) -> (v: Vec<char>)
    ensures
        v@ == dec(n as nat),
{
    let mut m = n;
    let mut acc: Vec<char> = Vec::new();
    while m >= 10
        invariant
            dec(n as nat) == dec(m as nat) + acc@,
        decreases m,
    {
        let d = digit_char(m % 10);
        let ghost prev = acc@;
        acc.insert(0, d);
        proof {
            assert(dec(m as nat) == dec((m / 10) as nat).push(digit((m % 10) as nat)));
            assert(acc@ =~= seq![d] + prev);
            assert(dec((m / 10) as nat).push(d) + prev =~= dec((m / 10) as nat) + acc@);
        }
        m = m / 10;
    }
    let d = digit_char(m);
    let ghost prev = acc@;
    acc.insert(0, d);
    assert(acc@ =~= dec(m as nat) + prev) by {
        assert(dec(m as nat) =~= seq![d]);
    }
    acc
}

/// `format!("{n}")`.
pub fn dec_string(n: u64) -> (s: String)
    ensures
        s@ == dec(n as nat),
{
    let v = dec_chars(n);
    string_of(v.as_slice())
}

/// Appends the decimal digits of `n` to `s`.
pub fn push_dec(s: &mut String, n: u64)
    ensures
        final(s)@ == old(s)@ + dec(n as nat),
{
    let v = dec_chars(n);
    let mut i: usize = 0;
    while i < v.len()
        invariant
            i <= v@.len(),
            s@ == old(s)@ + v@.take(i as int),
        decreases v.len() - i,
    {
        push_char(s, v[i]);
        i = i + 1;
        assert(s@ =~= old(s)@ + v@.take(i as int));
    }
    assert(v@.take(v@.len() as int) =~= v@);
}

/// Appends `n` zero-padded to at least `w` digits (`{n:0w$}`).
pub fn push_dec_pad(s: &mut String, n: u64, w: usize)
    ensures
        final(s)@ == old(s)@ + dec_pad(n as nat, w as nat),
{
    let v = dec_chars(n);
    let ghost start = s@;
    if v.len() < w {
        let pad = w - v.len();
        let mut i: usize = 0;
        while i < pad
            invariant
                i <= pad,
                s@ == start + Seq::new(i as nat, |_i: int| '0'),
            decreases pad - i,
        {
            push_char(s, '0');
            i = i + 1;
            assert(s@ =~= start + Seq::new(i as nat, |_i: int| '0'));
        }
    }
    let ghost mid = s@;
    let mut i: usize = 0;
    while i < v.len()
        invariant
            i <= v@.len(),
            s@ == mid + v@.take(i as int),
        decreases v.len() - i,
    {
        push_char(s, v[i]);
        i = i + 1;
        assert(s@ =~= mid + v@.take(i as int));
    }
    assert(v@.take(v@.len() as int) =~= v@);
    assert(s@ =~= start + dec_pad(n as nat, w as nat));
}

// ---------------------------------------------------------------------------------------------
// Lines
// ---------------------------------------------------------------------------------------------

/// `x` without one trailing carriage return.
pub open spec fn strip_cr(x: Seq<char>) -> Seq<char> {
    if x.len() > 0 && x.last() == '\r' {
        x.drop_last()
    } else {
        x
    }
}

/// The lines `str::lines` yields for `s[i..]`, given that the line under way already holds
/// `cur`: a line ends at each `\n` (a `\r` just before it is dropped too), and a final line
/// without a terminator counts only when it is non-empty.
pub open spec fn lines_acc(s: Seq<char>, i: int, cur: Seq<char>) -> Seq<Seq<char>>
    decreases s.len() - i,
{
    if i < 0 || i >= s.len() {
        if cur.len() == 0 {
            seq![]
        } else {
            seq![cur]
        }
    } else if s[i] == '\n' {
        seq![strip_cr(cur)] + lines_acc(s, i + 1, seq![])
    } else {
        lines_acc(s, i + 1, cur.push(s[i]))
    }
}

/// The lines of `s`, as `str::lines` yields them.
pub open spec fn lines_of(s: Seq<char>) -> Seq<Seq<char>> {
    lines_acc(s, 0, seq![])
}

/// The longest length among `ls` (0 when there are none).
pub open spec fn max_len(ls: Seq<Seq<char>>) -> nat
    decreases ls.len(),
{
    if ls.len() == 0 {
        0
    } else {
        let m = max_len(ls.drop_last());
        if ls.last().len() > m {
            ls.last().len()
        } else {
            m
        }
    }
}

pub proof fn lemma_max_len_push(ls: Seq<Seq<char>>, x: Seq<char>)
    ensures
        max_len(ls.push(x)) == (if x.len() > max_len(ls) {
            x.len()
        } else {
            max_len(ls)
        }),
{
    assert(ls.push(x).drop_last() =~= ls);
}

pub proof fn lemma_lines_acc_step(s: Seq<char>, i: int, cur: Seq<char>)
    requires
        0 <= i < s.len(),
        s[i] == '\n',
    ensures
        lines_acc(s, i, cur) == seq![strip_cr(cur)] + lines_acc(s, i + 1, seq![]),
{
}

/// Number of lines of `s` and the char count of its longest line.
pub fn line_stats(s: &str) -> (r: (usize, usize))
    ensures
        r.0 == lines_of(s@).len(),
        r.1 == max_len(lines_of(s@)),
{
    let v = chars_of(s);
    let n = v.len();
    let mut count: usize = 0;
    let mut longest: usize = 0;
    let mut cur_len: usize = 0;
    let mut cur_cr = false;
    let ghost mut done: Seq<Seq<char>> = seq![];
    let ghost mut cur: Seq<char> = seq![];
    let mut i: usize = 0;
    while i < n
        invariant
            n == v@.len(),
            v@ == s@,
            i <= n,
            lines_of(s@) == done + lines_acc(s@, i as int, cur),
            count == done.len(),
            longest == max_len(done),
            cur_len == cur.len(),
            count + cur_len <= i,
            longest <= i,
            cur_cr == (cur.len() > 0 && cur.last() == '\r'),
        decreases n - i,
    {
        let c = v[i];
        if c == '\n' {
            proof {
                lemma_lines_acc_step(s@, i as int, cur);
                lemma_max_len_push(done, strip_cr(cur));
                assert(done + (seq![strip_cr(cur)] + lines_acc(s@, i + 1, seq![])) =~= done.push(
                    strip_cr(cur),
                ) + lines_acc(s@, i + 1, seq![]));
            }
            let line_len = if cur_cr {
                cur_len - 1
            } else {
                cur_len
            };
            if line_len > longest {
                longest = line_len;
            }
            count = count + 1;
            cur_len = 0;
            cur_cr = false;
            proof {
                done = done.push(strip_cr(cur));
                cur = seq![];
            }
        } else {
            cur_len = cur_len + 1;
            cur_cr = c == '\r';
            proof {
                cur = cur.push(c);
            }
        }
        i = i + 1;
    }
    proof {
        if cur.len() > 0 {
            lemma_max_len_push(done, cur);
            assert(done + seq![cur] =~= done.push(cur));
        } else {
            assert(done + Seq::<Seq<char>>::empty() =~= done);
        }
    }
    if cur_len > 0 {
        count = count + 1;
        if cur_len > longest {
            longest = cur_len;
        }
    }
    (count, longest)
}

/// The view of a list of strings.
pub open spec fn strings_view(v: Seq<String>) -> Seq<Seq<char>> {
    v.map_values(|s: String| s@)
}

/// The lines of `s`, as `str::lines` yields them.
pub fn split_lines(s: &str) -> (r: Vec<String>)
    ensures
        strings_view(r@) == lines_of(s@),
{
    let v = chars_of(s);
    let n = v.len();
    let mut out: Vec<String> = Vec::new();
    let mut start: usize = 0;
    let mut i: usize = 0;
    assert(v@.subrange(0, 0) =~= Seq::<char>::empty());
    assert(strings_view(out@) + lines_of(s@) =~= lines_of(s@));
    while i < n
        invariant
            n == v@.len(),
            v@ == s@,
            start <= i <= n,
            lines_of(s@) == strings_view(out@) + lines_acc(s@, i as int, v@.subrange(start as int, i as int)),
        decreases n - i,
    {
        if v[i] == '\n' {
            let ghost cur = v@.subrange(start as int, i as int);
            proof {
                lemma_lines_acc_step(s@, i as int, cur);
            }
            let end = if i > start && v[i - 1] == '\r' {
                i - 1
            } else {
                i
            };
            let line = string_of_range(v.as_slice(), start, end);
            assert(line@ =~= strip_cr(cur));
            let ghost prev = out@;
            out.push(line);
            assert(strings_view(out@) =~= strings_view(prev).push(strip_cr(cur)));
            assert(strings_view(prev) + (seq![strip_cr(cur)] + lines_acc(s@, i + 1, seq![]))
                =~= strings_view(out@) + lines_acc(s@, i + 1, seq![]));
            assert(v@.subrange(i + 1, i + 1) =~= Seq::<char>::empty());
            start = i + 1;
        } else {
            assert(v@.subrange(start as int, i + 1) =~= v@.subrange(start as int, i as int).push(v@[i as int]));
        }
        i = i + 1;
    }
    let ghost cur = v@.subrange(start as int, n as int);
    if start < n {
        let ghost prev = out@;
        out.push(string_of_range(v.as_slice(), start, n));
        assert(strings_view(out@) =~= strings_view(prev) + seq![cur]);
    } else {
        assert(strings_view(out@) + Seq::<Seq<char>>::empty() =~= strings_view(out@));
    }
    out
}

/// `s` in lower case, as std's `str::to_lowercase` gives it.
pub uninterp spec fn lowercase(s: Seq<char>) -> Seq<char>;

/// Calls `str::to_lowercase`, which std documents as the lowercase equivalent of the string
/// under Unicode's case mapping, as a new `String`. The contract only names that result:
/// Unicode's mapping is std's to say.
#[verifier::external_body]
pub(crate) fn to_lowercase(s: &str) -> (r: String)
    ensures
        r@ == lowercase(s@),
{
    s.to_lowercase()
}

/// `needle` occurs in `hay` starting at `i`.
pub open spec fn occurs_at(hay: Seq<char>, needle: Seq<char>, i: int) -> bool {
    0 <= i && i + needle.len() <= hay.len() && hay.subrange(i, i + needle.len()) == needle
}

/// `needle` occurs somewhere in `hay`.
pub open spec fn occurs_in(hay: Seq<char>, needle: Seq<char>) -> bool {
    exists|i: int| occurs_at(hay, needle, i)
}

/// Whether `needle` occurs in `hay`.
pub fn contains_chars(hay: &[char], needle: &[char]) -> (r: bool)
    ensures
        r == occurs_in(hay@, needle@),
{
    let n = needle.len();
    if n > hay.len() {
        proof {
            assert forall|i: int| !occurs_at(hay@, needle@, i) by {}
        }
        return false;
    }
    let mut i: usize = 0;
    while i <= hay.len() - n
        invariant
            n == needle@.len(),
            n <= hay@.len(),
            i <= hay@.len() - n + 1,
            forall|j: int| 0 <= j < i ==> !occurs_at(hay@, needle@, j),
        decreases hay@.len() - i,
    {
        let mut k: usize = 0;
        let mut same = true;
        while k < n
            invariant
                n == needle@.len(),
                i + n <= hay@.len(),
                hay@.len() <= usize::MAX,
                k <= n,
                same == (forall|m: int| 0 <= m < k ==> hay@[i + m] == needle@[m]),
            decreases n - k,
        {
            if hay[i + k] != needle[k] {
                same = false;
            }
            k = k + 1;
        }
        if same {
            assert(hay@.subrange(i as int, i + n) =~= needle@);
            assert(occurs_at(hay@, needle@, i as int));
            return true;
        }
        assert(!occurs_at(hay@, needle@, i as int)) by {
            if occurs_at(hay@, needle@, i as int) {
                assert forall|m: int| 0 <= m < n implies hay@[i + m] == needle@[m] by {
                    assert(hay@.subrange(i as int, i + n)[m] == hay@[i + m]);
                }
            }
        }
        i = i + 1;
    }
    proof {
        assert forall|j: int| !occurs_at(hay@, needle@, j) by {
            if 0 <= j && j < i {
            } else if j >= i {
                assert(!(j + n <= hay@.len()));
            }
        }
    }
    false
}

/// `needle` occurs in `hay`, both taken in lower case.
pub open spec fn contains_ci_spec(hay: Seq<char>, needle: Seq<char>) -> bool {
    occurs_in(lowercase(hay), lowercase(needle))
}

/// Whether `needle` occurs in `hay`, ignoring case.
pub fn contains_ci(hay: &str, needle: &str) -> (r: bool)
    ensures
        r == contains_ci_spec(hay@, needle@),
{
    let h = to_lowercase(hay);
    let n = to_lowercase(needle);
    let hv = chars_of(h.as_str());
    let nv = chars_of(n.as_str());
    contains_chars(hv.as_slice(), nv.as_slice())
}

// ---------------------------------------------------------------------------------------------
// Lexicographic order
// ---------------------------------------------------------------------------------------------

/// `a` comes before `b` in the order `str`'s `<` uses: the first differing character decides,
/// by its scalar value, and a proper prefix comes first.
pub open spec fn seq_lt(a: Seq<char>, b: Seq<char>) -> bool
    decreases a.len(),
{
    if a.len() == 0 {
        b.len() > 0
    } else if b.len() == 0 {
        false
    } else if a[0] != b[0] {
        (a[0] as u32) < (b[0] as u32)
    } else {
        seq_lt(a.drop_first(), b.drop_first())
    }
}

/// No sequence comes before itself.
pub proof fn lemma_seq_lt_irreflexive(a: Seq<char>)
    ensures
        !seq_lt(a, a),
    decreases a.len(),
{
    if a.len() > 0 {
        lemma_seq_lt_irreflexive(a.drop_first());
    }
}

/// Of two different sequences exactly one comes first; of equal ones neither.
pub proof fn lemma_seq_lt_total(a: Seq<char>, b: Seq<char>)
    ensures
        a != b ==> seq_lt(a, b) || seq_lt(b, a),
        !(seq_lt(a, b) && seq_lt(b, a)),
    decreases a.len(),
{
    if a.len() > 0 && b.len() > 0 && a[0] == b[0] {
        lemma_seq_lt_total(a.drop_first(), b.drop_first());
        if a.drop_first() == b.drop_first() {
            assert(a =~= b) by {
                assert(a.len() == b.len());
                assert forall|i: int| 0 <= i < a.len() implies a[i] == b[i] by {
                    if i > 0 {
                        assert(a[i] == a.drop_first()[i - 1]);
                        assert(b[i] == b.drop_first()[i - 1]);
                    }
                }
            }
        }
    } else if a.len() == 0 && b.len() == 0 {
        assert(a =~= b);
    } else if a.len() > 0 && b.len() > 0 {
        // Distinct characters have distinct scalar values.
        vstd::utf8::char_u32_cast(a[0], a[0] as u32);
        vstd::utf8::char_u32_cast(b[0], b[0] as u32);
    }
}

/// The order is transitive.
pub proof fn lemma_seq_lt_transitive(a: Seq<char>, b: Seq<char>, c: Seq<char>)
    requires
        seq_lt(a, b),
        seq_lt(b, c),
    ensures
        seq_lt(a, c),
    decreases a.len(),
{
    if a.len() > 0 && b.len() > 0 && c.len() > 0 && a[0] == b[0] && b[0] == c[0] {
        lemma_seq_lt_transitive(a.drop_first(), b.drop_first(), c.drop_first());
    }
}

/// "Not before" is transitive too.
pub proof fn lemma_seq_not_lt_transitive(a: Seq<char>, b: Seq<char>, c: Seq<char>)
    requires
        !seq_lt(a, b),
        !seq_lt(b, c),
    ensures
        !seq_lt(a, c),
{
    lemma_seq_lt_total(a, b);
    lemma_seq_lt_total(b, c);
    lemma_seq_lt_total(a, c);
    if seq_lt(a, c) {
        if a == b {
        } else if b == c {
        } else {
            lemma_seq_lt_transitive(c, b, a);
            lemma_seq_lt_transitive(a, c, b);
        }
    }
}

/// Whether `a` comes before `b` (see [`seq_lt`]).
pub fn chars_lt(a: &[char], b: &[char]) -> (r: bool)
    ensures
        r == seq_lt(a@, b@),
{
    let mut i: usize = 0;
    assert(a@.skip(0) =~= a@);
    assert(b@.skip(0) =~= b@);
    while i < a.len() && i < b.len()
        invariant
            i <= a@.len(),
            i <= b@.len(),
            seq_lt(a@, b@) == seq_lt(a@.skip(i as int), b@.skip(i as int)),
        decreases a.len() - i,
    {
        if a[i] != b[i] {
            assert(a@.skip(i as int)[0] == a@[i as int]);
            assert(b@.skip(i as int)[0] == b@[i as int]);
            return (a[i] as u32) < (b[i] as u32);
        }
        assert(a@.skip(i as int).drop_first() =~= a@.skip(i + 1));
        assert(b@.skip(i as int).drop_first() =~= b@.skip(i + 1));
        i = i + 1;
    }
    i == a.len() && i < b.len()
}

/// Whether the string `a` comes before `b` (see [`seq_lt`]).
pub fn str_lt(a: &str, b: &str) -> (r: bool)
    ensures
        r == seq_lt(a@, b@),
{
    let x = chars_of(a);
    let y = chars_of(b);
    chars_lt(x.as_slice(), y.as_slice())
}

} // verus!
