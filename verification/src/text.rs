//! Character-level string utilities with exact specifications.
//!
//! Strings are handled as sequences of `char`: `str::chars` gives them, and
//! `String::push` builds them back.

use vstd::prelude::*;

verus! {

/// `String::push` appends one character (std documentation: "Appends the
/// given char to the end of this String").
pub assume_specification[ String::push ](s: &mut String, ch: char)
    ensures
        final(s)@ == old(s)@.push(ch),
;

/// Unicode `White_Space` property, the set that `char::is_whitespace`,
/// `str::trim` and `str::split_whitespace` use.
pub open spec fn spec_is_whitespace(c: char) -> bool {
    ||| ('\u{9}' <= c && c <= '\u{d}')
    ||| c == ' '
    ||| c == '\u{85}'
    ||| c == '\u{a0}'
    ||| c == '\u{1680}'
    ||| ('\u{2000}' <= c && c <= '\u{200a}')
    ||| c == '\u{2028}'
    ||| c == '\u{2029}'
    ||| c == '\u{202f}'
    ||| c == '\u{205f}'
    ||| c == '\u{3000}'
}

pub fn is_whitespace(c: char) -> (b: bool)
    ensures
        b == spec_is_whitespace(c),
{
    ('\u{9}' <= c && c <= '\u{d}') || c == ' ' || c == '\u{85}' || c == '\u{a0}' || c == '\u{1680}'
        || ('\u{2000}' <= c && c <= '\u{200a}') || c == '\u{2028}' || c == '\u{2029}' || c
        == '\u{202f}' || c == '\u{205f}' || c == '\u{3000}'
}

pub open spec fn spec_is_ascii_digit(c: char) -> bool {
    '0' <= c && c <= '9'
}

pub fn is_ascii_digit(c: char) -> (b: bool)
    ensures
        b == spec_is_ascii_digit(c),
{
    '0' <= c && c <= '9'
}

/// What separates the pieces of a split, or what a trim removes.
#[derive(Clone, Copy)]
pub enum Sep {
    Char(char),
    Either(char, char),
    Whitespace,
}

pub open spec fn is_sep(k: Sep, c: char) -> bool {
    match k {
        Sep::Char(a) => c == a,
        Sep::Either(a, b) => c == a || c == b,
        Sep::Whitespace => spec_is_whitespace(c),
    }
}

pub fn sep_matches(k: Sep, c: char) -> (b: bool)
    ensures
        b == is_sep(k, c),
{
    match k {
        Sep::Char(a) => c == a,
        Sep::Either(a, b) => c == a || c == b,
        Sep::Whitespace => is_whitespace(c),
    }
}

/// The characters of `s`, in order.
pub fn chars_of(s: &str) -> (v: Vec<char>)
    ensures
        v@ == s@,
{
    let mut v: Vec<char> = Vec::new();
    for c in it: s.chars()
        invariant
            it.seq() == s@,
            v@ == s@.take(it.index() as int),
    {
        v.push(c);
    }
    v
}

/// The string made of the characters of `v`.
pub fn string_from(v: &Vec<char>) -> (s: String)
    ensures
        s@ == v@,
{
    let mut s = String::new();
    let mut i: usize = 0;
    while i < v.len()
        invariant
            i <= v.len(),
            s@ == v@.take(i as int),
        decreases v.len() - i,
    {
        s.push(v[i]);
        i = i + 1;
        assert(s@ =~= v@.take(i as int));
    }
    assert(v@.take(v.len() as int) =~= v@);
    s
}

/// A copy of `v[lo..hi]`.
pub fn slice_of(v: &Vec<char>, lo: usize, hi: usize) -> (r: Vec<char>)
    requires
        lo <= hi <= v.len(),
    ensures
        r@ == v@.subrange(lo as int, hi as int),
{
    let mut r: Vec<char> = Vec::new();
    let mut i: usize = lo;
    while i < hi
        invariant
            lo <= i <= hi <= v.len(),
            r@ == v@.subrange(lo as int, i as int),
        decreases hi - i,
    {
        r.push(v[i]);
        i = i + 1;
        assert(r@ =~= v@.subrange(lo as int, i as int));
    }
    r
}

/// The views of a sequence of character vectors.
pub open spec fn views(v: Seq<Vec<char>>) -> Seq<Seq<char>> {
    v.map_values(|x: Vec<char>| x@)
}

pub proof fn lemma_views_push(v: Seq<Vec<char>>, x: Vec<char>)
    ensures
        views(v.push(x)) == views(v).push(x@),
{
    assert(views(v.push(x)) =~= views(v).push(x@));
}

/// `split` by a separator, as `str::split` does it: `k` separators give
/// `k + 1` pieces, empty ones included.
pub open spec fn split_spec(s: Seq<char>, k: Sep) -> Seq<Seq<char>>
    decreases s.len(),
{
    if s.len() == 0 {
        seq![Seq::<char>::empty()]
    } else {
        let p = split_spec(s.drop_last(), k);
        if is_sep(k, s.last()) {
            p.push(Seq::<char>::empty())
        } else {
            p.update(p.len() - 1, p.last().push(s.last()))
        }
    }
}

pub proof fn lemma_split_len(s: Seq<char>, k: Sep)
    ensures
        split_spec(s, k).len() >= 1,
    decreases s.len(),
{
    if s.len() > 0 {
        lemma_split_len(s.drop_last(), k);
    }
}

pub fn split(s: &Vec<char>, k: Sep) -> (out: Vec<Vec<char>>)
    ensures
        views(out@) == split_spec(s@, k),
{
    let mut out: Vec<Vec<char>> = Vec::new();
    let mut cur: Vec<char> = Vec::new();
    let mut i: usize = 0;
    assert(views(out@).push(cur@) =~= split_spec(s@.take(0), k));
    while i < s.len()
        invariant
            i <= s.len(),
            views(out@).push(cur@) == split_spec(s@.take(i as int), k),
        decreases s.len() - i,
    {
        let c = s[i];
        proof {
            assert(s@.take(i + 1).drop_last() =~= s@.take(i as int));
            lemma_split_len(s@.take(i as int), k);
        }
        if sep_matches(k, c) {
            out.push(cur);
            cur = Vec::new();
            assert(views(out@).push(cur@) =~= split_spec(s@.take(i + 1), k));
        } else {
            let ghost old_cur = cur@;
            cur.push(c);
            assert(views(out@).push(cur@) =~= split_spec(s@.take(i + 1), k));
        }
        i = i + 1;
    }
    assert(s@.take(s.len() as int) =~= s@);
    out.push(cur);
    out
}


/// `s` without its leading characters that match `k`.
pub open spec fn trim_start_spec(s: Seq<char>, k: Sep) -> Seq<char>
    decreases s.len(),
{
    if s.len() > 0 && is_sep(k, s[0]) {
        trim_start_spec(s.drop_first(), k)
    } else {
        s
    }
}

/// `s` without its trailing characters that match `k`.
pub open spec fn trim_end_spec(s: Seq<char>, k: Sep) -> Seq<char>
    decreases s.len(),
{
    if s.len() > 0 && is_sep(k, s.last()) {
        trim_end_spec(s.drop_last(), k)
    } else {
        s
    }
}

/// `str::trim`: leading and trailing whitespace removed.
pub open spec fn trim_spec(s: Seq<char>) -> Seq<char> {
    trim_end_spec(trim_start_spec(s, Sep::Whitespace), Sep::Whitespace)
}

pub fn trim_start(s: &Vec<char>, k: Sep) -> (r: Vec<char>)
    ensures
        r@ == trim_start_spec(s@, k),
{
    let mut i: usize = 0;
    assert(s@.skip(0) =~= s@);
    while i < s.len() && sep_matches(k, s[i])
        invariant
            i <= s.len(),
            trim_start_spec(s@, k) == trim_start_spec(s@.skip(i as int), k),
        decreases s.len() - i,
    {
        assert(s@.skip(i as int).drop_first() =~= s@.skip(i + 1));
        i = i + 1;
    }
    let r = slice_of(s, i, s.len());
    assert(r@ =~= s@.skip(i as int));
    r
}

pub fn trim_end(s: &Vec<char>, k: Sep) -> (r: Vec<char>)
    ensures
        r@ == trim_end_spec(s@, k),
{
    let mut j: usize = s.len();
    assert(s@.take(s.len() as int) =~= s@);
    while j > 0 && sep_matches(k, s[j - 1])
        invariant
            j <= s.len(),
            trim_end_spec(s@, k) == trim_end_spec(s@.take(j as int), k),
        decreases j,
    {
        assert(s@.take(j as int).drop_last() =~= s@.take(j - 1));
        j = j - 1;
    }
    let r = slice_of(s, 0, j);
    assert(r@ =~= s@.take(j as int));
    r
}

pub fn trim(s: &Vec<char>) -> (r: Vec<char>)
    ensures
        r@ == trim_spec(s@),
{
    let a = trim_start(s, Sep::Whitespace);
    trim_end(&a, Sep::Whitespace)
}

/// A line without the `'\r'` of a `"\r\n"` ending.
pub open spec fn strip_cr(t: Seq<char>) -> Seq<char> {
    if t.len() > 0 && t.last() == '\r' {
        t.drop_last()
    } else {
        t
    }
}

/// The first `n` pieces of `p`, each without a trailing `'\r'`.
pub open spec fn stripped_prefix(p: Seq<Seq<char>>, n: int) -> Seq<Seq<char>> {
    Seq::new(n as nat, |m: int| strip_cr(p[m]))
}

/// `str::lines`: split at `'\n'`, one `'\r'` before each `'\n'` dropped, and
/// no empty last line after a final `'\n'`.
pub open spec fn lines_spec(s: Seq<char>) -> Seq<Seq<char>> {
    let p = split_spec(s, Sep::Char('\n'));
    let init = stripped_prefix(p, p.len() - 1);
    if p.last().len() == 0 {
        init
    } else {
        init.push(p.last())
    }
}

pub fn lines(s: &Vec<char>) -> (out: Vec<Vec<char>>)
    ensures
        views(out@) == lines_spec(s@),
{
    let p = split(s, Sep::Char('\n'));
    proof {
        lemma_split_len(s@, Sep::Char('\n'));
    }
    let n = p.len();
    let ghost pv = split_spec(s@, Sep::Char('\n'));
    let mut out: Vec<Vec<char>> = Vec::new();
    let mut i: usize = 0;
    while i + 1 < n
        invariant
            n == p.len(),
            n >= 1,
            i + 1 <= n,
            views(p@) == pv,
            views(out@) == stripped_prefix(pv, i as int),
        decreases n - i,
    {
        let t = &p[i];
        assert(t@ == pv[i as int]);
        let tl = t.len();
        let line = if tl > 0 && t[tl - 1] == '\r' {
            slice_of(t, 0, tl - 1)
        } else {
            slice_of(t, 0, tl)
        };
        assert(line@ =~= strip_cr(t@));
        let ghost old_out = out@;
        assert(views(old_out).len() == i);
        assert(old_out.len() == i);
        out.push(line);
        assert(out@ == old_out.push(line));
        assert(views(out@).len() == i + 1);
        assert(views(out@)[i as int] == strip_cr(pv[i as int]));
        assert forall|m: int| 0 <= m < i + 1 implies views(out@)[m] == strip_cr(pv[m]) by {
            if m < i {
                assert(views(old_out)[m] == stripped_prefix(pv, i as int)[m]);
            }
        }
        i = i + 1;
        assert(views(out@) =~= stripped_prefix(pv, i as int));
    }
    assert(i == n - 1);
    let last = &p[n - 1];
    assert(last@ == pv.last());
    if last.len() > 0 {
        let lv = slice_of(last, 0, last.len());
        assert(lv@ =~= last@);
        proof {
            lemma_views_push(out@, lv);
        }
        out.push(lv);
        assert(views(out@) =~= lines_spec(s@));
    }
    assert(views(out@) =~= lines_spec(s@));
    out
}

/// The non-empty pieces of `p`, in order.
pub open spec fn nonempty_spec(p: Seq<Seq<char>>) -> Seq<Seq<char>>
    decreases p.len(),
{
    if p.len() == 0 {
        Seq::empty()
    } else {
        let r = nonempty_spec(p.drop_last());
        if p.last().len() > 0 {
            r.push(p.last())
        } else {
            r
        }
    }
}

/// `str::split_whitespace`: the maximal runs of non-whitespace characters.
pub open spec fn tokens_spec(s: Seq<char>) -> Seq<Seq<char>> {
    nonempty_spec(split_spec(s, Sep::Whitespace))
}

pub fn nonempty(p: &Vec<Vec<char>>) -> (out: Vec<Vec<char>>)
    ensures
        views(out@) == nonempty_spec(views(p@)),
{
    let mut out: Vec<Vec<char>> = Vec::new();
    let mut i: usize = 0;
    while i < p.len()
        invariant
            i <= p.len(),
            views(out@) == nonempty_spec(views(p@).take(i as int)),
        decreases p.len() - i,
    {
        assert(views(p@).take(i + 1).drop_last() =~= views(p@).take(i as int));
        assert(views(p@)[i as int] == p[i as int]@);
        assert(views(p@).take(i + 1).last() == p[i as int]@);
        if p[i].len() > 0 {
            let x = slice_of(&p[i], 0, p[i].len());
            assert(x@ =~= p[i as int]@);
            proof {
                lemma_views_push(out@, x);
            }
            out.push(x);
            assert(views(out@) =~= nonempty_spec(views(p@).take(i + 1)));
        } else {
            assert(views(out@) =~= nonempty_spec(views(p@).take(i + 1)));
        }
        i = i + 1;
    }
    assert(views(p@).take(p.len() as int) =~= views(p@));
    out
}

pub fn tokens(s: &Vec<char>) -> (out: Vec<Vec<char>>)
    ensures
        views(out@) == tokens_spec(s@),
{
    let p = split(s, Sep::Whitespace);
    nonempty(&p)
}

/// `p` occurs in `s` at position `i`.
pub open spec fn occurs_at(s: Seq<char>, p: Seq<char>, i: int) -> bool {
    0 <= i && i + p.len() <= s.len() && s.subrange(i, i + p.len()) == p
}

/// `str::contains` with a string pattern.
pub open spec fn contains_spec(s: Seq<char>, p: Seq<char>) -> bool {
    exists|i: int| occurs_at(s, p, i)
}

pub fn matches_at(s: &Vec<char>, p: &Vec<char>, i: usize) -> (b: bool)
    ensures
        b == occurs_at(s@, p@, i as int),
{
    if i > s.len() || p.len() > s.len() - i {
        return false;
    }
    let mut j: usize = 0;
    while j < p.len()
        invariant
            i + p.len() <= s.len(),
            j <= p.len(),
            forall|m: int| 0 <= m < j ==> s@[i + m] == p@[m],
        decreases p.len() - j,
    {
        if s[i + j] != p[j] {
            assert(s@.subrange(i as int, i + p.len())[j as int] != p@[j as int]);
            return false;
        }
        j = j + 1;
    }
    assert(s@.subrange(i as int, i + p.len()) =~= p@);
    true
}

pub fn contains(s: &Vec<char>, p: &Vec<char>) -> (b: bool)
    ensures
        b == contains_spec(s@, p@),
{
    if p.len() > s.len() {
        assert forall|i: int| !occurs_at(s@, p@, i) by {}
        return false;
    }
    if p.len() == 0 {
        assert(s@.subrange(0, 0) =~= p@);
        assert(occurs_at(s@, p@, 0));
        return true;
    }
    let mut i: usize = 0;
    while i <= s.len() - p.len()
        invariant
            1 <= p.len() <= s.len(),
            i <= s.len() - p.len() + 1,
            forall|m: int| 0 <= m < i ==> !occurs_at(s@, p@, m),
        decreases s.len() - p.len() + 1 - i,
    {
        if matches_at(s, p, i) {
            return true;
        }
        i = i + 1;
    }
    assert forall|m: int| !occurs_at(s@, p@, m) by {
        if 0 <= m && m + p@.len() <= s@.len() {
            assert(m < i);
        }
    }
    false
}

pub fn starts_with(s: &Vec<char>, p: &Vec<char>) -> (b: bool)
    ensures
        b == p@.is_prefix_of(s@),
{
    let r = matches_at(s, p, 0);
    assert(r == p@.is_prefix_of(s@)) by {
        if p@.len() <= s@.len() {
            assert(s@.subrange(0, p@.len() as int) =~= s@.take(p@.len() as int));
        }
    }
    r
}

/// `str::strip_prefix`.
pub open spec fn strip_prefix_spec(s: Seq<char>, p: Seq<char>) -> Option<Seq<char>> {
    if p.is_prefix_of(s) {
        Some(s.skip(p.len() as int))
    } else {
        None
    }
}

pub fn strip_prefix(s: &Vec<char>, p: &Vec<char>) -> (r: Option<Vec<char>>)
    ensures
        match r {
            Some(v) => strip_prefix_spec(s@, p@) == Some(v@),
            None => strip_prefix_spec(s@, p@) is None,
        },
{
    if starts_with(s, p) {
        let v = slice_of(s, p.len(), s.len());
        assert(v@ =~= s@.skip(p@.len() as int));
        Some(v)
    } else {
        None
    }
}


/// The value of an ASCII digit.
pub open spec fn digit_value(c: char) -> nat {
    (c as int - '0' as int) as nat
}

/// Every character of `d` is an ASCII digit.
pub open spec fn all_digits(d: Seq<char>) -> bool {
    forall|i: int| 0 <= i < d.len() ==> spec_is_ascii_digit(#[trigger] d[i])
}

/// The decimal value of a string of digits.
pub open spec fn digits_value(d: Seq<char>) -> nat
    decreases d.len(),
{
    if d.len() == 0 {
        0
    } else {
        digits_value(d.drop_last()) * 10 + digit_value(d.last())
    }
}

/// `s` without one leading `'+'`.
pub open spec fn unsigned_digits(s: Seq<char>) -> Seq<char> {
    if s.len() > 0 && s[0] == '+' {
        s.drop_first()
    } else {
        s
    }
}

/// `str::parse` for an unsigned integer type whose largest value is `max`:
/// an optional `'+'`, then one or more ASCII digits whose value fits.
pub open spec fn parse_uint_spec(s: Seq<char>, max: nat) -> Option<nat> {
    let d = unsigned_digits(s);
    if d.len() > 0 && all_digits(d) && digits_value(d) <= max {
        Some(digits_value(d))
    } else {
        None
    }
}

proof fn lemma_digits_value_prefix(d: Seq<char>, j: int)
    requires
        all_digits(d),
        0 <= j <= d.len(),
    ensures
        digits_value(d.take(j)) <= digits_value(d),
    decreases d.len(),
{
    if j < d.len() {
        assert(d.drop_last().take(j) =~= d.take(j));
        lemma_digits_value_prefix(d.drop_last(), j);
    } else {
        assert(d.take(j) =~= d);
    }
}

/// Parses `s` as an unsigned integer no larger than `max`.
pub fn parse_uint(s: &Vec<char>, max: u64) -> (r: Option<u64>)
    ensures
        match r {
            Some(v) => parse_uint_spec(s@, max as nat) == Some(v as nat),
            None => parse_uint_spec(s@, max as nat) is None,
        },
{
    let start: usize = if s.len() > 0 && s[0] == '+' {
        1
    } else {
        0
    };
    let ghost d = unsigned_digits(s@);
    assert(d =~= s@.skip(start as int));
    if start >= s.len() {
        return None;
    }
    let mut acc: u64 = 0;
    let mut i: usize = start;
    while i < s.len()
        invariant
            start <= i <= s.len(),
            d =~= s@.skip(start as int),
            d == unsigned_digits(s@),
            all_digits(d.take(i - start)),
            acc as nat == digits_value(d.take(i - start)),
            acc <= max,
        decreases s.len() - i,
    {
        let c = s[i];
        assert(d[i - start] == c);
        assert(d.take(i - start + 1).drop_last() =~= d.take(i - start));
        if !is_ascii_digit(c) {
            assert(!spec_is_ascii_digit(d[i - start]));
            assert(!all_digits(d));
            assert(parse_uint_spec(s@, max as nat) is None);
            return None;
        }
        let dv: u64 = (c as u32 - '0' as u32) as u64;
        assert(dv == digit_value(c));
        if dv > max || acc > (max - dv) / 10 {
            assert(digits_value(d.take(i - start + 1)) > max) by (nonlinear_arith)
                requires
                    digits_value(d.take(i - start + 1)) == acc * 10 + dv,
                    dv > max || acc > (max - dv) / 10,
            {
            }
            proof {
                if all_digits(d) {
                    lemma_digits_value_prefix(d, i - start + 1);
                }
            }
            return None;
        }
        assert(acc * 10 + dv <= max) by (nonlinear_arith)
            requires
                acc <= (max - dv) / 10,
                dv <= max,
        {
        }
        acc = acc * 10 + dv;
        i = i + 1;
    }
    assert(d.take(i - start) =~= d);
    Some(acc)
}

/// Decimal rendering of a natural number, as `u64::to_string` gives it.
pub open spec fn decimal_spec(n: nat) -> Seq<char>
    decreases n,
{
    if n < 10 {
        seq![digit_char(n)]
    } else {
        decimal_spec(n / 10).push(digit_char(n % 10))
    }
}

pub open spec fn digit_char(n: nat) -> char {
    ('0' as int + n) as char
}

/// Decimal rendering of a signed number, as `i64::to_string` gives it.
pub open spec fn signed_decimal_spec(n: int) -> Seq<char> {
    if n < 0 {
        seq!['-'] + decimal_spec((-n) as nat)
    } else {
        decimal_spec(n as nat)
    }
}

fn digit_to_char(n: u64) -> (c: char)
    requires
        n < 10,
    ensures
        c == digit_char(n as nat),
{
    if n == 0 { '0' }
    else if n == 1 { '1' }
    else if n == 2 { '2' }
    else if n == 3 { '3' }
    else if n == 4 { '4' }
    else if n == 5 { '5' }
    else if n == 6 { '6' }
    else if n == 7 { '7' }
    else if n == 8 { '8' }
    else { '9' }
}

/// The decimal digits of `n`.
pub fn decimal_chars(n: u64) -> (v: Vec<char>)
    ensures
        v@ == decimal_spec(n as nat),
    decreases n,
{
    if n < 10 {
        let mut v = Vec::new();
        v.push(digit_to_char(n));
        assert(v@ =~= decimal_spec(n as nat));
        v
    } else {
        let mut v = decimal_chars(n / 10);
        v.push(digit_to_char(n % 10));
        v
    }
}

pub fn u64_to_string(n: u64) -> (s: String)
    ensures
        s@ == decimal_spec(n as nat),
{
    string_from(&decimal_chars(n))
}

pub fn i64_to_string(n: i64) -> (s: String)
    ensures
        s@ == signed_decimal_spec(n as int),
{
    if n < 0 {
        let m: u64 = if n == i64::MIN {
            9223372036854775808u64
        } else {
            (-n) as u64
        };
        let mut v: Vec<char> = Vec::new();
        v.push('-');
        let d = decimal_chars(m);
        let mut i: usize = 0;
        while i < d.len()
            invariant
                i <= d.len(),
                v@ == seq!['-'] + d@.take(i as int),
            decreases d.len() - i,
        {
            v.push(d[i]);
            i = i + 1;
            assert(v@ =~= seq!['-'] + d@.take(i as int));
        }
        assert(d@.take(d.len() as int) =~= d@);
        string_from(&v)
    } else {
        u64_to_string(n as u64)
    }
}

/// `a` followed by `b`.
pub fn concat(a: &str, b: &str) -> (s: String)
    ensures
        s@ == a@ + b@,
{
    let mut r = a.to_string();
    r.append(b);
    r
}


/// Character-by-character equality.
pub fn eq_chars(a: &Vec<char>, b: &Vec<char>) -> (r: bool)
    ensures
        r == (a@ == b@),
{
    if a.len() != b.len() {
        return false;
    }
    let r = matches_at(a, b, 0);
    assert(r == (a@ == b@)) by {
        assert(a@.subrange(0, b@.len() as int) =~= a@);
    }
    r
}

/// `a == b` for string slices.
pub fn str_eq(a: &str, b: &str) -> (r: bool)
    ensures
        r == (a@ == b@),
{
    eq_chars(&chars_of(a), &chars_of(b))
}

/// The name of what `str::to_lowercase` returns: the Unicode lowercase
/// mapping of every character, concatenated.
pub uninterp spec fn lowercase_spec(s: Seq<char>) -> Seq<char>;

/// `str::to_lowercase`: its result is named by `lowercase_spec`, a function of
/// the argument alone. Nothing more is claimed of the Unicode mapping.
#[verifier::external_body]
pub(crate) fn to_lowercase(s: &str) -> (r: String)
    ensures
        r@ == lowercase_spec(s@),
{
    s.to_lowercase()
}


/// The position of the first `c` in `s`.
pub open spec fn find_char_spec(s: Seq<char>, c: char) -> Option<nat>
    decreases s.len(),
{
    if s.len() == 0 {
        None
    } else if s[0] == c {
        Some(0)
    } else {
        match find_char_spec(s.drop_first(), c) {
            Some(k) => Some(k + 1),
            None => None,
        }
    }
}

pub fn find_char(s: &Vec<char>, c: char) -> (r: Option<usize>)
    ensures
        match r {
            Some(k) => find_char_spec(s@, c) == Some(k as nat) && k < s@.len(),
            None => find_char_spec(s@, c) is None,
        },
{
    let mut i: usize = 0;
    assert(s@.skip(0) =~= s@);
    while i < s.len()
        invariant
            i <= s.len(),
            find_char_spec(s@, c) == (match find_char_spec(s@.skip(i as int), c) {
                Some(k) => Some((k + i) as nat),
                None => None,
            }),
        decreases s.len() - i,
    {
        assert(s@.skip(i as int)[0] == s@[i as int]);
        if s[i] == c {
            return Some(i);
        }
        assert(s@.skip(i as int).drop_first() =~= s@.skip(i + 1));
        i = i + 1;
    }
    None
}

/// `str::split_once` at the first `c`.
pub open spec fn split_once_spec(s: Seq<char>, c: char) -> Option<(Seq<char>, Seq<char>)> {
    match find_char_spec(s, c) {
        Some(k) => Some((s.take(k as int), s.skip(k as int + 1))),
        None => None,
    }
}

pub fn split_once(s: &Vec<char>, c: char) -> (r: Option<(Vec<char>, Vec<char>)>)
    ensures
        match r {
            Some((a, b)) => split_once_spec(s@, c) == Some((a@, b@)),
            None => split_once_spec(s@, c) is None,
        },
{
    match find_char(s, c) {
        Some(k) => {
            let a = slice_of(s, 0, k);
            let b = slice_of(s, k + 1, s.len());
            assert(a@ =~= s@.take(k as int));
            assert(b@ =~= s@.skip(k + 1));
            Some((a, b))
        },
        None => None,
    }
}

} // verus!
