//! Reading and comparing version strings such as "0.9.10" or "1.96.2".

use vstd::prelude::*;

use crate::text::{
    all_digits, chars_of, digits_value, is_ascii_digit, parse_uint, parse_uint_spec, slice_of,
    spec_is_ascii_digit, split, split_spec, tokens, tokens_spec, views, Sep,
};

verus! {

/// The number of leading ASCII digits of `p`.
pub open spec fn digit_run(p: Seq<char>) -> nat
    decreases p.len(),
{
    if p.len() > 0 && spec_is_ascii_digit(p[0]) {
        1 + digit_run(p.drop_first())
    } else {
        0
    }
}

/// The value of one version component: its leading digits as a `u64`, or 0
/// when there are none or they do not fit (`parse::<u64>().unwrap_or(0)`).
pub open spec fn component_value(p: Seq<char>) -> nat {
    match parse_uint_spec(p.take(digit_run(p) as int), u64::MAX as nat) {
        Some(v) => v,
        None => 0,
    }
}

/// Split a version into numeric components at '.' and '-'
/// ("0.9.10" -> [0, 9, 10]).
pub open spec fn version_key_spec(v: Seq<char>) -> Seq<nat> {
    components(split_spec(v, Sep::Either('.', '-')), split_spec(v, Sep::Either('.', '-')).len() as int)
}

/// The values of the first `n` pieces of `p`.
pub open spec fn components(p: Seq<Seq<char>>, n: int) -> Seq<nat> {
    Seq::new(n as nat, |i: int| component_value(p[i]))
}

/// A key as mathematical integers.
pub open spec fn key_view(k: Seq<u64>) -> Seq<nat> {
    Seq::new(k.len(), |i: int| k[i] as nat)
}

/// Lexicographic order of numeric keys, as `Vec<u64>` orders them.
pub open spec fn key_lt(a: Seq<nat>, b: Seq<nat>) -> bool
    decreases a.len(),
{
    if b.len() == 0 {
        false
    } else if a.len() == 0 {
        true
    } else if a[0] < b[0] {
        true
    } else if a[0] > b[0] {
        false
    } else {
        key_lt(a.drop_first(), b.drop_first())
    }
}

/// `a` is an older version than `b`.
pub open spec fn version_lt_spec(a: Seq<char>, b: Seq<char>) -> bool {
    key_lt(version_key_spec(a), version_key_spec(b))
}

/// The value of one component.
fn component(p: &Vec<char>) -> (v: u64)
    ensures
        v as nat == component_value(p@),
{
    let mut i: usize = 0;
    assert(p@.skip(0) =~= p@);
    while i < p.len() && is_ascii_digit(p[i])
        invariant
            i <= p.len(),
            digit_run(p@) == i + digit_run(p@.skip(i as int)),
        decreases p.len() - i,
    {
        assert(p@.skip(i as int).drop_first() =~= p@.skip(i + 1));
        i = i + 1;
    }
    assert(digit_run(p@.skip(i as int)) == 0);
    let d = slice_of(p, 0, i);
    assert(d@ =~= p@.take(digit_run(p@) as int));
    match parse_uint(&d, u64::MAX) {
        Some(v) => v,
        None => 0,
    }
}

/// Split a version into numeric components for comparison ("0.9.10" -> [0,9,10]).
pub fn version_key(v: &str) -> (k: Vec<u64>)
    ensures
        key_view(k@) == version_key_spec(v@),
{
    let parts = split(&chars_of(v), Sep::Either('.', '-'));
    let ghost pv = split_spec(v@, Sep::Either('.', '-'));
    let mut k: Vec<u64> = Vec::new();
    let mut i: usize = 0;
    while i < parts.len()
        invariant
            i <= parts.len(),
            views(parts@) == pv,
            pv == split_spec(v@, Sep::Either('.', '-')),
            key_view(k@) == components(pv, i as int),
        decreases parts.len() - i,
    {
        assert(parts[i as int]@ == pv[i as int]);
        let c = component(&parts[i]);
        let ghost old_k = k@;
        assert(key_view(old_k).len() == i);
        k.push(c);
        assert(k@[i as int] == c);
        assert(key_view(k@)[i as int] == c as nat);
        assert forall|m: int| 0 <= m < i + 1 implies key_view(k@)[m] == component_value(pv[m]) by {
            if m < i {
                assert(key_view(old_k)[m] == components(pv, i as int)[m]);
            }
        }
        i = i + 1;
        assert(key_view(k@) =~= components(pv, i as int));
    }
    k
}

pub fn key_less(a: &Vec<u64>, b: &Vec<u64>) -> (r: bool)
    ensures
        r == key_lt(key_view(a@), key_view(b@)),
{
    let ghost av = key_view(a@);
    let ghost bv = key_view(b@);
    let mut i: usize = 0;
    assert(av.skip(0) =~= av);
    assert(bv.skip(0) =~= bv);
    while i < a.len() && i < b.len() && a[i] == b[i]
        invariant
            i <= a.len(),
            i <= b.len(),
            av == key_view(a@),
            bv == key_view(b@),
            key_lt(av, bv) == key_lt(av.skip(i as int), bv.skip(i as int)),
        decreases a.len() - i,
    {
        assert(av.skip(i as int).drop_first() =~= av.skip(i + 1));
        assert(bv.skip(i as int).drop_first() =~= bv.skip(i + 1));
        i = i + 1;
    }
    if i == b.len() {
        false
    } else if i == a.len() {
        true
    } else {
        assert(av.skip(i as int)[0] == a[i as int]);
        assert(bv.skip(i as int)[0] == b[i as int]);
        a[i] < b[i]
    }
}

/// `a` is an older version than `b`, comparing their numeric keys.
pub fn version_lt(a: &str, b: &str) -> (r: bool)
    ensures
        r == version_lt_spec(a@, b@),
{
    key_less(&version_key(a), &version_key(b))
}

/// No key is older than itself.
pub proof fn lemma_key_lt_irreflexive(a: Seq<nat>)
    ensures
        !key_lt(a, a),
    decreases a.len(),
{
    if a.len() > 0 {
        lemma_key_lt_irreflexive(a.drop_first());
    }
}

/// Older-than is transitive on keys.
pub proof fn lemma_key_lt_transitive(a: Seq<nat>, b: Seq<nat>, c: Seq<nat>)
    requires
        key_lt(a, b),
        key_lt(b, c),
    ensures
        key_lt(a, c),
    decreases a.len(),
{
    if a.len() > 0 && b.len() > 0 && c.len() > 0 && a[0] == b[0] && b[0] == c[0] {
        lemma_key_lt_transitive(a.drop_first(), b.drop_first(), c.drop_first());
    }
}

/// Of two keys, one is older, or they are equal.
pub proof fn lemma_key_lt_total(a: Seq<nat>, b: Seq<nat>)
    ensures
        key_lt(a, b) || key_lt(b, a) || a == b,
    decreases a.len(),
{
    if a.len() > 0 && b.len() > 0 && a[0] == b[0] {
        lemma_key_lt_total(a.drop_first(), b.drop_first());
        if a.drop_first() == b.drop_first() {
            assert forall|i: int| 0 <= i < a.len() implies a[i] == b[i] by {
                if i > 0 {
                    assert(a[i] == a.drop_first()[i - 1]);
                    assert(b[i] == b.drop_first()[i - 1]);
                }
            }
            assert(a =~= b);
        }
    } else if a.len() == 0 && b.len() == 0 {
        assert(a =~= b);
    }
}

/// No version is older than itself.
pub proof fn version_lt_irreflexive(a: Seq<char>)
    ensures
        !version_lt_spec(a, a),
{
    lemma_key_lt_irreflexive(version_key_spec(a));
}

/// Older-than is transitive: if `a` is older than `b` and `b` older than `c`,
/// then `a` is older than `c`.
pub proof fn version_lt_transitive(a: Seq<char>, b: Seq<char>, c: Seq<char>)
    requires
        version_lt_spec(a, b),
        version_lt_spec(b, c),
    ensures
        version_lt_spec(a, c),
{
    lemma_key_lt_transitive(version_key_spec(a), version_key_spec(b), version_key_spec(c));
}

/// Two versions are either ordered one way or the other, or have the same
/// numeric key.
pub proof fn version_lt_total(a: Seq<char>, b: Seq<char>)
    ensures
        version_lt_spec(a, b) || version_lt_spec(b, a) || version_key_spec(a)
            == version_key_spec(b),
{
    lemma_key_lt_total(version_key_spec(a), version_key_spec(b));
}

/// The first of `toks` that starts with an ASCII digit.
pub open spec fn first_digit_led(toks: Seq<Seq<char>>) -> Option<Seq<char>>
    decreases toks.len(),
{
    if toks.len() == 0 {
        None
    } else if toks[0].len() > 0 && spec_is_ascii_digit(toks[0][0]) {
        Some(toks[0])
    } else {
        first_digit_led(toks.drop_first())
    }
}

/// First whitespace-separated token that looks like a version, e.g. from
/// "uv 0.9.2" -> "0.9.2".
pub open spec fn first_version_token_spec(s: Seq<char>) -> Option<Seq<char>> {
    first_digit_led(tokens_spec(s))
}

pub fn first_version_token(s: &str) -> (r: Option<String>)
    ensures
        crate::config::opt_view(r) == first_version_token_spec(s@),
{
    let toks = tokens(&chars_of(s));
    let ghost tv = tokens_spec(s@);
    let mut i: usize = 0;
    assert(tv.skip(0) =~= tv);
    while i < toks.len()
        invariant
            i <= toks.len(),
            views(toks@) == tv,
            tv == tokens_spec(s@),
            first_digit_led(tv) == first_digit_led(tv.skip(i as int)),
        decreases toks.len() - i,
    {
        let t = &toks[i];
        assert(t@ == tv[i as int]);
        assert(tv.skip(i as int)[0] == tv[i as int]);
        if t.len() > 0 && is_ascii_digit(t[0]) {
            assert(t@[0] == tv.skip(i as int)[0][0]);
            let r = crate::text::string_from(t);
            assert(first_digit_led(tv.skip(i as int)) == Some(tv[i as int]));
            return Some(r);
        }
        assert(tv.skip(i as int).drop_first() =~= tv.skip(i + 1));
        i = i + 1;
    }
    None
}

} // verus!
