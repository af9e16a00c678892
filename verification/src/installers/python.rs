//! Python, installed and listed through uv.

use vstd::prelude::*;

use crate::config::{string_views, Config};
use crate::error::Error;
use crate::installers::uv::{tool_envs_for, tool_envs_spec, uv_path_for, uv_path_spec};
use crate::platform::{bin_dir_spec, home_dir, join_spec, path_exists, Os};
use crate::text::{concat, str_eq, string_from, trim, trim_spec};
use crate::runner::{command_is, pair_views, push_str, CommandLine};
use crate::status::{first_token, insert_at, to_strings};
use crate::text::{
    chars_of, lines, lines_spec, parse_uint, parse_uint_spec, slice_of, split, split_spec,
    strip_prefix, strip_prefix_spec, tokens, views, Sep,
};

verus! {

broadcast use vstd::string::group_string_axioms;

/// Curated fallback list of Python minor versions offered when uv is not yet
/// installed (or its listing can't be parsed).
pub open spec fn fallback_versions_spec() -> Seq<Seq<char>> {
    seq!["3.14"@, "3.13"@, "3.12"@, "3.11"@, "3.10"@]
}

pub fn fallback_versions() -> (v: Vec<String>)
    ensures
        string_views(v@) == fallback_versions_spec(),
{
    let mut v: Vec<String> = Vec::new();
    push_str(&mut v, "3.14");
    push_str(&mut v, "3.13");
    push_str(&mut v, "3.12");
    push_str(&mut v, "3.11");
    push_str(&mut v, "3.10");
    assert(string_views(v@) =~= fallback_versions_spec());
    v
}

/// The "major.minor" a row of `uv python list --all-versions` names: rows
/// look like `cpython-3.13.1-linux-x86_64-gnu   <path|download>`; the
/// version is the text between "cpython-" and the next '-', and its first two
/// '.'-separated parts must be numbers (as `u32` parses them).
pub open spec fn minor_of_row(line: Seq<char>) -> Option<Seq<char>> {
    match strip_prefix_spec(first_token(line), "cpython-"@) {
        Some(rest) => {
            let ver = split_spec(rest, Sep::Char('-'))[0];
            let parts = split_spec(ver, Sep::Char('.'));
            if parts.len() >= 2 && parse_uint_spec(parts[0], u32::MAX as nat) is Some
                && parse_uint_spec(parts[1], u32::MAX as nat) is Some {
                Some(parts[0] + "."@ + parts[1])
            } else {
                None
            }
        },
        None => None,
    }
}

/// The "major.minor" of every row that names one, in order.
pub open spec fn minor_rows(rows: Seq<Seq<char>>) -> Seq<Seq<char>>
    decreases rows.len(),
{
    if rows.len() == 0 {
        Seq::empty()
    } else {
        let r = minor_rows(rows.drop_last());
        match minor_of_row(rows.last()) {
            Some(m) => r.push(m),
            None => r,
        }
    }
}

/// The numeric (major, minor) of a version: its first two '.'-separated
/// parts as `u32`, each 0 when missing or not a number.
pub open spec fn numeric_key_spec(v: Seq<char>) -> (nat, nat) {
    let p = split_spec(v, Sep::Char('.'));
    let maj = match parse_uint_spec(p[0], u32::MAX as nat) {
        Some(x) => x,
        None => 0,
    };
    let min = if p.len() > 1 {
        match parse_uint_spec(p[1], u32::MAX as nat) {
            Some(x) => x,
            None => 0,
        }
    } else {
        0
    };
    (maj, min)
}

/// Strict lexicographic order of strings, character by character.
pub open spec fn chars_lt(a: Seq<char>, b: Seq<char>) -> bool
    decreases a.len(),
{
    if b.len() == 0 {
        false
    } else if a.len() == 0 {
        true
    } else if a[0] < b[0] {
        true
    } else if a[0] > b[0] {
        false
    } else {
        chars_lt(a.drop_first(), b.drop_first())
    }
}

/// `a` is listed before `b`: newer (major, minor) first, and for equal
/// numbers in string order.
pub open spec fn minor_before(a: Seq<char>, b: Seq<char>) -> bool {
    let ka = numeric_key_spec(a);
    let kb = numeric_key_spec(b);
    ka.0 > kb.0 || (ka.0 == kb.0 && ka.1 > kb.1) || (ka == kb && chars_lt(a, b))
}

/// `s` is listed in order: each element before the next.
pub open spec fn listed_in_order(s: Seq<Seq<char>>) -> bool {
    forall|i: int| 0 <= i < s.len() - 1 ==> minor_before(#[trigger] s[i], s[i + 1])
}

/// The selectable versions: "latest" first, then, when the listing names
/// some, each of their "major.minor" once, newest first, else the fallback
/// list.
pub open spec fn versions_hold(listing: Option<String>, r: Seq<Seq<char>>) -> bool {
    let cands = match listing {
        Some(l) => minor_rows(lines_spec(l@)),
        None => Seq::empty(),
    };
    &&& r.len() >= 1
    &&& r[0] == "latest"@
    &&& if cands.len() == 0 {
        r.drop_first() == fallback_versions_spec()
    } else {
        &&& r.drop_first().no_duplicates()
        &&& r.drop_first().to_set() == cands.to_set()
        &&& listed_in_order(r.drop_first())
    }
}

proof fn lemma_chars_lt_irreflexive(a: Seq<char>)
    ensures
        !chars_lt(a, a),
    decreases a.len(),
{
    if a.len() > 0 {
        lemma_chars_lt_irreflexive(a.drop_first());
    }
}

proof fn lemma_chars_lt_total(a: Seq<char>, b: Seq<char>)
    ensures
        chars_lt(a, b) || chars_lt(b, a) || a == b,
    decreases a.len(),
{
    if a.len() > 0 && b.len() > 0 && a[0] == b[0] {
        lemma_chars_lt_total(a.drop_first(), b.drop_first());
        if a.drop_first() == b.drop_first() {
            assert(a.drop_first().len() == b.drop_first().len());
            assert(a.len() == b.len());
            assert forall|i: int| 0 <= i < a.len() implies a[i] == b[i] by {
                if i > 0 {
                    assert(a[i] == a.drop_first()[i - 1]);
                    assert(b[i] == b.drop_first()[i - 1]);
                }
            }
            assert(a =~= b);
        }
    } else if a.len() == 0 && b.len() == 0 {
        assert(a =~= b);
    }
}

proof fn lemma_chars_lt_transitive(a: Seq<char>, b: Seq<char>, c: Seq<char>)
    requires
        chars_lt(a, b),
        chars_lt(b, c),
    ensures
        chars_lt(a, c),
    decreases a.len(),
{
    if a.len() > 0 && b.len() > 0 && c.len() > 0 && a[0] == b[0] && b[0] == c[0] {
        lemma_chars_lt_transitive(a.drop_first(), b.drop_first(), c.drop_first());
    }
}

/// The listing order is a strict total order on distinct strings: no string
/// comes before itself, it is transitive, and of two different strings one
/// comes first. So the sorted list of a set of strings is determined.
pub proof fn minor_before_is_strict_total(a: Seq<char>, b: Seq<char>, c: Seq<char>)
    ensures
        !minor_before(a, a),
        minor_before(a, b) && minor_before(b, c) ==> minor_before(a, c),
        a != b ==> minor_before(a, b) || minor_before(b, a),
{
    lemma_chars_lt_irreflexive(a);
    lemma_chars_lt_total(a, b);
    if minor_before(a, b) && minor_before(b, c) && chars_lt(a, b) && chars_lt(b, c) {
        lemma_chars_lt_transitive(a, b, c);
    }
}

fn minor_of(line: &Vec<char>) -> (r: Option<Vec<char>>)
    ensures
        match r {
            Some(v) => minor_of_row(line@) == Some(v@),
            None => minor_of_row(line@) is None,
        },
{
    let toks = tokens(line);
    let first: Vec<char> = if toks.len() > 0 {
        slice_of(&toks[0], 0, toks[0].len())
    } else {
        Vec::new()
    };
    assert(first@ =~= first_token(line@));
    match strip_prefix(&first, &chars_of("cpython-")) {
        Some(rest) => {
            let pieces = split(&rest, Sep::Char('-'));
            proof {
                crate::text::lemma_split_len(rest@, Sep::Char('-'));
            }
            let ver = slice_of(&pieces[0], 0, pieces[0].len());
            assert(ver@ =~= split_spec(rest@, Sep::Char('-'))[0]);
            let parts = split(&ver, Sep::Char('.'));
            if parts.len() >= 2 {
                let maj = parse_uint(&parts[0], 4294967295u64);
                let min = parse_uint(&parts[1], 4294967295u64);
                if maj.is_some() && min.is_some() {
                    let mut m = slice_of(&parts[0], 0, parts[0].len());
                    m.push('.');
                    let mut k: usize = 0;
                    let ghost base = m@;
                    while k < parts[1].len()
                        invariant
                            k <= parts[1].len(),
                            parts.len() >= 2,
                            m@ == base + parts[1]@.take(k as int),
                        decreases parts[1].len() - k,
                    {
                        m.push(parts[1][k]);
                        k = k + 1;
                        assert(m@ =~= base + parts[1]@.take(k as int));
                    }
                    proof {
                        reveal_strlit(".");
                        assert(parts[1]@.take(k as int) =~= parts[1]@);
                        assert(base =~= parts[0]@ + "."@);
                    }
                    return Some(m);
                }
            }
            None
        },
        None => None,
    }
}

fn minor_rows_of(rows: &Vec<Vec<char>>) -> (r: Vec<Vec<char>>)
    ensures
        views(r@) == minor_rows(views(rows@)),
{
    let mut r: Vec<Vec<char>> = Vec::new();
    let mut i: usize = 0;
    while i < rows.len()
        invariant
            i <= rows.len(),
            views(r@) == minor_rows(views(rows@).take(i as int)),
        decreases rows.len() - i,
    {
        assert(views(rows@).take(i + 1).drop_last() =~= views(rows@).take(i as int));
        assert(views(rows@).take(i + 1).last() == rows[i as int]@);
        match minor_of(&rows[i]) {
            Some(m) => {
                proof {
                    crate::text::lemma_views_push(r@, m);
                }
                r.push(m);
            },
            None => {},
        }
        i = i + 1;
    }
    assert(views(rows@).take(i as int) =~= views(rows@));
    r
}


/// The numeric (major, minor) of a version.
pub fn numeric_key(v: &Vec<char>) -> (k: (u32, u32))
    ensures
        (k.0 as nat, k.1 as nat) == numeric_key_spec(v@),
{
    let p = split(v, Sep::Char('.'));
    proof {
        crate::text::lemma_split_len(v@, Sep::Char('.'));
    }
    let maj: u32 = match parse_uint(&p[0], 4294967295u64) {
        Some(x) => x as u32,
        None => 0,
    };
    let min: u32 = if p.len() > 1 {
        match parse_uint(&p[1], 4294967295u64) {
            Some(x) => x as u32,
            None => 0,
        }
    } else {
        0
    };
    (maj, min)
}

fn chars_less(a: &Vec<char>, b: &Vec<char>) -> (r: bool)
    ensures
        r == chars_lt(a@, b@),
{
    let mut i: usize = 0;
    assert(a@.skip(0) =~= a@);
    assert(b@.skip(0) =~= b@);
    while i < a.len() && i < b.len() && a[i] == b[i]
        invariant
            i <= a.len(),
            i <= b.len(),
            chars_lt(a@, b@) == chars_lt(a@.skip(i as int), b@.skip(i as int)),
        decreases a.len() - i,
    {
        assert(a@.skip(i as int).drop_first() =~= a@.skip(i + 1));
        assert(b@.skip(i as int).drop_first() =~= b@.skip(i + 1));
        i = i + 1;
    }
    if i == b.len() {
        false
    } else if i == a.len() {
        true
    } else {
        assert(a@.skip(i as int)[0] == a@[i as int]);
        assert(b@.skip(i as int)[0] == b@[i as int]);
        a[i] < b[i]
    }
}

fn before(a: &Vec<char>, b: &Vec<char>) -> (r: bool)
    ensures
        r == minor_before(a@, b@),
{
    let ka = numeric_key(a);
    let kb = numeric_key(b);
    ka.0 > kb.0 || (ka.0 == kb.0 && ka.1 > kb.1) || (ka.0 == kb.0 && ka.1 == kb.1 && chars_less(
        a,
        b,
    ))
}

/// Inserts `x`, which is not there yet, into the ordered list `r`.
fn insert_ordered(r: &Vec<Vec<char>>, x: &Vec<char>) -> (out: Vec<Vec<char>>)
    requires
        views(r@).no_duplicates(),
        listed_in_order(views(r@)),
        !views(r@).contains(x@),
    ensures
        views(out@).no_duplicates(),
        listed_in_order(views(out@)),
        views(out@).to_set() == views(r@).to_set().insert(x@),
{
    let ghost s = views(r@);
    let mut j: usize = 0;
    while j < r.len() && !before(x, &r[j])
        invariant
            j <= r.len(),
            s == views(r@),
            forall|k: int| 0 <= k < j ==> !minor_before(x@, #[trigger] s[k]),
        decreases r.len() - j,
    {
        assert(r[j as int]@ == s[j as int]);
        j = j + 1;
    }
    let out = insert_at(r, j, x);
    let ghost t = views(out@);
    assert(t == s.take(j as int) + seq![x@] + s.skip(j as int));
    assert forall|a: int| 0 <= a < t.len() implies (if a < j {
        t[a] == s[a]
    } else if a == j {
        t[a] == x@
    } else {
        t[a] == s[a - 1]
    }) by {}
    assert forall|a: int, b: int| 0 <= a < t.len() && 0 <= b < t.len() && a != b implies t[a]
        != t[b] by {
        if a != j && b != j {
            let ia = if a < j { a } else { a - 1 };
            let ib = if b < j { b } else { b - 1 };
            assert(s[ia] != s[ib]);
        } else if a == j {
            let ib = if b < j { b } else { b - 1 };
            assert(s.contains(s[ib]));
        } else {
            let ia = if a < j { a } else { a - 1 };
            assert(s.contains(s[ia]));
        }
    }
    assert forall|a: int| 0 <= a < t.len() - 1 implies minor_before(#[trigger] t[a], t[a + 1]) by {
        if a + 1 < j {
            assert(minor_before(s[a], s[a + 1]));
        } else if a + 1 == j {
            assert(!minor_before(x@, s[a]));
            assert(s.contains(s[a]));
            minor_before_is_strict_total(s[a], x@, x@);
        } else if a == j {
            assert(r[j as int]@ == s[j as int]);
        } else {
            assert(minor_before(s[a - 1], s[a]));
        }
    }
    assert forall|y: Seq<char>| t.to_set().contains(y) <==> s.to_set().insert(x@).contains(y) by {
        if t.to_set().contains(y) {
            let a = choose|a: int| 0 <= a < t.len() && t[a] == y;
            if a < j {
                assert(s.contains(s[a]));
            } else if a > j {
                assert(s.contains(s[a - 1]));
            }
        }
        if s.to_set().contains(y) {
            let b = choose|b: int| 0 <= b < s.len() && s[b] == y;
            if b < j {
                assert(t[b] == y);
            } else {
                assert(t[b + 1] == y);
            }
        }
        if y == x@ {
            assert(t[j as int] == y);
        }
    }
    assert(t.to_set() =~= s.to_set().insert(x@));
    out
}

/// Whether `v` holds `x`.
fn contains_chars(v: &Vec<Vec<char>>, x: &Vec<char>) -> (b: bool)
    ensures
        b == views(v@).contains(x@),
{
    let mut i: usize = 0;
    while i < v.len()
        invariant
            i <= v.len(),
            forall|k: int| 0 <= k < i ==> views(v@)[k] != x@,
        decreases v.len() - i,
    {
        if crate::text::eq_chars(&v[i], x) {
            assert(views(v@)[i as int] == x@);
            return true;
        }
        i = i + 1;
    }
    false
}

/// Return selectable Python versions. Always starts with "latest".
/// `listing` is the output of `uv python list --all-versions` when uv is
/// installed and listed successfully; the versions it names replace the
/// fallback list.
pub fn list_versions(listing: &Option<String>) -> (r: Vec<String>)
    ensures
        versions_hold(*listing, string_views(r@)),
{
    let cands: Vec<Vec<char>> = match listing {
        Some(l) => minor_rows_of(&lines(&chars_of(l.as_str()))),
        None => {
            let v: Vec<Vec<char>> = Vec::new();
            assert(views(v@) =~= Seq::<Seq<char>>::empty());
            v
        },
    };
    let ghost cs = match listing {
        Some(l) => minor_rows(lines_spec(l@)),
        None => Seq::<Seq<char>>::empty(),
    };
    assert(views(cands@) == cs);
    let mut r: Vec<String> = Vec::new();
    push_str(&mut r, "latest");
    if cands.len() == 0 {
        let fb = fallback_versions();
        let mut i: usize = 0;
        while i < fb.len()
            invariant
                i <= fb.len(),
                string_views(fb@) == fallback_versions_spec(),
                string_views(r@) == seq!["latest"@] + fallback_versions_spec().take(i as int),
            decreases fb.len() - i,
        {
            push_str(&mut r, fb[i].as_str());
            i = i + 1;
            assert(string_views(r@) =~= seq!["latest"@] + fallback_versions_spec().take(i as int));
        }
        assert(fallback_versions_spec().take(i as int) =~= fallback_versions_spec());
        assert(string_views(r@).drop_first() =~= fallback_versions_spec());
        return r;
    }
    let mut sorted: Vec<Vec<char>> = Vec::new();
    let mut i: usize = 0;
    assert(views(sorted@).to_set() =~= cs.take(0).to_set());
    while i < cands.len()
        invariant
            i <= cands.len(),
            views(cands@) == cs,
            views(sorted@).no_duplicates(),
            listed_in_order(views(sorted@)),
            views(sorted@).to_set() == cs.take(i as int).to_set(),
        decreases cands.len() - i,
    {
        assert(cs.take(i + 1) =~= cs.take(i as int).push(cs[i as int]));
        proof {
            cs.take(i as int).lemma_push_to_set_commute(cs[i as int]);
        }
        assert(cands[i as int]@ == cs[i as int]);
        if !contains_chars(&sorted, &cands[i]) {
            sorted = insert_ordered(&sorted, &cands[i]);
        } else {
            assert(views(sorted@).to_set().contains(cs[i as int]));
            assert(views(sorted@).to_set().insert(cs[i as int]) =~= views(sorted@).to_set());
        }
        i = i + 1;
    }
    assert(cs.take(i as int) =~= cs);
    let strs = to_strings(&sorted);
    let mut k: usize = 0;
    while k < strs.len()
        invariant
            k <= strs.len(),
            string_views(r@) == seq!["latest"@] + string_views(strs@).take(k as int),
        decreases strs.len() - k,
    {
        push_str(&mut r, strs[k].as_str());
        k = k + 1;
        assert(string_views(r@) =~= seq!["latest"@] + string_views(strs@).take(k as int));
    }
    assert(string_views(strs@).take(k as int) =~= string_views(strs@));
    assert(string_views(r@).drop_first() =~= views(sorted@));
    r
}


/// The arguments of `uv python install` for `cfg`: the version unless it is
/// blank or "latest", and `--default` to also install the bare `python` /
/// `python3` shims.
pub open spec fn python_args_spec(cfg: Config) -> Seq<Seq<char>> {
    let v = trim_spec(cfg.python.version@);
    seq!["python"@, "install"@] + (if v.len() > 0 && v != "latest"@ {
        seq![v]
    } else {
        Seq::empty()
    }) + (if cfg.python.set_default {
        seq!["--default"@]
    } else {
        Seq::empty()
    })
}

/// The line announcing the install.
pub open spec fn python_announce_spec(cfg: Config) -> Seq<char> {
    let v = trim_spec(cfg.python.version@);
    "Installing Python ("@ + (if v.len() == 0 {
        "latest"@
    } else {
        v
    }) + ") via uv..."@
}

/// How to install Python: announce, run `command`, then report `done`.
#[derive(Debug, Clone, PartialEq, Eq)]
pub struct PythonInstall {
    pub announce: String,
    pub command: CommandLine,
    pub done: String,
}

/// The message when uv is missing.
pub open spec fn uv_missing_message() -> Seq<char> {
    "uv is not installed yet; install uv first"@
}

/// The Python installation for the home directory `home`; `uv_exists`
/// says whether uv was found where it is installed under it. Without uv the
/// install is refused.
pub fn install_for(cfg: &Config, os: Os, home: &str, uv_exists: bool) -> (r: Result<PythonInstall, Error>)
    ensures
        uv_exists <==> r is Ok,
        match r {
            Ok(p) => {
                &&& p.announce@ == python_announce_spec(*cfg)
                &&& p.done@ == "Python installed"@
                &&& command_is(
                    p.command,
                    uv_path_spec(os, home@),
                    python_args_spec(*cfg),
                    tool_envs_spec(*cfg, os, bin_dir_spec(os, home@)),
                )
            },
            Err(e) => e matches Error::Msg(m) && m@ == uv_missing_message(),
        },
{
    if !uv_exists {
        return Err(Error::msg("uv is not installed yet; install uv first".to_string()));
    }
    let uv_path = uv_path_for(os, home);
    let envs = tool_envs_for(cfg, os, home);
    let vc = trim(&chars_of(cfg.python.version.as_str()));
    let version = string_from(&vc);
    let mut args: Vec<String> = Vec::new();
    push_str(&mut args, "python");
    push_str(&mut args, "install");
    if vc.len() > 0 && !str_eq(version.as_str(), "latest") {
        push_str(&mut args, version.as_str());
    }
    if cfg.python.set_default {
        push_str(&mut args, "--default");
    }
    assert(string_views(args@) =~= python_args_spec(*cfg));
    let shown = if vc.len() == 0 {
        "latest".to_string()
    } else {
        version
    };
    let a = concat("Installing Python (", shown.as_str());
    let announce = concat(a.as_str(), ") via uv...");
    let p = PythonInstall {
        announce,
        command: CommandLine { program: uv_path, args, envs },
        done: "Python installed".to_string(),
    };
    assert(command_is(
        p.command,
        uv_path_spec(os, home@),
        python_args_spec(*cfg),
        tool_envs_spec(*cfg, os, bin_dir_spec(os, home@)),
    ));
    Ok(p)
}


/// Install the configured Python version through uv: uv runs from where it
/// is installed, with the uv tool environment. Without a home directory, or
/// without uv there, the install is refused.
pub fn install(cfg: &Config, os: Os) -> (r: Result<PythonInstall, Error>)
    ensures
        match r {
            Ok(p) => {
                &&& p.announce@ == python_announce_spec(*cfg)
                &&& p.done@ == "Python installed"@
                &&& exists|h: Seq<char>|
                    #[trigger] command_is(
                        p.command,
                        uv_path_spec(os, h),
                        python_args_spec(*cfg),
                        tool_envs_spec(*cfg, os, bin_dir_spec(os, h)),
                    )
            },
            Err(e) => e matches Error::Msg(m) && m@ == uv_missing_message(),
        },
{
    match home_dir() {
        Ok(h) => {
            let p = uv_path_for(os, h.as_str());
            let exists = path_exists(p.as_str());
            install_for(cfg, os, h.as_str(), exists)
        },
        Err(_) => Err(Error::msg("uv is not installed yet; install uv first".to_string())),
    }
}


/// Python is installed by the very uv that the uv installer puts in place:
/// for every home directory, the Python command runs the uv binary of the
/// uv plan under that home, with the same environment as the uv installer,
/// and that environment points uv's install directory at the directory uv
/// was installed into.
pub proof fn python_runs_installed_uv(
    cfg: Config,
    os: Os,
    temp: Seq<char>,
    home: Seq<char>,
    u: crate::installers::uv::UvInstall,
    c: CommandLine,
)
    requires
        crate::installers::uv::uv_install_holds(cfg, os, temp, home, u),
        command_is(
            c,
            uv_path_spec(os, home),
            python_args_spec(cfg),
            tool_envs_spec(cfg, os, bin_dir_spec(os, home)),
        ),
    ensures
        c.program@ == u.uv_path@,
        pair_views(c.envs@) == pair_views(u.command.envs@),
        pair_views(c.envs@).contains(("UV_INSTALL_DIR"@, u.bin_dir@)),
        u.uv_path@ == join_spec(os, u.bin_dir@, crate::platform::uv_exe_name_spec(os)),
{
    let envs = tool_envs_spec(cfg, os, bin_dir_spec(os, home));
    let p = crate::download::proxy_envs_spec(cfg.proxy);
    assert(envs[p.len() as int] == ("UV_INSTALL_DIR"@, bin_dir_spec(os, home)));
}

} // verus!
