//! Detection of already-installed components and their versions, so the UI/CLI
//! can show status and decide whether to skip, reinstall, or upgrade.
//!
//! The program runs the tools and the lookups; the functions here read what
//! came back.

use vstd::prelude::*;

use crate::config::{opt_view, string_views, Config};
use crate::platform::{vscode_update_platform, vscode_update_platform_spec, Os};
use crate::pathenv::PathStatus;
use crate::text::{
    chars_of, is_ascii_digit, lines, lines_spec, slice_of, spec_is_ascii_digit, split,
    split_spec, starts_with, string_from, strip_prefix, strip_prefix_spec, tokens, tokens_spec,
    trim, trim_spec, views, Sep,
};
use crate::json::{json_array_len, json_array_len_spec, json_has, json_has_spec, json_str, json_str_spec};
use crate::installers::extensions::{effective_list, effective_list_spec};
use crate::text::{lowercase_spec, to_lowercase, split_once, split_once_spec, u64_to_string, decimal_spec};
use crate::version::{
    first_version_token, first_version_token_spec, key_lt, key_view, version_key,
    version_key_spec, version_lt, version_lt_spec,
};

verus! {

broadcast use vstd::string::group_string_axioms;

/// Status of a single tool (uv / VSCode).
#[derive(Debug, Clone, PartialEq, Eq)]
pub struct Tool {
    pub installed: bool,
    pub current: Option<String>,
    pub latest: Option<String>,
    pub upgrade_available: bool,
    pub location: Option<String>,
}

#[derive(Debug, Clone, PartialEq, Eq)]
pub struct ExtStatus {
    pub id: String,
    pub installed: bool,
    pub version: Option<String>,
    pub latest: Option<String>,
    pub upgrade_available: bool,
}

#[derive(Debug, Clone, PartialEq, Eq)]
pub struct PythonStatus {
    pub installed_versions: Vec<String>,
    pub requested: String,
    pub satisfied: bool,
}

#[derive(Debug, Clone, PartialEq, Eq)]
pub struct EnvStatus {
    pub uv: Tool,
    pub python: PythonStatus,
    pub vscode: Tool,
    pub extensions: Vec<ExtStatus>,
    pub path: PathStatus,
}

/// The first whitespace-separated token of a line, or "" when it has none.
pub open spec fn first_token(line: Seq<char>) -> Seq<char> {
    let t = tokens_spec(line);
    if t.len() > 0 {
        t[0]
    } else {
        Seq::empty()
    }
}

/// The version a `uv python list` row names: rows look like
/// `cpython-3.13.1-linux-x86_64-gnu   <path>`; the version is the text
/// between "cpython-" and the next '-', kept when it starts with a digit.
pub open spec fn python_row_version(line: Seq<char>) -> Option<Seq<char>> {
    match strip_prefix_spec(first_token(line), "cpython-"@) {
        Some(rest) => {
            let ver = split_spec(rest, Sep::Char('-'))[0];
            if ver.len() > 0 && spec_is_ascii_digit(ver[0]) {
                Some(ver)
            } else {
                None
            }
        },
        None => None,
    }
}

/// The versions named by the rows, in order.
pub open spec fn row_versions(rows: Seq<Seq<char>>) -> Seq<Seq<char>>
    decreases rows.len(),
{
    if rows.len() == 0 {
        Seq::empty()
    } else {
        let r = row_versions(rows.drop_last());
        match python_row_version(rows.last()) {
            Some(v) => r.push(v),
            None => r,
        }
    }
}

/// `sorted` (newest first) with `x` placed after every element whose key is
/// not older than its own: the step of a stable sort.
pub open spec fn insert_newest_first(sorted: Seq<Seq<char>>, x: Seq<char>) -> Seq<Seq<char>>
    decreases sorted.len(),
{
    if sorted.len() == 0 {
        seq![x]
    } else if key_lt(version_key_spec(sorted.last()), version_key_spec(x)) {
        insert_newest_first(sorted.drop_last(), x).push(sorted.last())
    } else {
        sorted.push(x)
    }
}

/// Stable sort, newest version first (`sort_by` comparing keys in reverse).
pub open spec fn sort_newest_first(s: Seq<Seq<char>>) -> Seq<Seq<char>>
    decreases s.len(),
{
    if s.len() == 0 {
        Seq::empty()
    } else {
        insert_newest_first(sort_newest_first(s.drop_last()), s.last())
    }
}

/// `Vec::dedup`: runs of equal neighbours reduced to one element.
pub open spec fn dedup_spec(s: Seq<Seq<char>>) -> Seq<Seq<char>>
    decreases s.len(),
{
    if s.len() <= 1 {
        s
    } else if s.last() == s[s.len() - 2] {
        dedup_spec(s.drop_last())
    } else {
        dedup_spec(s.drop_last()).push(s.last())
    }
}

/// The installed Python versions listed by `uv python list --only-installed`,
/// newest first, without repeated neighbours.
pub open spec fn installed_pythons_spec(listing: Seq<char>) -> Seq<Seq<char>> {
    dedup_spec(sort_newest_first(row_versions(lines_spec(listing))))
}

/// The Python version asked for: the trimmed setting, or "latest" when blank.
pub open spec fn requested_spec(cfg: Config) -> Seq<char> {
    if trim_spec(cfg.python.version@).len() == 0 {
        "latest"@
    } else {
        trim_spec(cfg.python.version@)
    }
}

/// The installed versions satisfy the request: any version for "latest",
/// else the exact version or a patch release of it.
pub open spec fn satisfied_spec(installed: Seq<Seq<char>>, requested: Seq<char>) -> bool {
    if requested == "latest"@ {
        installed.len() > 0
    } else {
        exists|i: int|
            0 <= i < installed.len() && (installed[i] == requested || (requested
                + "."@).is_prefix_of(#[trigger] installed[i]))
    }
}

pub fn row_version(line: &Vec<char>) -> (r: Option<Vec<char>>)
    ensures
        match r {
            Some(v) => python_row_version(line@) == Some(v@),
            None => python_row_version(line@) is None,
        },
{
    let toks = tokens(line);
    let first: Vec<char> = if toks.len() > 0 {
        slice_of(&toks[0], 0, toks[0].len())
    } else {
        Vec::new()
    };
    assert(first@ =~= first_token(line@));
    match strip_prefix(&first, &chars_of("cpython-")) {
        Some(rest) => {
            let pieces = split(&rest, Sep::Char('-'));
            proof {
                crate::text::lemma_split_len(rest@, Sep::Char('-'));
            }
            let ver = slice_of(&pieces[0], 0, pieces[0].len());
            assert(ver@ =~= split_spec(rest@, Sep::Char('-'))[0]);
            if ver.len() > 0 && is_ascii_digit(ver[0]) {
                Some(ver)
            } else {
                None
            }
        },
        None => None,
    }
}

/// A copy of `v` with `x` inserted at position `j`.
pub fn insert_at(v: &Vec<Vec<char>>, j: usize, x: &Vec<char>) -> (r: Vec<Vec<char>>)
    requires
        j <= v.len(),
    ensures
        views(r@) == views(v@).take(j as int) + seq![x@] + views(v@).skip(j as int),
{
    let mut r: Vec<Vec<char>> = Vec::new();
    let mut i: usize = 0;
    while i < v.len()
        invariant
            i <= v.len(),
            j <= v.len(),
            views(r@) == if i <= j {
                views(v@).take(i as int)
            } else {
                views(v@).take(j as int) + seq![x@] + views(v@).subrange(j as int, i as int)
            },
        decreases v.len() - i,
    {
        if i == j {
            let c = slice_of(x, 0, x.len());
            assert(c@ =~= x@);
            proof {
                crate::text::lemma_views_push(r@, c);
            }
            r.push(c);
        }
        let e = slice_of(&v[i], 0, v[i].len());
        assert(e@ =~= views(v@)[i as int]);
        proof {
            crate::text::lemma_views_push(r@, e);
        }
        r.push(e);
        i = i + 1;
        assert(views(r@) =~= if i <= j {
            views(v@).take(i as int)
        } else {
            views(v@).take(j as int) + seq![x@] + views(v@).subrange(j as int, i as int)
        });
    }
    if j == v.len() {
        let c = slice_of(x, 0, x.len());
        assert(c@ =~= x@);
        proof {
            crate::text::lemma_views_push(r@, c);
        }
        r.push(c);
    }
    assert(views(r@) =~= views(v@).take(j as int) + seq![x@] + views(v@).skip(j as int));
    r
}

/// The version `a` is older than the key `kx`.
fn older_than(a: &Vec<char>, kx: &Vec<u64>) -> (b: bool)
    ensures
        b == key_lt(version_key_spec(a@), key_view(kx@)),
{
    let ka = version_key(string_from(a).as_str());
    crate::version::key_less(&ka, kx)
}

/// `v` (sorted newest first) with `x` inserted after every element whose key
/// is not older than its own.
fn insert_sorted(v: &Vec<Vec<char>>, x: &Vec<char>) -> (r: Vec<Vec<char>>)
    ensures
        views(r@) == insert_newest_first(views(v@), x@),
{
    let ghost s = views(v@);
    let kx = version_key(string_from(x).as_str());
    let mut j: usize = v.len();
    assert(s.take(j as int) =~= s);
    assert(s.skip(j as int) =~= Seq::<Seq<char>>::empty());
    while j > 0 && older_than(&v[j - 1], &kx)
        invariant
            j <= v.len(),
            s == views(v@),
            key_view(kx@) == version_key_spec(x@),
            insert_newest_first(s, x@) == insert_newest_first(s.take(j as int), x@) + s.skip(
                j as int,
            ),
        decreases j,
    {
        assert(v[j - 1]@ == s[j - 1]);
        assert(s.take(j as int).drop_last() =~= s.take(j - 1));
        assert(s.take(j as int).last() == s[j - 1]);
        assert(insert_newest_first(s.take(j - 1), x@).push(s[j - 1]) + s.skip(j as int)
            =~= insert_newest_first(s.take(j - 1), x@) + s.skip(j - 1));
        j = j - 1;
    }
    proof {
        if j > 0 {
            assert(v[j - 1]@ == s[j - 1]);
            assert(s.take(j as int).drop_last() =~= s.take(j - 1));
            assert(s.take(j as int).last() == s[j - 1]);
        }
    }
    assert(insert_newest_first(s.take(j as int), x@) =~= s.take(j as int) + seq![x@]);
    insert_at(v, j, x)
}


fn sort_newest(v: &Vec<Vec<char>>) -> (r: Vec<Vec<char>>)
    ensures
        views(r@) == sort_newest_first(views(v@)),
{
    let mut r: Vec<Vec<char>> = Vec::new();
    let mut i: usize = 0;
    while i < v.len()
        invariant
            i <= v.len(),
            views(r@) == sort_newest_first(views(v@).take(i as int)),
        decreases v.len() - i,
    {
        assert(views(v@).take(i + 1).drop_last() =~= views(v@).take(i as int));
        assert(views(v@).take(i + 1).last() == v[i as int]@);
        r = insert_sorted(&r, &v[i]);
        i = i + 1;
    }
    assert(views(v@).take(i as int) =~= views(v@));
    r
}

fn dedup(v: &Vec<Vec<char>>) -> (r: Vec<Vec<char>>)
    ensures
        views(r@) == dedup_spec(views(v@)),
{
    let mut r: Vec<Vec<char>> = Vec::new();
    let mut i: usize = 0;
    while i < v.len()
        invariant
            i <= v.len(),
            views(r@) == dedup_spec(views(v@).take(i as int)),
        decreases v.len() - i,
    {
        let ghost t = views(v@).take(i + 1);
        assert(t.drop_last() =~= views(v@).take(i as int));
        assert(t.last() == v[i as int]@);
        if i > 0 && crate::text::eq_chars(&v[i], &v[i - 1]) {
            assert(t[t.len() - 2] == v[i - 1]@);
        } else {
            if i > 0 {
                assert(t[t.len() - 2] == v[i - 1]@);
            } else {
                assert(t =~= seq![v[0]@]);
                assert(dedup_spec(views(v@).take(0)) =~= Seq::<Seq<char>>::empty());
            }
            let e = slice_of(&v[i], 0, v[i].len());
            assert(e@ =~= v[i as int]@);
            proof {
                crate::text::lemma_views_push(r@, e);
            }
            r.push(e);
        }
        i = i + 1;
    }
    assert(views(v@).take(i as int) =~= views(v@));
    r
}

fn row_versions_of(rows: &Vec<Vec<char>>) -> (r: Vec<Vec<char>>)
    ensures
        views(r@) == row_versions(views(rows@)),
{
    let mut r: Vec<Vec<char>> = Vec::new();
    let mut i: usize = 0;
    while i < rows.len()
        invariant
            i <= rows.len(),
            views(r@) == row_versions(views(rows@).take(i as int)),
        decreases rows.len() - i,
    {
        assert(views(rows@).take(i + 1).drop_last() =~= views(rows@).take(i as int));
        assert(views(rows@).take(i + 1).last() == rows[i as int]@);
        match row_version(&rows[i]) {
            Some(ver) => {
                proof {
                    crate::text::lemma_views_push(r@, ver);
                }
                r.push(ver);
            },
            None => {},
        }
        i = i + 1;
    }
    assert(views(rows@).take(i as int) =~= views(rows@));
    r
}

/// The installed Python versions listed by `uv python list --only-installed`,
/// newest first, without repeated neighbours.
pub fn installed_pythons(listing: &str) -> (r: Vec<String>)
    ensures
        string_views(r@) == installed_pythons_spec(listing@),
{
    let rows = lines(&chars_of(listing));
    let vers = row_versions_of(&rows);
    let sorted = sort_newest(&vers);
    let d = dedup(&sorted);
    to_strings(&d)
}

/// The character vectors as strings.
pub fn to_strings(v: &Vec<Vec<char>>) -> (r: Vec<String>)
    ensures
        string_views(r@) == views(v@),
{
    let mut r: Vec<String> = Vec::new();
    let mut i: usize = 0;
    while i < v.len()
        invariant
            i <= v.len(),
            string_views(r@) == views(v@).take(i as int),
        decreases v.len() - i,
    {
        let s = string_from(&v[i]);
        let ghost old_r = r@;
        assert(string_views(old_r).len() == i);
        r.push(s);
        assert(r@[i as int] == s);
        assert forall|m: int| 0 <= m < i + 1 implies string_views(r@)[m] == views(v@)[m] by {
            if m < i {
                assert(string_views(old_r)[m] == views(v@).take(i as int)[m]);
            }
        }
        i = i + 1;
        assert(string_views(r@) =~= views(v@).take(i as int));
    }
    assert(views(v@).take(i as int) =~= views(v@));
    r
}

/// The Python part of the status: `listing` is the output of
/// `uv python list --only-installed`, or `None` when uv is not installed or
/// the listing failed.
pub open spec fn python_status_holds(cfg: Config, listing: Option<String>, st: PythonStatus) -> bool {
    let installed = match listing {
        Some(l) => installed_pythons_spec(l@),
        None => Seq::empty(),
    };
    &&& string_views(st.installed_versions@) == installed
    &&& st.requested@ == requested_spec(cfg)
    &&& st.satisfied == satisfied_spec(installed, requested_spec(cfg))
}

pub fn detect_python(cfg: &Config, listing: &Option<String>) -> (st: PythonStatus)
    ensures
        python_status_holds(*cfg, *listing, st),
{
    let installed: Vec<String> = match listing {
        Some(l) => installed_pythons(l.as_str()),
        None => {
            let v: Vec<String> = Vec::new();
            assert(string_views(v@) =~= Seq::<Seq<char>>::empty());
            v
        },
    };
    let t = trim(&chars_of(cfg.python.version.as_str()));
    let requested = if t.len() == 0 {
        "latest".to_string()
    } else {
        string_from(&t)
    };
    let satisfied = if crate::text::str_eq(requested.as_str(), "latest") {
        installed.len() > 0
    } else {
        let mut prefix = requested.clone();
        prefix.push('.');
        let pc = chars_of(prefix.as_str());
        proof {
            reveal_strlit(".");
            assert(requested@ + "."@ =~= requested@.push('.'));
        }
        let rc = chars_of(requested.as_str());
        let mut found = false;
        let mut i: usize = 0;
        while i < installed.len()
            invariant
                i <= installed.len(),
                rc@ == requested@,
                pc@ == requested@ + "."@,
                found == exists|j: int|
                    0 <= j < i && (string_views(installed@)[j] == requested@ || (requested@
                        + "."@).is_prefix_of(#[trigger] string_views(installed@)[j])),
            decreases installed.len() - i,
        {
            let vc = chars_of(installed[i].as_str());
            assert(vc@ == string_views(installed@)[i as int]);
            if crate::text::eq_chars(&vc, &rc) || starts_with(&vc, &pc) {
                found = true;
            }
            i = i + 1;
        }
        found
    };
    PythonStatus { installed_versions: installed, requested, satisfied }
}


/// The newest uv release from the body of GitHub's "latest release" answer:
/// its `tag_name` without leading 'v's.
pub open spec fn uv_latest_spec(body: Seq<char>) -> Option<Seq<char>> {
    match json_str_spec(body, "/tag_name"@) {
        Some(t) => Some(crate::text::trim_start_spec(t, Sep::Char('v'))),
        None => None,
    }
}

pub fn uv_latest(body: &str) -> (r: Option<String>)
    ensures
        opt_view(r) == uv_latest_spec(body@),
{
    match json_str(body, "/tag_name") {
        Some(t) => {
            let v = crate::text::trim_start(&chars_of(t.as_str()), Sep::Char('v'));
            Some(string_from(&v))
        },
        None => None,
    }
}

/// The newest VSCode version from the body of the update API's answer: its
/// `productVersion`, or its `name` when there is no `productVersion`.
pub open spec fn vscode_latest_spec(body: Seq<char>) -> Option<Seq<char>> {
    if json_has_spec(body, "/productVersion"@) {
        json_str_spec(body, "/productVersion"@)
    } else {
        json_str_spec(body, "/name"@)
    }
}

pub fn vscode_latest(body: &str) -> (r: Option<String>)
    ensures
        opt_view(r) == vscode_latest_spec(body@),
{
    if json_has(body, "/productVersion") {
        json_str(body, "/productVersion")
    } else {
        json_str(body, "/name")
    }
}

/// An upgrade is available when both versions are known and the current one
/// is older.
pub open spec fn upgrade_spec(current: Option<Seq<char>>, latest: Option<Seq<char>>) -> bool {
    match (current, latest) {
        (Some(c), Some(l)) => version_lt_spec(c, l),
        _ => false,
    }
}

fn upgrade(current: &Option<String>, latest: &Option<String>) -> (b: bool)
    ensures
        b == upgrade_spec(opt_view(*current), opt_view(*latest)),
{
    match (current, latest) {
        (Some(c), Some(l)) => version_lt(c.as_str(), l.as_str()),
        _ => false,
    }
}

/// What the program observed about the machine, for `detect`.
#[derive(Debug, Clone, PartialEq, Eq)]
pub struct Probe {
    /// Where uv is (or would be) installed; `None` without a home directory.
    pub uv_path: Option<String>,
    /// A file exists at `uv_path`.
    pub uv_exists: bool,
    /// Output of `uv --version`, when it ran successfully.
    pub uv_version_output: Option<String>,
    /// Body of the successful answer to the uv latest-release lookup.
    pub uv_latest_body: Option<String>,
    /// Output of `uv python list --only-installed`, when it ran successfully.
    pub python_listing: Option<String>,
    /// The `code` launcher found on the machine.
    pub code_path: Option<String>,
    /// Output of `code --version`, when it ran successfully.
    pub code_version_output: Option<String>,
    /// Body of the successful answer to the VSCode update API.
    pub vscode_latest_body: Option<String>,
    /// Output of `code --list-extensions --show-versions`, when it ran.
    pub extensions_listing: Option<String>,
    /// Body of the successful answer to the marketplace query.
    pub marketplace_body: Option<String>,
    /// The PATH configuration, when it could be probed.
    pub path: Option<PathStatus>,
}

/// The uv part of the status.
pub open spec fn uv_tool_holds(p: Probe, check_latest: bool, t: Tool) -> bool {
    let installed = p.uv_path is Some && p.uv_exists;
    let current = if installed {
        match p.uv_version_output {
            Some(o) => first_version_token_spec(o@),
            None => None,
        }
    } else {
        None
    };
    let latest = if check_latest {
        match p.uv_latest_body {
            Some(b) => uv_latest_spec(b@),
            None => None,
        }
    } else {
        None
    };
    &&& t.installed == installed
    &&& opt_view(t.location) == (if installed {
        opt_view(p.uv_path)
    } else {
        None
    })
    &&& opt_view(t.current) == current
    &&& opt_view(t.latest) == latest
    &&& t.upgrade_available == upgrade_spec(current, latest)
}

pub fn detect_uv(p: &Probe, check_latest: bool) -> (t: Tool)
    ensures
        uv_tool_holds(*p, check_latest, t),
{
    let installed = p.uv_path.is_some() && p.uv_exists;
    let location = if installed {
        p.uv_path.clone()
    } else {
        None
    };
    let current = if installed {
        match &p.uv_version_output {
            Some(o) => first_version_token(o.as_str()),
            None => None,
        }
    } else {
        None
    };
    let latest = if check_latest {
        match &p.uv_latest_body {
            Some(b) => uv_latest(b.as_str()),
            None => None,
        }
    } else {
        None
    };
    let upgrade_available = upgrade(&current, &latest);
    Tool { installed, current, latest, upgrade_available, location }
}

/// The first line of `out`, trimmed, when it is not blank.
pub open spec fn first_line_spec(out: Seq<char>) -> Option<Seq<char>> {
    let ls = lines_spec(out);
    if ls.len() > 0 && trim_spec(ls[0]).len() > 0 {
        Some(trim_spec(ls[0]))
    } else {
        None
    }
}

fn first_line(out: &str) -> (r: Option<String>)
    ensures
        opt_view(r) == first_line_spec(out@),
{
    let ls = lines(&chars_of(out));
    if ls.len() == 0 {
        return None;
    }
    let t = trim(&ls[0]);
    if t.len() > 0 {
        Some(string_from(&t))
    } else {
        None
    }
}

/// The VSCode part of the status.
pub open spec fn vscode_tool_holds(p: Probe, check_latest: bool, t: Tool) -> bool {
    let installed = p.code_path is Some;
    let current = if installed {
        match p.code_version_output {
            Some(o) => first_line_spec(o@),
            None => None,
        }
    } else {
        None
    };
    let latest = if check_latest && installed {
        match p.vscode_latest_body {
            Some(b) => vscode_latest_spec(b@),
            None => None,
        }
    } else {
        None
    };
    &&& t.installed == installed
    &&& opt_view(t.location) == opt_view(p.code_path)
    &&& opt_view(t.current) == current
    &&& opt_view(t.latest) == latest
    &&& t.upgrade_available == upgrade_spec(current, latest)
}

pub fn detect_vscode(p: &Probe, check_latest: bool) -> (t: Tool)
    ensures
        vscode_tool_holds(*p, check_latest, t),
{
    let installed = p.code_path.is_some();
    let current = if installed {
        match &p.code_version_output {
            Some(o) => first_line(o.as_str()),
            None => None,
        }
    } else {
        None
    };
    let latest = if check_latest && installed {
        match &p.vscode_latest_body {
            Some(b) => vscode_latest(b.as_str()),
            None => None,
        }
    } else {
        None
    };
    let upgrade_available = upgrade(&current, &latest);
    Tool { installed, current, latest, upgrade_available, location: p.code_path.clone() }
}


/// The last value stored under `key` (later entries replace earlier ones, as
/// inserting into a map does).
pub open spec fn lookup_last<V>(entries: Seq<(Seq<char>, V)>, key: Seq<char>) -> Option<V>
    decreases entries.len(),
{
    if entries.len() == 0 {
        None
    } else if entries.last().0 == key {
        Some(entries.last().1)
    } else {
        lookup_last(entries.drop_last(), key)
    }
}

/// One row of `code --list-extensions --show-versions` ("publisher.name@1.2.3"),
/// trimmed: the lowercased id and the version after the first '@', or `None`
/// for a blank row.
pub open spec fn ext_row(line: Seq<char>) -> Option<(Seq<char>, Option<Seq<char>>)> {
    let t = trim_spec(line);
    if t.len() == 0 {
        None
    } else {
        match split_once_spec(t, '@') {
            Some((a, b)) => Some((lowercase_spec(a), Some(b))),
            None => Some((lowercase_spec(t), None)),
        }
    }
}

/// The installed extensions named by the rows, in order.
pub open spec fn ext_rows(rows: Seq<Seq<char>>) -> Seq<(Seq<char>, Option<Seq<char>>)>
    decreases rows.len(),
{
    if rows.len() == 0 {
        Seq::empty()
    } else {
        let r = ext_rows(rows.drop_last());
        match ext_row(rows.last()) {
            Some(e) => r.push(e),
            None => r,
        }
    }
}

/// The installed extensions in a listing (none without one).
pub open spec fn installed_exts_spec(listing: Option<String>) -> Seq<(Seq<char>, Option<Seq<char>>)> {
    match listing {
        Some(l) => ext_rows(lines_spec(l@)),
        None => Seq::empty(),
    }
}

/// An installed extension with its optional version.
pub struct InstalledExt {
    pub key: String,
    pub version: Option<String>,
}

pub open spec fn installed_views(v: Seq<InstalledExt>) -> Seq<(Seq<char>, Option<Seq<char>>)> {
    Seq::new(v.len(), |i: int| (v[i].key@, opt_view(v[i].version)))
}

fn installed_exts(listing: &Option<String>) -> (r: Vec<InstalledExt>)
    ensures
        installed_views(r@) == installed_exts_spec(*listing),
{
    let mut r: Vec<InstalledExt> = Vec::new();
    match listing {
        None => {
            assert(installed_views(r@) =~= installed_exts_spec(*listing));
            r
        },
        Some(l) => {
            let rows = lines(&chars_of(l.as_str()));
            let mut i: usize = 0;
            while i < rows.len()
                invariant
                    i <= rows.len(),
                    installed_views(r@) == ext_rows(views(rows@).take(i as int)),
                decreases rows.len() - i,
            {
                assert(views(rows@).take(i + 1).drop_last() =~= views(rows@).take(i as int));
                assert(views(rows@).take(i + 1).last() == rows[i as int]@);
                let t = trim(&rows[i]);
                if t.len() > 0 {
                    let e = match split_once(&t, '@') {
                        Some((a, b)) => InstalledExt {
                            key: to_lowercase(string_from(&a).as_str()),
                            version: Some(string_from(&b)),
                        },
                        None => InstalledExt {
                            key: to_lowercase(string_from(&t).as_str()),
                            version: None,
                        },
                    };
                    let ghost old_r = r@;
                    r.push(e);
                    assert(installed_views(r@) =~= installed_views(old_r).push(
                        (e.key@, opt_view(e.version)),
                    ));
                }
                i = i + 1;
            }
            assert(views(rows@).take(i as int) =~= views(rows@));
            r
        },
    }
}

/// The version recorded for the lowercased id `key` among the installed
/// extensions (the last entry for it), or `None` when it is not installed.
pub fn lookup_installed(v: &Vec<InstalledExt>, key: &str) -> (r: Option<Option<String>>)
    ensures
        match r {
            Some(x) => lookup_last(installed_views(v@), key@) == Some(opt_view(x)),
            None => lookup_last(installed_views(v@), key@) is None,
        },
{
    let mut j: usize = v.len();
    assert(installed_views(v@).take(j as int) =~= installed_views(v@));
    while j > 0
        invariant
            j <= v.len(),
            lookup_last(installed_views(v@), key@) == lookup_last(
                installed_views(v@).take(j as int),
                key@,
            ),
        decreases j,
    {
        let ghost t = installed_views(v@).take(j as int);
        assert(t.last() == (v[j - 1].key@, opt_view(v[j - 1].version)));
        assert(t.drop_last() =~= installed_views(v@).take(j - 1));
        if crate::text::str_eq(v[j - 1].key.as_str(), key) {
            return Some(v[j - 1].version.clone());
        }
        j = j - 1;
    }
    None
}

/// The latest versions in the marketplace's answer: for every result with a
/// publisher name, an extension name and a first version, the lowercased
/// "publisher.name" and that version.
pub open spec fn marketplace_entries_spec(body: Seq<char>) -> Seq<(Seq<char>, Seq<char>)> {
    match json_array_len_spec(body, "/results/0/extensions"@) {
        Some(n) => market_rows(body, n as nat),
        None => Seq::empty(),
    }
}

/// The JSON pointer of the `i`-th extension of the answer, followed by `rest`.
pub open spec fn ext_pointer(i: nat, rest: Seq<char>) -> Seq<char> {
    "/results/0/extensions/"@ + decimal_spec(i) + rest
}

/// The entries of the first `n` results.
pub open spec fn market_rows(body: Seq<char>, n: nat) -> Seq<(Seq<char>, Seq<char>)>
    decreases n,
{
    if n == 0 {
        Seq::empty()
    } else {
        let r = market_rows(body, (n - 1) as nat);
        let i = (n - 1) as nat;
        match (
            json_str_spec(body, ext_pointer(i, "/publisher/publisherName"@)),
            json_str_spec(body, ext_pointer(i, "/extensionName"@)),
            json_str_spec(body, ext_pointer(i, "/versions/0/version"@)),
        ) {
            (Some(p), Some(nm), Some(v)) => r.push((lowercase_spec(p + "."@ + nm), v)),
            _ => r,
        }
    }
}

/// A latest version the marketplace reported.
pub struct LatestExt {
    pub key: String,
    pub version: String,
}

pub open spec fn latest_views(v: Seq<LatestExt>) -> Seq<(Seq<char>, Seq<char>)> {
    Seq::new(v.len(), |i: int| (v[i].key@, v[i].version@))
}

fn ext_pointer_string(i: usize, rest: &str) -> (s: String)
    ensures
        s@ == ext_pointer(i as nat, rest@),
{
    let a = crate::text::concat("/results/0/extensions/", u64_to_string(i as u64).as_str());
    crate::text::concat(a.as_str(), rest)
}

/// Reads the marketplace's answer (`body` of a successful extension query).
pub fn marketplace_entries(body: &str) -> (r: Vec<LatestExt>)
    ensures
        latest_views(r@) == marketplace_entries_spec(body@),
{
    let mut r: Vec<LatestExt> = Vec::new();
    match json_array_len(body, "/results/0/extensions") {
        None => {
            assert(latest_views(r@) =~= marketplace_entries_spec(body@));
            r
        },
        Some(n) => {
            let mut i: usize = 0;
            assert(latest_views(r@) =~= market_rows(body@, 0));
            while i < n
                invariant
                    i <= n,
                    latest_views(r@) == market_rows(body@, i as nat),
                decreases n - i,
            {
                let p = json_str(body, ext_pointer_string(i, "/publisher/publisherName").as_str());
                let nm = json_str(body, ext_pointer_string(i, "/extensionName").as_str());
                let v = json_str(body, ext_pointer_string(i, "/versions/0/version").as_str());
                match (p, nm, v) {
                    (Some(p), Some(nm), Some(v)) => {
                        let a = crate::text::concat(p.as_str(), ".");
                        let full = crate::text::concat(a.as_str(), nm.as_str());
                        let e = LatestExt { key: to_lowercase(full.as_str()), version: v };
                        let ghost old_r = r@;
                        r.push(e);
                        assert(latest_views(r@) =~= latest_views(old_r).push((e.key@, e.version@)));
                    },
                    _ => {},
                }
                i = i + 1;
            }
            r
        },
    }
}

/// The latest version recorded for the lowercased id `key` (the last entry
/// for it), if any.
pub fn lookup_latest(v: &Vec<LatestExt>, key: &str) -> (r: Option<String>)
    ensures
        opt_view(r) == lookup_last(latest_views(v@), key@),
{
    let mut j: usize = v.len();
    assert(latest_views(v@).take(j as int) =~= latest_views(v@));
    while j > 0
        invariant
            j <= v.len(),
            lookup_last(latest_views(v@), key@) == lookup_last(
                latest_views(v@).take(j as int),
                key@,
            ),
        decreases j,
    {
        let ghost t = latest_views(v@).take(j as int);
        assert(t.last() == (v[j - 1].key@, v[j - 1].version@));
        assert(t.drop_last() =~= latest_views(v@).take(j - 1));
        if crate::text::str_eq(v[j - 1].key.as_str(), key) {
            return Some(v[j - 1].version.clone());
        }
        j = j - 1;
    }
    None
}


/// The wanted extensions that are installed: only these are looked up in the
/// marketplace (there is nothing to compare against otherwise).
pub open spec fn query_ids_spec(
    wanted: Seq<Seq<char>>,
    installed: Seq<(Seq<char>, Option<Seq<char>>)>,
) -> Seq<Seq<char>>
    decreases wanted.len(),
{
    if wanted.len() == 0 {
        Seq::empty()
    } else {
        let r = query_ids_spec(wanted.drop_last(), installed);
        if lookup_last(installed, lowercase_spec(wanted.last())) is Some {
            r.push(wanted.last())
        } else {
            r
        }
    }
}

/// The extensions of `cfg` to look up in the marketplace, given the listing
/// of `code --list-extensions --show-versions`.
pub fn ext_query_ids(cfg: &Config, listing: &Option<String>) -> (r: Vec<String>)
    ensures
        string_views(r@) == query_ids_spec(
            effective_list_spec(*cfg),
            installed_exts_spec(*listing),
        ),
{
    let wanted = effective_list(cfg);
    let installed = installed_exts(listing);
    let mut r: Vec<String> = Vec::new();
    let mut i: usize = 0;
    while i < wanted.len()
        invariant
            i <= wanted.len(),
            installed_views(installed@) == installed_exts_spec(*listing),
            string_views(wanted@) == effective_list_spec(*cfg),
            string_views(r@) == query_ids_spec(
                string_views(wanted@).take(i as int),
                installed_views(installed@),
            ),
        decreases wanted.len() - i,
    {
        let ghost t = string_views(wanted@).take(i + 1);
        assert(t.drop_last() =~= string_views(wanted@).take(i as int));
        assert(t.last() == wanted[i as int]@);
        let key = to_lowercase(wanted[i].as_str());
        if lookup_installed(&installed, key.as_str()).is_some() {
            let c = wanted[i].clone();
            let ghost old_r = r@;
            r.push(c);
            assert(string_views(r@) =~= string_views(old_r).push(c@));
        }
        i = i + 1;
    }
    assert(string_views(wanted@).take(i as int) =~= string_views(wanted@));
    r
}

/// A hexadecimal digit, lowercase.
pub open spec fn hex_digit(d: nat) -> char {
    if d < 10 {
        ((d + 48) as u8) as char
    } else {
        ((d + 87) as u8) as char
    }
}

/// The JSON text of one character inside a string literal: the quote and
/// the backslash escaped, the control characters as `\b`, `\t`, `\n`,
/// `\f`, `\r` or `\u00XX`, every other character as itself.
pub open spec fn json_escape_char(c: char) -> Seq<char> {
    if c == '"' {
        seq!['\\', '"']
    } else if c == '\\' {
        seq!['\\', '\\']
    } else if c == '\u{8}' {
        seq!['\\', 'b']
    } else if c == '\t' {
        seq!['\\', 't']
    } else if c == '\n' {
        seq!['\\', 'n']
    } else if c == '\u{c}' {
        seq!['\\', 'f']
    } else if c == '\r' {
        seq!['\\', 'r']
    } else if (c as u32) < 32 {
        seq!['\\', 'u', '0', '0', hex_digit((c as u32 / 16) as nat), hex_digit((c as u32 % 16) as nat)]
    } else {
        seq![c]
    }
}

/// The JSON text of a string's characters inside a string literal.
pub open spec fn json_escape(s: Seq<char>) -> Seq<char>
    decreases s.len(),
{
    if s.len() == 0 {
        Seq::empty()
    } else {
        json_escape(s.drop_last()) + json_escape_char(s.last())
    }
}

fn hex_char(d: u32) -> (c: char)
    requires
        d < 16,
    ensures
        c == hex_digit(d as nat),
{
    let b: u8 = d as u8;
    if b < 10 {
        (b + 48) as char
    } else {
        (b + 87) as char
    }
}

fn push_escaped(s: &mut String, c: char)
    ensures
        final(s)@ == old(s)@ + json_escape_char(c),
{
    let n: u32 = c as u32;
    if c == '"' {
        s.push('\\');
        s.push('"');
    } else if c == '\\' {
        s.push('\\');
        s.push('\\');
    } else if c == '\u{8}' {
        s.push('\\');
        s.push('b');
    } else if c == '\t' {
        s.push('\\');
        s.push('t');
    } else if c == '\n' {
        s.push('\\');
        s.push('n');
    } else if c == '\u{c}' {
        s.push('\\');
        s.push('f');
    } else if c == '\r' {
        s.push('\\');
        s.push('r');
    } else if n < 32 {
        s.push('\\');
        s.push('u');
        s.push('0');
        s.push('0');
        s.push(hex_char(n / 16));
        s.push(hex_char(n % 16));
    } else {
        s.push(c);
    }
    assert(s@ =~= old(s)@ + json_escape_char(c));
}

/// The marketplace criteria for the ids, after the one for VSCode itself.
pub open spec fn criteria_spec(ids: Seq<Seq<char>>) -> Seq<char>
    decreases ids.len(),
{
    if ids.len() == 0 {
        Seq::empty()
    } else {
        criteria_spec(ids.drop_last()) + ",{\"filterType\":7,\"value\":\""@ + json_escape(ids.last())
            + "\"}"@
    }
}

/// The body of the marketplace query for the latest versions of the
/// extensions `ids`: one criterion for VSCode and one per id, one page of
/// `ids.len()` results, and the flags asking for versions.
pub open spec fn marketplace_query_spec(ids: Seq<Seq<char>>) -> Seq<char> {
    "{\"filters\":[{\"criteria\":[{\"filterType\":8,\"value\":\"Microsoft.VisualStudio.Code\"}"@
        + criteria_spec(ids) + "],\"pageNumber\":1,\"pageSize\":"@ + decimal_spec(ids.len())
        + "}],\"flags\":914}"@
}

/// The JSON body of the marketplace query for the extensions `ids`.
pub fn marketplace_query(ids: &Vec<String>) -> (s: String)
    requires
        ids.len() <= u64::MAX,
    ensures
        s@ == marketplace_query_spec(string_views(ids@)),
{
    let ghost es = string_views(ids@);
    let mut s = "{\"filters\":[{\"criteria\":[{\"filterType\":8,\"value\":\"Microsoft.VisualStudio.Code\"}".to_string();
    let ghost head = s@;
    let mut i: usize = 0;
    assert(es.take(0) =~= Seq::<Seq<char>>::empty());
    while i < ids.len()
        invariant
            i <= ids.len(),
            es == string_views(ids@),
            s@ == head + criteria_spec(es.take(i as int)),
        decreases ids.len() - i,
    {
        assert(es.take(i + 1).drop_last() =~= es.take(i as int));
        assert(es.take(i + 1).last() == ids[i as int]@);
        s.append(",{\"filterType\":7,\"value\":\"");
        let cs = chars_of(ids[i].as_str());
        let ghost before = s@;
        let mut k: usize = 0;
        while k < cs.len()
            invariant
                k <= cs.len(),
                s@ == before + json_escape(cs@.take(k as int)),
            decreases cs.len() - k,
        {
            assert(cs@.take(k + 1).drop_last() =~= cs@.take(k as int));
            push_escaped(&mut s, cs[k]);
            k = k + 1;
        }
        assert(cs@.take(k as int) =~= cs@);
        s.append("\"}");
        i = i + 1;
    }
    assert(es.take(i as int) =~= es);
    s.append("],\"pageNumber\":1,\"pageSize\":");
    let n = u64_to_string(ids.len() as u64);
    s.append(n.as_str());
    s.append("}],\"flags\":914}");
    s
}

/// An HTTP request the status lookups make: the method is GET unless a
/// `body` is sent (then POST, as JSON), with the `Accept` header when given,
/// within `timeout_secs` seconds.
#[derive(Debug, Clone, PartialEq, Eq)]
pub struct Lookup {
    pub url: String,
    pub accept: Option<String>,
    pub body: Option<String>,
    pub timeout_secs: u64,
}

/// The lookup of the newest uv release on GitHub.
pub fn uv_latest_lookup() -> (l: Lookup)
    ensures
        l.url@ == "https://api.github.com/repos/astral-sh/uv/releases/latest"@,
        opt_view(l.accept) == Some("application/vnd.github+json"@),
        l.body is None,
        l.timeout_secs == 6,
{
    Lookup {
        url: "https://api.github.com/repos/astral-sh/uv/releases/latest".to_string(),
        accept: Some("application/vnd.github+json".to_string()),
        body: None,
        timeout_secs: 6,
    }
}

/// The update API's URL of the newest stable VSCode for a platform.
pub open spec fn vscode_latest_url_spec(os: Os, arch: Seq<char>) -> Seq<char> {
    "https://update.code.visualstudio.com/api/update/"@ + vscode_update_platform_spec(os, arch)
        + "/stable/latest"@
}

/// The lookup of the newest stable VSCode for the system `os` and the
/// architecture `arch`.
pub fn vscode_latest_lookup(os: Os, arch: &str) -> (l: Lookup)
    ensures
        l.url@ == vscode_latest_url_spec(os, arch@),
        l.accept is None,
        l.body is None,
        l.timeout_secs == 8,
{
    let a = crate::text::concat("https://update.code.visualstudio.com/api/update/", vscode_update_platform(os, arch));
    Lookup { url: crate::text::concat(a.as_str(), "/stable/latest"), accept: None, body: None, timeout_secs: 8 }
}

/// The marketplace lookup of the latest versions of the extensions `ids`.
pub fn marketplace_lookup(ids: &Vec<String>) -> (l: Lookup)
    requires
        ids.len() <= u64::MAX,
    ensures
        l.url@ == "https://marketplace.visualstudio.com/_apis/public/gallery/extensionquery"@,
        opt_view(l.accept) == Some("application/json;api-version=3.0-preview.1"@),
        opt_view(l.body) == Some(marketplace_query_spec(string_views(ids@))),
        l.timeout_secs == 10,
{
    Lookup {
        url: "https://marketplace.visualstudio.com/_apis/public/gallery/extensionquery".to_string(),
        accept: Some("application/json;api-version=3.0-preview.1".to_string()),
        body: Some(marketplace_query(ids)),
        timeout_secs: 10,
    }
}

/// The marketplace's latest versions that count: only when asked for, and
/// only when some wanted extension is installed.
pub open spec fn latest_entries_spec(
    cfg: Config,
    listing: Option<String>,
    check_latest: bool,
    body: Option<String>,
) -> Seq<(Seq<char>, Seq<char>)> {
    if check_latest && query_ids_spec(effective_list_spec(cfg), installed_exts_spec(listing)).len()
        > 0 {
        match body {
            Some(b) => marketplace_entries_spec(b@),
            None => Seq::empty(),
        }
    } else {
        Seq::empty()
    }
}

/// The status of the wanted extension `id`, whose lowercased id is `key`.
pub open spec fn ext_status_key_holds(
    e: ExtStatus,
    id: Seq<char>,
    key: Seq<char>,
    installed: Seq<(Seq<char>, Option<Seq<char>>)>,
    latest: Seq<(Seq<char>, Seq<char>)>,
) -> bool {
    let version = match lookup_last(installed, key) {
        Some(v) => v,
        None => None,
    };
    &&& e.id@ == id
    &&& e.installed == (lookup_last(installed, key) is Some)
    &&& opt_view(e.version) == version
    &&& opt_view(e.latest) == lookup_last(latest, key)
    &&& e.upgrade_available == upgrade_spec(version, lookup_last(latest, key))
}

/// The status of the wanted extension `id`.
pub open spec fn ext_status_holds(
    e: ExtStatus,
    id: Seq<char>,
    installed: Seq<(Seq<char>, Option<Seq<char>>)>,
    latest: Seq<(Seq<char>, Seq<char>)>,
) -> bool {
    ext_status_key_holds(e, id, lowercase_spec(id), installed, latest)
}

/// The status of the wanted extension `id`, whose lowercased id is `key`,
/// from the installed extensions and the marketplace's latest versions.
pub fn ext_status_for(
    id: &String,
    key: &str,
    installed: &Vec<InstalledExt>,
    latest: &Vec<LatestExt>,
) -> (e: ExtStatus)
    ensures
        ext_status_key_holds(e, id@, key@, installed_views(installed@), latest_views(latest@)),
{
    let found = lookup_installed(installed, key);
    let installed_now = found.is_some();
    let version: Option<String> = match found {
        Some(v) => v,
        None => None,
    };
    let latest_v = lookup_latest(latest, key);
    let upgrade_available = upgrade(&version, &latest_v);
    ExtStatus { id: id.clone(), installed: installed_now, version, latest: latest_v, upgrade_available }
}

/// The extensions part of the status: one entry per wanted extension, in order.
pub open spec fn exts_hold(
    cfg: Config,
    listing: Option<String>,
    check_latest: bool,
    body: Option<String>,
    exts: Seq<ExtStatus>,
) -> bool {
    let wanted = effective_list_spec(cfg);
    &&& exts.len() == wanted.len()
    &&& forall|i: int|
        0 <= i < exts.len() ==> ext_status_holds(
            #[trigger] exts[i],
            wanted[i],
            installed_exts_spec(listing),
            latest_entries_spec(cfg, listing, check_latest, body),
        )
}

pub fn detect_extensions(
    cfg: &Config,
    listing: &Option<String>,
    check_latest: bool,
    body: &Option<String>,
) -> (r: Vec<ExtStatus>)
    ensures
        exts_hold(*cfg, *listing, check_latest, *body, r@),
{
    let wanted = effective_list(cfg);
    let installed = installed_exts(listing);
    let ids = ext_query_ids(cfg, listing);
    let latest: Vec<LatestExt> = if check_latest && ids.len() > 0 {
        match body {
            Some(b) => marketplace_entries(b.as_str()),
            None => {
                let v: Vec<LatestExt> = Vec::new();
                assert(latest_views(v@) =~= Seq::<(Seq<char>, Seq<char>)>::empty());
                v
            },
        }
    } else {
        let v: Vec<LatestExt> = Vec::new();
        assert(latest_views(v@) =~= Seq::<(Seq<char>, Seq<char>)>::empty());
        v
    };
    let ghost lv = latest_entries_spec(*cfg, *listing, check_latest, *body);
    assert(latest_views(latest@) == lv);
    let mut r: Vec<ExtStatus> = Vec::new();
    let mut i: usize = 0;
    while i < wanted.len()
        invariant
            i <= wanted.len(),
            r.len() == i,
            installed_views(installed@) == installed_exts_spec(*listing),
            string_views(wanted@) == effective_list_spec(*cfg),
            latest_views(latest@) == lv,
            lv == latest_entries_spec(*cfg, *listing, check_latest, *body),
            forall|m: int|
                0 <= m < i ==> ext_status_holds(
                    #[trigger] r@[m],
                    string_views(wanted@)[m],
                    installed_exts_spec(*listing),
                    lv,
                ),
        decreases wanted.len() - i,
    {
        assert(wanted[i as int]@ == string_views(wanted@)[i as int]);
        let key = to_lowercase(wanted[i].as_str());
        let e = ext_status_for(&wanted[i], key.as_str(), &installed, &latest);
        assert(ext_status_holds(e, string_views(wanted@)[i as int], installed_exts_spec(*listing), lv));
        r.push(e);
        i = i + 1;
    }
    r
}

/// The whole status, read from what the program observed.
pub open spec fn status_holds(cfg: Config, check_latest: bool, p: Probe, st: EnvStatus) -> bool {
    &&& uv_tool_holds(p, check_latest, st.uv)
    &&& python_status_holds(cfg, p.python_listing, st.python)
    &&& vscode_tool_holds(p, check_latest, st.vscode)
    &&& exts_hold(cfg, p.extensions_listing, check_latest, p.marketplace_body, st.extensions@)
    &&& match p.path {
        Some(ps) => st.path.configured == ps.configured && string_views(
            st.path.pending_targets@,
        ) == string_views(ps.pending_targets@),
        None => !st.path.configured && st.path.pending_targets@.len() == 0,
    }
}

/// Detect the state of all components from what the program observed.
/// `check_latest` enables the best-effort lookups of the newest versions
/// to flag upgrades.
pub fn detect(cfg: &Config, check_latest: bool, p: &Probe) -> (st: EnvStatus)
    ensures
        status_holds(*cfg, check_latest, *p, st),
{
    let path = match &p.path {
        Some(ps) => PathStatus {
            configured: ps.configured,
            pending_targets: crate::config::clone_strings(&ps.pending_targets),
        },
        None => PathStatus { configured: false, pending_targets: Vec::new() },
    };
    EnvStatus {
        uv: detect_uv(p, check_latest),
        python: detect_python(cfg, &p.python_listing),
        vscode: detect_vscode(p, check_latest),
        extensions: detect_extensions(cfg, &p.extensions_listing, check_latest, &p.marketplace_body),
        path,
    }
}


/// Each version is at least as new as the next one.
pub open spec fn newest_first(s: Seq<Seq<char>>) -> bool {
    forall|i: int|
        0 <= i < s.len() - 1 ==> !key_lt(
            version_key_spec(#[trigger] s[i]),
            version_key_spec(s[i + 1]),
        )
}

/// No version equals the next one.
pub open spec fn no_repeated_neighbours(s: Seq<Seq<char>>) -> bool {
    forall|i: int| 0 <= i < s.len() - 1 ==> #[trigger] s[i] != s[i + 1]
}

proof fn lemma_insert_shape(s: Seq<Seq<char>>, x: Seq<char>)
    ensures
        insert_newest_first(s, x).len() == s.len() + 1,
        insert_newest_first(s, x).last() == x || (s.len() > 0 && insert_newest_first(s, x).last()
            == s.last() && key_lt(version_key_spec(s.last()), version_key_spec(x))),
    decreases s.len(),
{
    if s.len() > 0 && key_lt(version_key_spec(s.last()), version_key_spec(x)) {
        lemma_insert_shape(s.drop_last(), x);
    }
}

proof fn lemma_insert_newest_first(s: Seq<Seq<char>>, x: Seq<char>)
    requires
        newest_first(s),
    ensures
        newest_first(insert_newest_first(s, x)),
    decreases s.len(),
{
    let r = insert_newest_first(s, x);
    if s.len() == 0 {
    } else if key_lt(version_key_spec(s.last()), version_key_spec(x)) {
        let d = s.drop_last();
        assert(newest_first(d)) by {
            assert forall|i: int| 0 <= i < d.len() - 1 implies !key_lt(
                version_key_spec(#[trigger] d[i]),
                version_key_spec(d[i + 1]),
            ) by {
                assert(d[i] == s[i] && d[i + 1] == s[i + 1]);
            }
        }
        lemma_insert_newest_first(d, x);
        lemma_insert_shape(d, x);
        let inner = insert_newest_first(d, x);
        assert(r == inner.push(s.last()));
        assert(!key_lt(version_key_spec(inner.last()), version_key_spec(s.last()))) by {
            if inner.last() == x {
                if key_lt(version_key_spec(x), version_key_spec(s.last())) {
                    crate::version::lemma_key_lt_transitive(
                        version_key_spec(x),
                        version_key_spec(s.last()),
                        version_key_spec(x),
                    );
                    crate::version::lemma_key_lt_irreflexive(version_key_spec(x));
                }
            } else {
                assert(inner.last() == d.last());
                assert(d.last() == s[s.len() - 2]);
            }
        }
        assert forall|i: int| 0 <= i < r.len() - 1 implies !key_lt(
            version_key_spec(#[trigger] r[i]),
            version_key_spec(r[i + 1]),
        ) by {
            if i < r.len() - 2 {
                assert(r[i] == inner[i] && r[i + 1] == inner[i + 1]);
            } else {
                assert(r[i] == inner.last());
            }
        }
    } else {
        assert forall|i: int| 0 <= i < r.len() - 1 implies !key_lt(
            version_key_spec(#[trigger] r[i]),
            version_key_spec(r[i + 1]),
        ) by {
            if i < s.len() - 1 {
                assert(r[i] == s[i] && r[i + 1] == s[i + 1]);
            }
        }
    }
}

proof fn lemma_sort_newest_first(s: Seq<Seq<char>>)
    ensures
        newest_first(sort_newest_first(s)),
    decreases s.len(),
{
    if s.len() > 0 {
        lemma_sort_newest_first(s.drop_last());
        lemma_insert_newest_first(sort_newest_first(s.drop_last()), s.last());
    }
}

proof fn lemma_dedup_last(s: Seq<Seq<char>>)
    requires
        s.len() > 0,
    ensures
        dedup_spec(s).len() > 0,
        dedup_spec(s).last() == s.last(),
    decreases s.len(),
{
    if s.len() > 1 {
        lemma_dedup_last(s.drop_last());
    }
}

proof fn lemma_dedup(s: Seq<Seq<char>>)
    requires
        newest_first(s),
    ensures
        newest_first(dedup_spec(s)),
        no_repeated_neighbours(dedup_spec(s)),
    decreases s.len(),
{
    if s.len() > 1 {
        let d = s.drop_last();
        assert(newest_first(d)) by {
            assert forall|i: int| 0 <= i < d.len() - 1 implies !key_lt(
                version_key_spec(#[trigger] d[i]),
                version_key_spec(d[i + 1]),
            ) by {
                assert(d[i] == s[i] && d[i + 1] == s[i + 1]);
            }
        }
        lemma_dedup(d);
        lemma_dedup_last(d);
        let r = dedup_spec(s);
        let inner = dedup_spec(d);
        if s.last() != s[s.len() - 2] {
            assert(r == inner.push(s.last()));
            assert(inner.last() == s[s.len() - 2]);
            assert forall|i: int| 0 <= i < r.len() - 1 implies !key_lt(
                version_key_spec(#[trigger] r[i]),
                version_key_spec(r[i + 1]),
            ) && r[i] != r[i + 1] by {
                if i < r.len() - 2 {
                    assert(r[i] == inner[i] && r[i + 1] == inner[i + 1]);
                } else {
                    assert(r[i] == inner.last());
                }
            }
        }
    }
}

/// The installed Python versions come newest first, with no version twice
/// in a row.
pub proof fn installed_pythons_newest_first(listing: Seq<char>)
    ensures
        newest_first(installed_pythons_spec(listing)),
        no_repeated_neighbours(installed_pythons_spec(listing)),
{
    let v = row_versions(lines_spec(listing));
    lemma_sort_newest_first(v);
    lemma_dedup(sort_newest_first(v));
}


proof fn lemma_insert_same_set(s: Seq<Seq<char>>, x: Seq<char>)
    ensures
        insert_newest_first(s, x).to_set() == s.to_set().insert(x),
    decreases s.len(),
{
    if s.len() == 0 {
        Seq::<Seq<char>>::empty().lemma_push_to_set_commute(x);
        assert(seq![x] =~= Seq::<Seq<char>>::empty().push(x));
    } else if key_lt(version_key_spec(s.last()), version_key_spec(x)) {
        let d = s.drop_last();
        lemma_insert_same_set(d, x);
        insert_newest_first(d, x).lemma_push_to_set_commute(s.last());
        d.lemma_push_to_set_commute(s.last());
        assert(d.push(s.last()) =~= s);
        assert(s.to_set().insert(x) =~= d.to_set().insert(x).insert(s.last()));
    } else {
        s.lemma_push_to_set_commute(x);
    }
}

proof fn lemma_sort_same_set(s: Seq<Seq<char>>)
    ensures
        sort_newest_first(s).to_set() == s.to_set(),
    decreases s.len(),
{
    if s.len() == 0 {
        assert(sort_newest_first(s) =~= s);
    } else {
        let d = s.drop_last();
        lemma_sort_same_set(d);
        lemma_insert_same_set(sort_newest_first(d), s.last());
        d.lemma_push_to_set_commute(s.last());
        assert(d.push(s.last()) =~= s);
    }
}

proof fn lemma_dedup_same_set(s: Seq<Seq<char>>)
    ensures
        dedup_spec(s).to_set() == s.to_set(),
    decreases s.len(),
{
    if s.len() > 1 {
        let d = s.drop_last();
        lemma_dedup_same_set(d);
        d.lemma_push_to_set_commute(s.last());
        assert(d.push(s.last()) =~= s);
        if s.last() == s[s.len() - 2] {
            assert(d[d.len() - 1] == s.last());
            assert(d.to_set().contains(s.last()));
            assert(d.to_set().insert(s.last()) =~= d.to_set());
        } else {
            dedup_spec(d).lemma_push_to_set_commute(s.last());
        }
    }
}

/// The installed Python versions are exactly the versions the listing's
/// rows name, each kept (repeats aside).
pub proof fn installed_pythons_same_versions(listing: Seq<char>)
    ensures
        installed_pythons_spec(listing).to_set() == row_versions(lines_spec(listing)).to_set(),
{
    let v = row_versions(lines_spec(listing));
    lemma_sort_same_set(v);
    lemma_dedup_same_set(sort_newest_first(v));
}

} // verus!
