//! PATH configuration: which directories go on PATH, which shell profiles or
//! registry entries change, and the text written to them.

use vstd::prelude::*;

use crate::config::{contains_string, string_views, Config};
use crate::error::Error;
use crate::platform::{
    bin_dir_for, bin_dir_spec, data_local_dir, home_dir, join, join_spec, no_home_message, Os,
};
use crate::runner::{command_is, pair_views, push_str, CommandLine};
use crate::text::{
    chars_of, concat, contains, contains_spec, lowercase_spec, split, split_spec, str_eq,
    string_from, to_lowercase, trim, trim_spec, views, Sep,
};

verus! {

broadcast use vstd::string::group_string_axioms;

/// The first line of the block written to shell profiles.
pub open spec fn marker_begin() -> Seq<char> {
    "# >>> pydev >>>"@
}

/// The last line of the block written to shell profiles.
pub open spec fn marker_end() -> Seq<char> {
    "# <<< pydev <<<"@
}

/// What the PATH update will change, for display before applying.
#[derive(Debug, Clone, PartialEq, Eq)]
pub struct PathPreview {
    /// Directories that will be added to PATH.
    pub entries: Vec<String>,
    /// Human-readable targets that will be modified (profile files or registry).
    pub targets: Vec<String>,
}

/// Current state of the PATH configuration.
#[derive(Debug, Clone, PartialEq, Eq)]
pub struct PathStatus {
    /// True when every required entry/target is already in place.
    pub configured: bool,
    /// Targets (files / registry) that still need updating.
    pub pending_targets: Vec<String>,
}

/// The syntax of a shell profile.
#[derive(Debug, Clone, Copy, PartialEq, Eq, Structural)]
pub enum ShellKind {
    Posix,
    Fish,
}

/// The directory of the VSCode launcher on Windows, under the local
/// application data `local`.
pub open spec fn vscode_bin_spec(local: Seq<char>) -> Seq<char> {
    join_spec(
        Os::Windows,
        join_spec(Os::Windows, join_spec(Os::Windows, local, "Programs"@), "Microsoft VS Code"@),
        "bin"@,
    )
}

/// Directories that must be on PATH for the installed tools to be found:
/// the user bin directory, and on Windows the VSCode launcher directory when
/// the local application data is known.
pub open spec fn path_entries_spec(os: Os, home: Seq<char>, local: Option<Seq<char>>) -> Seq<Seq<char>> {
    let first = seq![bin_dir_spec(os, home)];
    match local {
        Some(l) => if os == Os::Windows {
            first.push(vscode_bin_spec(l))
        } else {
            first
        },
        None => first,
    }
}

/// The PATH entries for the home directory `home` and the local application
/// data `local` the system reported (used on Windows only).
pub fn entries_for(os: Os, home: &str, local: Option<String>) -> (v: Vec<String>)
    ensures
        string_views(v@) == path_entries_spec(os, home@, crate::config::opt_view(local)),
{
    let bin = bin_dir_for(os, home);
    let mut entries: Vec<String> = Vec::new();
    push_str(&mut entries, bin.as_str());
    if os == Os::Windows {
        if let Some(l) = local {
            let a = join(Os::Windows, l.as_str(), "Programs");
            let b = join(Os::Windows, a.as_str(), "Microsoft VS Code");
            let c = join(Os::Windows, b.as_str(), "bin");
            push_str(&mut entries, c.as_str());
        }
    }
    assert(string_views(entries@) =~= path_entries_spec(os, home@, crate::config::opt_view(local)));
    entries
}

/// The local application data directory, read on Windows only.
fn local_data(os: Os) -> (r: Option<String>)
    ensures
        os != Os::Windows ==> r is None,
{
    if os == Os::Windows {
        data_local_dir()
    } else {
        None
    }
}

pub fn path_entries(os: Os) -> (r: Result<Vec<String>, Error>)
    ensures
        match r {
            Ok(v) => exists|h: Seq<char>, l: Option<Seq<char>>|
                string_views(v@) == #[trigger] path_entries_spec(os, h, l),
            Err(e) => e matches Error::Msg(m) && m@ == no_home_message(),
        },
{
    let home = home_dir()?;
    let local = local_data(os);
    let ghost l = crate::config::opt_view(local);
    let entries = entries_for(os, home.as_str(), local);
    let r: Result<Vec<String>, Error> = Ok(entries);
    assert(r matches Ok(v) && string_views(v@) == path_entries_spec(os, home@, l));
    r
}

/// The profile file and syntax of a shell key `k`, trimmed and lowercased
/// ("bash"/"bashrc", "zsh"/"zshrc", "profile", "fish"), under the home
/// directory `home`.
pub open spec fn key_profile_spec(os: Os, k: Seq<char>, home: Seq<char>) -> Option<(Seq<char>, ShellKind)> {
    if k == "bash"@ || k == "bashrc"@ {
        Some((join_spec(os, home, ".bashrc"@), ShellKind::Posix))
    } else if k == "zsh"@ || k == "zshrc"@ {
        Some((join_spec(os, home, ".zshrc"@), ShellKind::Posix))
    } else if k == "profile"@ {
        Some((join_spec(os, home, ".profile"@), ShellKind::Posix))
    } else if k == "fish"@ {
        Some((join_spec(os, join_spec(os, join_spec(os, home, ".config"@), "fish"@), "config.fish"@), ShellKind::Fish))
    } else {
        None
    }
}

/// The profile file and syntax of a shell key from the configuration (any of
/// "bash"/"bashrc", "zsh"/"zshrc", "profile", "fish", trimmed and in any
/// case), under the home directory `home`.
pub open spec fn shell_profile_spec(os: Os, shell: Seq<char>, home: Seq<char>) -> Option<(Seq<char>, ShellKind)> {
    key_profile_spec(os, lowercase_spec(trim_spec(shell)), home)
}

/// The profile of the shell key `k`, already trimmed and lowercased, under
/// the home directory `home`.
pub fn key_profile(os: Os, k: &str, home: &str) -> (r: Option<(String, ShellKind)>)
    ensures
        match r {
            Some((f, kd)) => key_profile_spec(os, k@, home@) == Some((f@, kd)),
            None => key_profile_spec(os, k@, home@) is None,
        },
{
    if str_eq(k, "bash") || str_eq(k, "bashrc") {
        Some((join(os, home, ".bashrc"), ShellKind::Posix))
    } else if str_eq(k, "zsh") || str_eq(k, "zshrc") {
        Some((join(os, home, ".zshrc"), ShellKind::Posix))
    } else if str_eq(k, "profile") {
        Some((join(os, home, ".profile"), ShellKind::Posix))
    } else if str_eq(k, "fish") {
        let a = join(os, home, ".config");
        let b = join(os, a.as_str(), "fish");
        Some((join(os, b.as_str(), "config.fish"), ShellKind::Fish))
    } else {
        None
    }
}

/// The profile of a shell key under the home directory `home`.
pub fn shell_profile(os: Os, shell: &str, home: &str) -> (r: Option<(String, ShellKind)>)
    ensures
        match r {
            Some((f, k)) => shell_profile_spec(os, shell@, home@) == Some((f@, k)),
            None => shell_profile_spec(os, shell@, home@) is None,
        },
{
    let t = string_from(&trim(&chars_of(shell)));
    let key = to_lowercase(t.as_str());
    key_profile(os, key.as_str(), home)
}

/// The profile of a shell key, when the home directory is known.
pub open spec fn profile_for(os: Os, shell: Seq<char>, home: Option<Seq<char>>) -> Option<(Seq<char>, ShellKind)> {
    match home {
        Some(h) => shell_profile_spec(os, shell, h),
        None => None,
    }
}

/// Map a shell key from config to its profile file and syntax; `None` for an
/// unknown shell or without a home directory.
pub fn resolve_shell(os: Os, shell: &str) -> (r: Option<(String, ShellKind)>)
    ensures
        r matches Some((f, k)) ==> exists|h: Option<Seq<char>>|
            #[trigger] profile_for(os, shell@, h) == Some((f@, k)),
{
    let home = match home_dir() {
        Ok(h) => h,
        Err(_) => {
            return None;
        },
    };
    let r = shell_profile(os, shell, home.as_str());
    assert(r matches Some((f, k)) ==> profile_for(os, shell@, Some(home@)) == Some((f@, k)));
    r
}

/// A configured shell: its profile and syntax, or the unknown key.
#[derive(Debug, Clone, PartialEq, Eq)]
pub enum ShellTarget {
    Profile(String, ShellKind),
    Unknown(String),
}

/// The configured shells, in order, resolved with the home directory `home`.
pub open spec fn targets_hold(os: Os, cfg: Config, home: Option<Seq<char>>, t: Seq<ShellTarget>) -> bool {
    &&& t.len() == cfg.path.shells@.len()
    &&& forall|i: int|
        0 <= i < t.len() ==> match #[trigger] t[i] {
            ShellTarget::Profile(f, k) => profile_for(os, cfg.path.shells@[i]@, home) == Some(
                (f@, k),
            ),
            ShellTarget::Unknown(s) => s@ == cfg.path.shells@[i]@ && profile_for(
                os,
                cfg.path.shells@[i]@,
                home,
            ) is None,
        }
}

/// The configured shells resolved to their profiles (all unknown without a
/// home directory).
pub fn shell_targets(os: Os, cfg: &Config) -> (r: Vec<ShellTarget>)
    ensures
        exists|h: Option<Seq<char>>| #[trigger] targets_hold(os, *cfg, h, r@),
{
    let home: Option<String> = match home_dir() {
        Ok(h) => Some(h),
        Err(_) => None,
    };
    let r = shell_targets_for(os, cfg, home);
    assert(targets_hold(os, *cfg, crate::config::opt_view(home), r@));
    r
}

/// The configured shells resolved with the home directory `home` the system
/// reported (`None` when it reported none).
pub fn shell_targets_for(os: Os, cfg: &Config, home: Option<String>) -> (r: Vec<ShellTarget>)
    ensures
        targets_hold(os, *cfg, crate::config::opt_view(home), r@),
{
    let ghost hv: Option<Seq<char>> = crate::config::opt_view(home);
    let mut r: Vec<ShellTarget> = Vec::new();
    let shells = &cfg.path.shells;
    let mut i: usize = 0;
    while i < shells.len()
        invariant
            i <= shells.len(),
            shells == &cfg.path.shells,
            hv == crate::config::opt_view(home),
            r.len() == i,
            forall|k: int|
                0 <= k < i ==> match #[trigger] r@[k] {
                    ShellTarget::Profile(f, kd) => profile_for(os, cfg.path.shells@[k]@, hv)
                        == Some((f@, kd)),
                    ShellTarget::Unknown(s) => s@ == cfg.path.shells@[k]@ && profile_for(
                        os,
                        cfg.path.shells@[k]@,
                        hv,
                    ) is None,
                },
        decreases shells.len() - i,
    {
        let p = match &home {
            Some(h) => shell_profile(os, shells[i].as_str(), h.as_str()),
            None => None,
        };
        let t = match p {
            Some((f, k)) => ShellTarget::Profile(f, k),
            None => ShellTarget::Unknown(shells[i].clone()),
        };
        r.push(t);
        i = i + 1;
    }
    assert(targets_hold(os, *cfg, hv, r@));
    r
}


/// The profile files among the targets, in order.
pub open spec fn profile_files(t: Seq<ShellTarget>) -> Seq<Seq<char>>
    decreases t.len(),
{
    if t.len() == 0 {
        Seq::empty()
    } else {
        let r = profile_files(t.drop_last());
        match t.last() {
            ShellTarget::Profile(f, _) => r.push(f@),
            ShellTarget::Unknown(_) => r,
        }
    }
}

fn files_of(t: &Vec<ShellTarget>) -> (r: Vec<String>)
    ensures
        string_views(r@) == profile_files(t@),
{
    let mut r: Vec<String> = Vec::new();
    let mut i: usize = 0;
    while i < t.len()
        invariant
            i <= t.len(),
            string_views(r@) == profile_files(t@.take(i as int)),
        decreases t.len() - i,
    {
        assert(t@.take(i + 1).drop_last() =~= t@.take(i as int));
        assert(t@.take(i + 1).last() == t@[i as int]);
        match &t[i] {
            ShellTarget::Profile(f, _) => {
                push_str(&mut r, f.as_str());
            },
            ShellTarget::Unknown(_) => {},
        }
        i = i + 1;
    }
    assert(t@.take(i as int) =~= t@);
    r
}

/// The registry target shown on Windows.
pub open spec fn windows_target() -> Seq<char> {
    "Windows user PATH (registry: HKCU\\Environment)"@
}

/// What applying would change, for the home directory `home` and the local
/// application data `local`: the PATH entries, and the targets (the registry
/// on Windows, else the profiles of the known configured shells).
pub open spec fn preview_for_holds(
    os: Os,
    cfg: Config,
    home: Seq<char>,
    local: Option<Seq<char>>,
    p: PathPreview,
) -> bool {
    &&& string_views(p.entries@) == path_entries_spec(os, home, local)
    &&& if os == Os::Windows {
        string_views(p.targets@) == seq![windows_target()]
    } else {
        exists|t: Seq<ShellTarget>|
            #[trigger] targets_hold(os, cfg, Some(home), t) && string_views(p.targets@)
                == profile_files(t)
    }
}

/// What applying would change, for some home directory and local
/// application data.
pub open spec fn preview_holds(os: Os, cfg: Config, p: PathPreview) -> bool {
    exists|h: Seq<char>, l: Option<Seq<char>>| #[trigger] preview_for_holds(os, cfg, h, l, p)
}

/// The preview for the home directory `home` and the local application data
/// `local` the system reported.
pub fn preview_for(cfg: &Config, os: Os, home: &str, local: Option<String>) -> (p: PathPreview)
    ensures
        preview_for_holds(os, *cfg, home@, crate::config::opt_view(local), p),
{
    let ghost l = crate::config::opt_view(local);
    let entries = entries_for(os, home, local);
    let targets = if os == Os::Windows {
        let mut t: Vec<String> = Vec::new();
        push_str(&mut t, "Windows user PATH (registry: HKCU\\Environment)");
        assert(string_views(t@) =~= seq![windows_target()]);
        t
    } else {
        let st = shell_targets_for(os, cfg, Some(home.to_string()));
        let f = files_of(&st);
        assert(targets_hold(os, *cfg, Some(home@), st@) && string_views(f@) == profile_files(st@));
        f
    };
    let p = PathPreview { entries, targets };
    assert(preview_for_holds(os, *cfg, home@, l, p));
    p
}

pub fn preview(cfg: &Config, os: Os) -> (r: Result<PathPreview, Error>)
    ensures
        match r {
            Ok(p) => preview_holds(os, *cfg, p),
            Err(e) => e matches Error::Msg(m) && m@ == no_home_message(),
        },
{
    let home = home_dir()?;
    let local = local_data(os);
    let ghost l = crate::config::opt_view(local);
    let p = preview_for(cfg, os, home.as_str(), local);
    assert(preview_for_holds(os, *cfg, home@, l, p));
    let r: Result<PathPreview, Error> = Ok(p);
    r
}

/// ASCII case-insensitive character equality.
pub open spec fn ascii_lower(c: char) -> char {
    if 'A' <= c && c <= 'Z' {
        ((c as int) + 32) as char
    } else {
        c
    }
}

/// `str::eq_ignore_ascii_case`.
pub open spec fn eq_ignore_ascii_case_spec(a: Seq<char>, b: Seq<char>) -> bool {
    a.len() == b.len() && forall|i: int| 0 <= i < a.len() ==> ascii_lower(#[trigger] a[i]) == ascii_lower(b[i])
}

fn lower_char(c: char) -> (r: char)
    ensures
        r == ascii_lower(c),
{
    if 'A' <= c && c <= 'Z' {
        ((c as u8) + 32) as char
    } else {
        c
    }
}

fn eq_ignore_ascii_case(a: &Vec<char>, b: &Vec<char>) -> (r: bool)
    ensures
        r == eq_ignore_ascii_case_spec(a@, b@),
{
    if a.len() != b.len() {
        return false;
    }
    let mut i: usize = 0;
    while i < a.len()
        invariant
            i <= a.len(),
            a.len() == b.len(),
            forall|k: int| 0 <= k < i ==> ascii_lower(#[trigger] a@[k]) == ascii_lower(b@[k]),
        decreases a.len() - i,
    {
        if lower_char(a[i]) != lower_char(b[i]) {
            return false;
        }
        i = i + 1;
    }
    true
}

/// The non-blank ';'-separated parts of the user PATH value, trimmed.
pub open spec fn path_parts(value: Seq<char>) -> Seq<Seq<char>>
    decreases value.len(),
{
    path_parts_of(split_spec(value, Sep::Char(';')))
}

pub open spec fn path_parts_of(p: Seq<Seq<char>>) -> Seq<Seq<char>>
    decreases p.len(),
{
    if p.len() == 0 {
        Seq::empty()
    } else {
        let r = path_parts_of(p.drop_last());
        if trim_spec(p.last()).len() > 0 {
            r.push(trim_spec(p.last()))
        } else {
            r
        }
    }
}

/// Some entry is missing from the parts (compared ignoring ASCII case).
pub open spec fn entry_missing(entries: Seq<Seq<char>>, parts: Seq<Seq<char>>) -> bool {
    exists|i: int| 0 <= i < entries.len() && #[trigger] entry_absent(parts, entries[i])
}

/// No part equals `e` (ignoring ASCII case).
pub open spec fn entry_absent(parts: Seq<Seq<char>>, e: Seq<char>) -> bool {
    forall|j: int| 0 <= j < parts.len() ==> !eq_ignore_ascii_case_spec(#[trigger] parts[j], e)
}

/// The Windows PATH status, given the user PATH value (blank when it could
/// not be read): configured when every entry is among its parts.
pub open spec fn windows_status_holds(entries: Seq<Seq<char>>, value: Seq<char>, st: PathStatus) -> bool {
    let missing = entry_missing(entries, path_parts(value));
    &&& st.configured == !missing
    &&& string_views(st.pending_targets@) == (if missing {
        seq!["Windows user PATH"@]
    } else {
        Seq::empty()
    })
}

fn parts_of(value: &str) -> (r: Vec<Vec<char>>)
    ensures
        views(r@) == path_parts(value@),
{
    let p = split(&chars_of(value), Sep::Char(';'));
    let mut r: Vec<Vec<char>> = Vec::new();
    let mut i: usize = 0;
    while i < p.len()
        invariant
            i <= p.len(),
            views(r@) == path_parts_of(views(p@).take(i as int)),
        decreases p.len() - i,
    {
        assert(views(p@).take(i + 1).drop_last() =~= views(p@).take(i as int));
        assert(views(p@).take(i + 1).last() == p[i as int]@);
        let t = trim(&p[i]);
        if t.len() > 0 {
            proof {
                crate::text::lemma_views_push(r@, t);
            }
            r.push(t);
        }
        i = i + 1;
    }
    assert(views(p@).take(i as int) =~= views(p@));
    r
}

pub fn windows_status(entries: &Vec<String>, value: &str) -> (st: PathStatus)
    ensures
        windows_status_holds(string_views(entries@), value@, st),
{
    let parts = parts_of(value);
    let ghost ps = path_parts(value@);
    let mut missing = false;
    let mut i: usize = 0;
    while i < entries.len()
        invariant
            i <= entries.len(),
            views(parts@) == ps,
            ps == path_parts(value@),
            missing == exists|k: int|
                0 <= k < i && #[trigger] entry_absent(ps, string_views(entries@)[k]),
        decreases entries.len() - i,
    {
        let e = chars_of(entries[i].as_str());
        let mut found = false;
        let mut j: usize = 0;
        while j < parts.len()
            invariant
                j <= parts.len(),
                views(parts@) == ps,
                e@ == string_views(entries@)[i as int],
                found == exists|m: int| 0 <= m < j && eq_ignore_ascii_case_spec(#[trigger] ps[m], e@),
            decreases parts.len() - j,
        {
            assert(parts[j as int]@ == ps[j as int]);
            if eq_ignore_ascii_case(&parts[j], &e) {
                found = true;
            }
            j = j + 1;
        }
        assert(found == !entry_absent(ps, e@));
        if !found {
            missing = true;
        }
        i = i + 1;
    }
    let mut pending: Vec<String> = Vec::new();
    if missing {
        push_str(&mut pending, "Windows user PATH");
    }
    assert(string_views(pending@) =~= (if missing {
        seq!["Windows user PATH"@]
    } else {
        Seq::<Seq<char>>::empty()
    }));
    PathStatus { configured: !missing, pending_targets: pending }
}

/// The profiles among `targets` whose content (`contents[i]` for
/// `targets[i]`) lacks the pydev block.
pub open spec fn pending_profiles(t: Seq<ShellTarget>, contents: Seq<Seq<char>>) -> Seq<Seq<char>>
    decreases t.len(),
{
    if t.len() == 0 {
        Seq::empty()
    } else {
        let r = pending_profiles(t.drop_last(), contents.drop_last());
        match t.last() {
            ShellTarget::Profile(f, _) => if contains_spec(contents.last(), marker_begin()) {
                r
            } else {
                r.push(f@)
            },
            ShellTarget::Unknown(_) => r,
        }
    }
}

/// The Unix PATH status: configured when at least one profile is known and
/// all of them hold the pydev block.
pub open spec fn unix_status_holds(t: Seq<ShellTarget>, contents: Seq<Seq<char>>, st: PathStatus) -> bool {
    &&& string_views(st.pending_targets@) == pending_profiles(t, contents)
    &&& st.configured == (profile_files(t).len() > 0 && pending_profiles(t, contents).len() == 0)
}

/// The Unix PATH status from the configured shells and the contents of
/// their profiles (`contents[i]` for `targets[i]`, blank when unreadable or
/// unknown).
pub fn unix_status(targets: &Vec<ShellTarget>, contents: &Vec<String>) -> (st: PathStatus)
    requires
        contents.len() == targets.len(),
    ensures
        unix_status_holds(targets@, string_views(contents@), st),
{
    let marker = chars_of("# >>> pydev >>>");
    let mut pending: Vec<String> = Vec::new();
    let mut any = false;
    let mut i: usize = 0;
    while i < targets.len()
        invariant
            i <= targets.len(),
            contents.len() == targets.len(),
            marker@ == marker_begin(),
            string_views(pending@) == pending_profiles(
                targets@.take(i as int),
                string_views(contents@).take(i as int),
            ),
            any == (profile_files(targets@.take(i as int)).len() > 0),
        decreases targets.len() - i,
    {
        assert(targets@.take(i + 1).drop_last() =~= targets@.take(i as int));
        assert(string_views(contents@).take(i + 1).drop_last() =~= string_views(contents@).take(
            i as int,
        ));
        assert(targets@.take(i + 1).last() == targets@[i as int]);
        assert(string_views(contents@).take(i + 1).last() == contents@[i as int]@);
        match &targets[i] {
            ShellTarget::Profile(f, _) => {
                any = true;
                if !contains(&chars_of(contents[i].as_str()), &marker) {
                    push_str(&mut pending, f.as_str());
                }
            },
            ShellTarget::Unknown(_) => {},
        }
        i = i + 1;
    }
    assert(targets@.take(i as int) =~= targets@);
    assert(string_views(contents@).take(i as int) =~= string_views(contents@));
    PathStatus { configured: any && pending.len() == 0, pending_targets: pending }
}


/// The line that puts `dir` first on PATH in a profile of kind `k`.
pub open spec fn path_line(k: ShellKind, dir: Seq<char>) -> Seq<char> {
    match k {
        ShellKind::Posix => "export PATH=\""@ + dir + ":$PATH\"\n"@,
        ShellKind::Fish => "set -gx PATH \""@ + dir + "\" $PATH\n"@,
    }
}

/// The lines for all entries, in order.
pub open spec fn path_lines(k: ShellKind, entries: Seq<Seq<char>>) -> Seq<char>
    decreases entries.len(),
{
    if entries.len() == 0 {
        Seq::empty()
    } else {
        path_lines(k, entries.drop_last()) + path_line(k, entries.last())
    }
}

/// The block appended to a shell profile: a blank line, the begin marker, a
/// comment, one PATH line per entry, and the end marker.
pub open spec fn profile_block_spec(k: ShellKind, entries: Seq<Seq<char>>) -> Seq<char> {
    "\n"@ + marker_begin() + "\n# Added by pydev: PATH for uv, Python and VSCode\n"@ + path_lines(
        k,
        entries,
    ) + marker_end() + "\n"@
}

pub fn profile_block(k: ShellKind, entries: &Vec<String>) -> (b: String)
    ensures
        b@ == profile_block_spec(k, string_views(entries@)),
{
    let mut b = concat("\n", "# >>> pydev >>>");
    b.append("\n# Added by pydev: PATH for uv, Python and VSCode\n");
    let ghost head = b@;
    let mut i: usize = 0;
    while i < entries.len()
        invariant
            i <= entries.len(),
            b@ == head + path_lines(k, string_views(entries@).take(i as int)),
        decreases entries.len() - i,
    {
        let ghost before = b@;
        assert(string_views(entries@).take(i + 1).drop_last() =~= string_views(entries@).take(
            i as int,
        ));
        match k {
            ShellKind::Posix => {
                b.append("export PATH=\"");
                b.append(entries[i].as_str());
                b.append(":$PATH\"\n");
            },
            ShellKind::Fish => {
                b.append("set -gx PATH \"");
                b.append(entries[i].as_str());
                b.append("\" $PATH\n");
            },
        }
        i = i + 1;
        assert(b@ =~= head + path_lines(k, string_views(entries@).take(i as int)));
    }
    assert(string_views(entries@).take(i as int) =~= string_views(entries@));
    b.append("# <<< pydev <<<");
    b.append("\n");
    assert(b@ =~= profile_block_spec(k, string_views(entries@)));
    b
}

/// One thing to do for a configured shell when applying PATH, or the closing
/// report.
#[derive(Debug, Clone, PartialEq, Eq)]
pub enum ProfileAction {
    /// Report a warning.
    Warn(String),
    /// Report a line.
    Info(String),
    /// Append `block` to the profile `file` (creating its directory), then
    /// report `done` as a success; the file counts as modified.
    Append { file: String, block: String, done: String },
}

/// A profile action as the contracts see it.
pub enum ProfileStep {
    Warn(Seq<char>),
    Info(Seq<char>),
    Append(Seq<char>, Seq<char>, Seq<char>),
}

pub open spec fn profile_step(a: ProfileAction) -> ProfileStep {
    match a {
        ProfileAction::Warn(m) => ProfileStep::Warn(m@),
        ProfileAction::Info(m) => ProfileStep::Info(m@),
        ProfileAction::Append { file, block, done } => ProfileStep::Append(file@, block@, done@),
    }
}

/// The files that the append steps among `s` write, in order.
pub open spec fn appended_files(s: Seq<ProfileStep>) -> Seq<Seq<char>>
    decreases s.len(),
{
    if s.len() == 0 {
        Seq::empty()
    } else {
        let r = appended_files(s.drop_last());
        match s.last() {
            ProfileStep::Append(f, _, _) => r.push(f),
            _ => r,
        }
    }
}

/// What applying PATH does for one configured shell, after the earlier
/// shells appended to the files `appended`: warn about an unknown shell,
/// skip a profile that already holds the block (or got it from an earlier
/// shell naming the same file), else append it.
pub open spec fn shell_step(
    t: ShellTarget,
    content: Seq<char>,
    entries: Seq<Seq<char>>,
    appended: Seq<Seq<char>>,
) -> ProfileStep {
    match t {
        ShellTarget::Unknown(s) => ProfileStep::Warn("Unknown shell '"@ + s@ + "', skipping"@),
        ShellTarget::Profile(f, k) => if contains_spec(content, marker_begin()) || appended.contains(
            f@,
        ) {
            ProfileStep::Info(f@ + " already configured"@)
        } else {
            ProfileStep::Append(f@, profile_block_spec(k, entries), "Updated "@ + f@)
        },
    }
}

/// The steps for the configured shells, in order.
pub open spec fn unix_steps(t: Seq<ShellTarget>, contents: Seq<Seq<char>>, entries: Seq<Seq<char>>) -> Seq<ProfileStep>
    decreases t.len(),
{
    if t.len() == 0 {
        Seq::empty()
    } else {
        let r = unix_steps(t.drop_last(), contents.drop_last(), entries);
        r.push(shell_step(t.last(), contents.last(), entries, appended_files(r)))
    }
}

/// The steps of applying PATH on Unix: one per configured shell, then the
/// closing report (a warning when no profile changes).
pub open spec fn apply_unix_holds(
    t: Seq<ShellTarget>,
    contents: Seq<Seq<char>>,
    entries: Seq<Seq<char>>,
    r: Seq<ProfileStep>,
) -> bool {
    let steps = unix_steps(t, contents, entries);
    &&& r.len() == t.len() + 1
    &&& r.take(t.len() as int) == steps
    &&& r[t.len() as int] == (if appended_files(steps).len() > 0 {
        ProfileStep::Info("Open a new terminal (or `source` the profile) to use the new PATH"@)
    } else {
        ProfileStep::Warn("No shell profiles were updated"@)
    })
}

/// Applying PATH on Unix, given the configured shells and the contents of
/// their profiles (`contents[i]` for `targets[i]`, blank when unreadable).
pub fn apply_unix(targets: &Vec<ShellTarget>, contents: &Vec<String>, entries: &Vec<String>) -> (r: Vec<ProfileAction>)
    requires
        contents.len() == targets.len(),
    ensures
        apply_unix_holds(
            targets@,
            string_views(contents@),
            string_views(entries@),
            r@.map_values(|a: ProfileAction| profile_step(a)),
        ),
{
    let marker = chars_of("# >>> pydev >>>");
    let ghost cs = string_views(contents@);
    let ghost es = string_views(entries@);
    let ghost mut steps: Seq<ProfileStep> = Seq::empty();
    let mut appended: Vec<String> = Vec::new();
    let mut r: Vec<ProfileAction> = Vec::new();
    let mut i: usize = 0;
    assert(targets@.take(0) =~= Seq::<ShellTarget>::empty());
    while i < targets.len()
        invariant
            i <= targets.len(),
            contents.len() == targets.len(),
            marker@ == marker_begin(),
            cs == string_views(contents@),
            es == string_views(entries@),
            r.len() == i,
            steps.len() == i,
            steps == unix_steps(targets@.take(i as int), cs.take(i as int), es),
            forall|m: int| 0 <= m < i ==> #[trigger] profile_step(r@[m]) == steps[m],
            string_views(appended@) == appended_files(steps),
        decreases targets.len() - i,
    {
        assert(contents[i as int]@ == cs[i as int]);
        let ghost prev = steps;
        assert(targets@.take(i + 1).drop_last() =~= targets@.take(i as int));
        assert(cs.take(i + 1).drop_last() =~= cs.take(i as int));
        assert(targets@.take(i + 1).last() == targets@[i as int]);
        assert(cs.take(i + 1).last() == cs[i as int]);
        let a = match &targets[i] {
            ShellTarget::Unknown(s) => {
                let x = concat("Unknown shell '", s.as_str());
                ProfileAction::Warn(concat(x.as_str(), "', skipping"))
            },
            ShellTarget::Profile(f, k) => {
                if contains(&chars_of(contents[i].as_str()), &marker) || contains_string(
                    &appended,
                    f.as_str(),
                ) {
                    ProfileAction::Info(concat(f.as_str(), " already configured"))
                } else {
                    push_str(&mut appended, f.as_str());
                    ProfileAction::Append {
                        file: f.clone(),
                        block: profile_block(*k, entries),
                        done: concat("Updated ", f.as_str()),
                    }
                }
            },
        };
        proof {
            steps = prev.push(shell_step(targets@[i as int], cs[i as int], es, appended_files(prev)));
            assert(steps.drop_last() =~= prev);
        }
        assert(profile_step(a) == steps[i as int]);
        r.push(a);
        i = i + 1;
    }
    assert(targets@.take(i as int) =~= targets@);
    assert(cs.take(i as int) =~= cs);
    let last = if appended.len() > 0 {
        ProfileAction::Info(
            "Open a new terminal (or `source` the profile) to use the new PATH".to_string(),
        )
    } else {
        ProfileAction::Warn("No shell profiles were updated".to_string())
    };
    r.push(last);
    let ghost rs = r@.map_values(|a: ProfileAction| profile_step(a));
    assert(rs.take(i as int) =~= steps) by {
        assert forall|m: int| 0 <= m < i implies rs[m] == steps[m] by {
            assert(rs[m] == profile_step(r@[m]));
        }
    }
    assert(rs[i as int] == profile_step(last));
    r
}

/// `s` with every single quote doubled, as a PowerShell literal needs.
pub open spec fn escape_quotes(s: Seq<char>) -> Seq<char>
    decreases s.len(),
{
    if s.len() == 0 {
        Seq::empty()
    } else {
        escape_quotes(s.drop_last()) + (if s.last() == '\'' {
            seq!['\'', '\'']
        } else {
            seq![s.last()]
        })
    }
}

/// The PowerShell array literal of the entries: each quoted, joined by ", ".
pub open spec fn ps_array(entries: Seq<Seq<char>>) -> Seq<char>
    decreases entries.len(),
{
    if entries.len() == 0 {
        Seq::empty()
    } else if entries.len() == 1 {
        seq!['\''] + escape_quotes(entries[0]) + seq!['\'']
    } else {
        ps_array(entries.drop_last()) + ", "@ + seq!['\''] + escape_quotes(entries.last()) + seq![
            '\'',
        ]
    }
}

/// The script body after the array literal: it adds each directory missing
/// from the user PATH, then writes the user PATH back.
pub open spec fn ps_script_rest() -> Seq<char> {
    ")\n$p = [Environment]::GetEnvironmentVariable('Path','User')\nif ($null -eq $p) { $p = '' }\nforeach ($d in $dirs) {\n  $parts = $p.Split(';') | Where-Object { $_ -ne '' }\n  if (-not ($parts -contains $d)) {\n    if ($p -ne '') { $p = $p + ';' + $d } else { $p = $d }\n  }\n}\n[Environment]::SetEnvironmentVariable('Path', $p, 'User')\nWrite-Output 'pydev: user PATH updated (open a new terminal to use it)'\n"@
}

/// The PowerShell script that adds the entries to the Windows user PATH.
pub open spec fn windows_script_spec(entries: Seq<Seq<char>>) -> Seq<char> {
    "$dirs = @("@ + ps_array(entries) + ps_script_rest()
}

fn escape(s: &str) -> (r: Vec<char>)
    ensures
        r@ == escape_quotes(s@),
{
    let v = chars_of(s);
    let mut r: Vec<char> = Vec::new();
    let mut i: usize = 0;
    while i < v.len()
        invariant
            i <= v.len(),
            v@ == s@,
            r@ == escape_quotes(v@.take(i as int)),
        decreases v.len() - i,
    {
        assert(v@.take(i + 1).drop_last() =~= v@.take(i as int));
        if v[i] == '\'' {
            r.push('\'');
            r.push('\'');
        } else {
            r.push(v[i]);
        }
        i = i + 1;
        assert(r@ =~= escape_quotes(v@.take(i as int)));
    }
    assert(v@.take(i as int) =~= v@);
    r
}

pub fn windows_path_script(entries: &Vec<String>) -> (s: String)
    ensures
        s@ == windows_script_spec(string_views(entries@)),
{
    let ghost es = string_views(entries@);
    let mut a: Vec<char> = Vec::new();
    let mut i: usize = 0;
    while i < entries.len()
        invariant
            i <= entries.len(),
            es == string_views(entries@),
            a@ == ps_array(es.take(i as int)),
        decreases entries.len() - i,
    {
        assert(es.take(i + 1).drop_last() =~= es.take(i as int));
        let ghost before = a@;
        if i > 0 {
            a.push(',');
            a.push(' ');
        }
        a.push('\'');
        let e = escape(entries[i].as_str());
        let mut k: usize = 0;
        let ghost mid = a@;
        while k < e.len()
            invariant
                k <= e.len(),
                a@ == mid + e@.take(k as int),
            decreases e.len() - k,
        {
            a.push(e[k]);
            k = k + 1;
            assert(a@ =~= mid + e@.take(k as int));
        }
        assert(e@.take(k as int) =~= e@);
        a.push('\'');
        proof {
            reveal_strlit(", ");
            if i > 0 {
                assert(a@ =~= before + ", "@ + seq!['\''] + escape_quotes(es[i as int]) + seq!['\'']);
            } else {
                assert(es.take(1) =~= seq![es[0]]);
                assert(a@ =~= seq!['\''] + escape_quotes(es[0]) + seq!['\'']);
            }
        }
        i = i + 1;
    }
    assert(es.take(i as int) =~= es);
    let arr = string_from(&a);
    let head = concat("$dirs = @(", arr.as_str());
    concat(
        head.as_str(),
        ")\n$p = [Environment]::GetEnvironmentVariable('Path','User')\nif ($null -eq $p) { $p = '' }\nforeach ($d in $dirs) {\n  $parts = $p.Split(';') | Where-Object { $_ -ne '' }\n  if (-not ($parts -contains $d)) {\n    if ($p -ne '') { $p = $p + ';' + $d } else { $p = $d }\n  }\n}\n[Environment]::SetEnvironmentVariable('Path', $p, 'User')\nWrite-Output 'pydev: user PATH updated (open a new terminal to use it)'\n",
    )
}

/// The entries joined by ", ".
pub open spec fn comma_join(entries: Seq<Seq<char>>) -> Seq<char>
    decreases entries.len(),
{
    if entries.len() == 0 {
        Seq::empty()
    } else if entries.len() == 1 {
        entries[0]
    } else {
        comma_join(entries.drop_last()) + ", "@ + entries.last()
    }
}

/// The line announcing which directories PATH gets.
pub fn apply_announce(entries: &Vec<String>) -> (s: String)
    ensures
        s@ == "Ensuring PATH contains: "@ + comma_join(string_views(entries@)),
{
    let ghost es = string_views(entries@);
    let mut s = "Ensuring PATH contains: ".to_string();
    let ghost head = s@;
    let mut i: usize = 0;
    while i < entries.len()
        invariant
            i <= entries.len(),
            es == string_views(entries@),
            s@ == head + comma_join(es.take(i as int)),
        decreases entries.len() - i,
    {
        assert(es.take(i + 1).drop_last() =~= es.take(i as int));
        if i > 0 {
            s.append(", ");
        }
        s.append(entries[i].as_str());
        proof {
            if i == 0 {
                assert(es.take(1) =~= seq![es[0]]);
            }
        }
        i = i + 1;
        assert(s@ =~= head + comma_join(es.take(i as int)));
    }
    assert(es.take(i as int) =~= es);
    s
}


/// The command that reads the user PATH from the Windows registry.
pub fn windows_path_query() -> (c: CommandLine)
    ensures
        command_is(
            c,
            "powershell"@,
            seq!["-NoProfile"@, "-Command"@, "[Environment]::GetEnvironmentVariable('Path','User')"@],
            Seq::empty(),
        ),
{
    let mut args: Vec<String> = Vec::new();
    push_str(&mut args, "-NoProfile");
    push_str(&mut args, "-Command");
    push_str(&mut args, "[Environment]::GetEnvironmentVariable('Path','User')");
    let c = CommandLine { program: "powershell".to_string(), args, envs: Vec::new() };
    assert(string_views(c.args@) =~= seq![
        "-NoProfile"@,
        "-Command"@,
        "[Environment]::GetEnvironmentVariable('Path','User')"@,
    ]);
    assert(pair_views(c.envs@) =~= Seq::<(Seq<char>, Seq<char>)>::empty());
    c
}

/// How the Windows PATH script is run: saved at `script_path`, run by
/// `command`; on failure the run ends with the error `failure_prefix`
/// followed by the command's message, on success `done` is reported and
/// `target` counts as modified.
#[derive(Debug, Clone, PartialEq, Eq)]
pub struct WindowsApply {
    pub script_path: String,
    pub command: CommandLine,
    pub failure_prefix: String,
    pub done: String,
    pub target: String,
}

/// Running the Windows PATH script saved in the temporary directory
/// `temp_dir`.
pub fn windows_apply(temp_dir: &str) -> (w: WindowsApply)
    ensures
        w.script_path@ == join_spec(Os::Windows, temp_dir@, "pydev-path.ps1"@),
        command_is(
            w.command,
            "powershell"@,
            seq!["-NoProfile"@, "-ExecutionPolicy"@, "Bypass"@, "-File"@, w.script_path@],
            Seq::empty(),
        ),
        w.failure_prefix@ == "failed to update Windows PATH: "@,
        w.done@ == "Windows user PATH updated"@,
        w.target@ == "Windows user PATH"@,
{
    let script_path = join(Os::Windows, temp_dir, "pydev-path.ps1");
    let mut args: Vec<String> = Vec::new();
    push_str(&mut args, "-NoProfile");
    push_str(&mut args, "-ExecutionPolicy");
    push_str(&mut args, "Bypass");
    push_str(&mut args, "-File");
    push_str(&mut args, script_path.as_str());
    let command = CommandLine { program: "powershell".to_string(), args, envs: Vec::new() };
    assert(string_views(command.args@) =~= seq![
        "-NoProfile"@,
        "-ExecutionPolicy"@,
        "Bypass"@,
        "-File"@,
        script_path@,
    ]);
    assert(pair_views(command.envs@) =~= Seq::<(Seq<char>, Seq<char>)>::empty());
    WindowsApply {
        script_path,
        command,
        failure_prefix: "failed to update Windows PATH: ".to_string(),
        done: "Windows user PATH updated".to_string(),
        target: "Windows user PATH".to_string(),
    }
}

/// How to apply the PATH updates: announce the entries, then either run the
/// Windows script or edit the Unix shell profiles.
#[derive(Debug, Clone, PartialEq, Eq)]
pub struct PathApply {
    pub entries: Vec<String>,
    pub announce: String,
    /// The PowerShell script to run on Windows.
    pub windows_script: Option<String>,
    /// The configured shells to edit elsewhere (see `apply_unix`).
    pub targets: Vec<ShellTarget>,
}

/// The PATH application for the home directory `home` and the local
/// application data `local`: announce the entries, then run the Windows
/// script, or edit the configured shells' profiles elsewhere.
pub open spec fn apply_for_holds(
    os: Os,
    cfg: Config,
    home: Seq<char>,
    local: Option<Seq<char>>,
    a: PathApply,
) -> bool {
    &&& string_views(a.entries@) == path_entries_spec(os, home, local)
    &&& a.announce@ == "Ensuring PATH contains: "@ + comma_join(string_views(a.entries@))
    &&& if os == Os::Windows {
        &&& a.windows_script matches Some(sc) && sc@ == windows_script_spec(
            string_views(a.entries@),
        )
        &&& a.targets@.len() == 0
    } else {
        &&& a.windows_script is None
        &&& targets_hold(os, cfg, Some(home), a.targets@)
    }
}

/// The PATH application for the home directory `home` and the local
/// application data `local` the system reported.
pub fn apply_for(cfg: &Config, os: Os, home: &str, local: Option<String>) -> (a: PathApply)
    ensures
        apply_for_holds(os, *cfg, home@, crate::config::opt_view(local), a),
{
    let entries = entries_for(os, home, local);
    let announce = apply_announce(&entries);
    let (windows_script, targets) = if os == Os::Windows {
        (Some(windows_path_script(&entries)), Vec::new())
    } else {
        (None, shell_targets_for(os, cfg, Some(home.to_string())))
    };
    PathApply { entries, announce, windows_script, targets }
}

/// Apply the PATH updates for the system `os`.
pub fn apply(cfg: &Config, os: Os) -> (r: Result<PathApply, Error>)
    ensures
        match r {
            Ok(a) => exists|h: Seq<char>, l: Option<Seq<char>>|
                #[trigger] apply_for_holds(os, *cfg, h, l, a),
            Err(e) => e matches Error::Msg(m) && m@ == no_home_message(),
        },
{
    let home = home_dir()?;
    let local = local_data(os);
    let ghost l = crate::config::opt_view(local);
    let a = apply_for(cfg, os, home.as_str(), local);
    let r: Result<PathApply, Error> = Ok(a);
    assert(r matches Ok(q) && apply_for_holds(os, *cfg, home@, l, q));
    r
}

/// A profile that `apply` updated holds the pydev block, so a later status
/// check counts it as configured and a later apply leaves it alone.
pub proof fn appended_profile_is_configured(content: Seq<char>, k: ShellKind, entries: Seq<Seq<char>>)
    ensures
        contains_spec(content + profile_block_spec(k, entries), marker_begin()),
{
    let all = content + profile_block_spec(k, entries);
    let i: int = content.len() as int + 1;
    reveal_strlit("\n");
    assert(all.subrange(i, i + marker_begin().len()) =~= marker_begin());
    assert(crate::text::occurs_at(all, marker_begin(), i));
}


/// The block the steps append to the file `f`, if any (the last one).
pub open spec fn block_for(s: Seq<ProfileStep>, f: Seq<char>) -> Option<Seq<char>>
    decreases s.len(),
{
    if s.len() == 0 {
        None
    } else {
        match s.last() {
            ProfileStep::Append(g, b, _) => if g == f {
                Some(b)
            } else {
                block_for(s.drop_last(), f)
            },
            _ => block_for(s.drop_last(), f),
        }
    }
}

/// The profile contents after applying PATH on Unix: a profile whose file
/// got the block ends with it, the others are unchanged.
pub open spec fn contents_after(
    t: Seq<ShellTarget>,
    contents: Seq<Seq<char>>,
    entries: Seq<Seq<char>>,
) -> Seq<Seq<char>> {
    let steps = unix_steps(t, contents, entries);
    Seq::new(
        contents.len(),
        |i: int|
            match t[i] {
                ShellTarget::Profile(f, _) => match block_for(steps, f@) {
                    Some(b) => contents[i] + b,
                    None => contents[i],
                },
                ShellTarget::Unknown(_) => contents[i],
            },
    )
}

/// The step appends the block `b` to the file `f`.
pub open spec fn appends_block(x: ProfileStep, f: Seq<char>, b: Seq<char>) -> bool {
    x matches ProfileStep::Append(g, bb, _) && g == f && bb == b
}

/// The step appends to the file `f`.
pub open spec fn appends_to(x: ProfileStep, f: Seq<char>) -> bool {
    x matches ProfileStep::Append(g, _, _) && g == f
}

proof fn lemma_unix_steps_index(t: Seq<ShellTarget>, c: Seq<Seq<char>>, e: Seq<Seq<char>>)
    requires
        c.len() == t.len(),
    ensures
        unix_steps(t, c, e).len() == t.len(),
        forall|i: int|
            0 <= i < t.len() ==> #[trigger] unix_steps(t, c, e)[i] == shell_step(
                t[i],
                c[i],
                e,
                appended_files(unix_steps(t, c, e).take(i)),
            ),
    decreases t.len(),
{
    if t.len() > 0 {
        let td = t.drop_last();
        let cd = c.drop_last();
        lemma_unix_steps_index(td, cd, e);
        let r = unix_steps(td, cd, e);
        let s = unix_steps(t, c, e);
        assert forall|i: int| 0 <= i < t.len() implies #[trigger] s[i] == shell_step(
            t[i],
            c[i],
            e,
            appended_files(s.take(i)),
        ) by {
            if i < t.len() - 1 {
                assert(s.take(i) =~= r.take(i));
                assert(s[i] == r[i]);
                assert(td[i] == t[i] && cd[i] == c[i]);
            } else {
                assert(s.take(i) =~= r);
            }
        }
    }
}

proof fn lemma_appended_files(s: Seq<ProfileStep>, f: Seq<char>)
    ensures
        appended_files(s).contains(f) <==> exists|j: int| 0 <= j < s.len() && #[trigger] appends_to(s[j], f),
        appended_files(s).len() > 0 ==> exists|j: int| 0 <= j < s.len() && #[trigger] s[j] is Append,
    decreases s.len(),
{
    if s.len() > 0 {
        let d = s.drop_last();
        lemma_appended_files(d, f);
        let r = appended_files(d);
        let n = s.len() - 1;
        assert(s[n] == s.last());
        assert forall|j: int| 0 <= j < d.len() implies #[trigger] d[j] == s[j] by {}
        if r.len() > 0 {
            let j = choose|j: int| 0 <= j < d.len() && #[trigger] d[j] is Append;
            assert(s[j] is Append);
        }
        if r.contains(f) {
            let j = choose|j: int| 0 <= j < d.len() && #[trigger] appends_to(d[j], f);
            assert(appends_to(s[j], f));
        }
        match s.last() {
            ProfileStep::Append(g, _, _) => {
                assert(appended_files(s) == r.push(g));
                assert(r.push(g)[r.len() as int] == g);
                if r.contains(f) {
                    let k = choose|k: int| 0 <= k < r.len() && r[k] == f;
                    assert(r.push(g)[k] == f);
                }
                if r.push(g).contains(f) && !r.contains(f) {
                    let k = choose|k: int| 0 <= k < r.push(g).len() && r.push(g)[k] == f;
                    if k < r.len() {
                        assert(r[k] == f);
                    }
                    assert(appends_to(s[n], f));
                }
                if exists|j: int| 0 <= j < s.len() && #[trigger] appends_to(s[j], f) {
                    let j = choose|j: int| 0 <= j < s.len() && #[trigger] appends_to(s[j], f);
                    if j < d.len() {
                        assert(appends_to(d[j], f));
                    } else {
                        assert(g == f);
                    }
                }
            },
            _ => {
                assert(appended_files(s) == r);
                if exists|j: int| 0 <= j < s.len() && #[trigger] appends_to(s[j], f) {
                    let j = choose|j: int| 0 <= j < s.len() && #[trigger] appends_to(s[j], f);
                    assert(j != n);
                    assert(appends_to(d[j], f));
                }
            },
        }
    }
}

proof fn lemma_block_for(s: Seq<ProfileStep>, f: Seq<char>)
    ensures
        block_for(s, f) matches Some(b) ==> exists|j: int|
            0 <= j < s.len() && #[trigger] appends_block(s[j], f, b),
        block_for(s, f) is None ==> forall|j: int| 0 <= j < s.len() ==> !appends_to(#[trigger] s[j], f),
    decreases s.len(),
{
    if s.len() > 0 {
        let d = s.drop_last();
        let n = s.len() - 1;
        lemma_block_for(d, f);
        assert(s[n] == s.last());
        assert forall|j: int| 0 <= j < d.len() implies #[trigger] d[j] == s[j] by {}
        match block_for(s, f) {
            Some(b) => {
                if appends_to(s.last(), f) {
                    assert(appends_block(s[n], f, b));
                } else {
                    assert(block_for(s, f) == block_for(d, f));
                    let j = choose|j: int| 0 <= j < d.len() && #[trigger] appends_block(d[j], f, b);
                    assert(appends_block(s[j], f, b));
                }
            },
            None => {
                assert(!appends_to(s.last(), f));
                assert(block_for(d, f) is None);
                assert forall|j: int| 0 <= j < s.len() implies !appends_to(#[trigger] s[j], f) by {
                    if j < d.len() {
                        assert(s[j] == d[j]);
                    }
                }
            },
        }
    }
}

proof fn lemma_no_pending(t: Seq<ShellTarget>, c: Seq<Seq<char>>)
    requires
        c.len() == t.len(),
        forall|i: int|
            0 <= i < t.len() && (#[trigger] t[i] is Profile) ==> contains_spec(c[i], marker_begin()),
    ensures
        pending_profiles(t, c) == Seq::<Seq<char>>::empty(),
    decreases t.len(),
{
    if t.len() > 0 {
        let td = t.drop_last();
        let cd = c.drop_last();
        assert forall|i: int|
            0 <= i < td.len() && (#[trigger] td[i] is Profile) implies contains_spec(cd[i], marker_begin()) by {
            assert(td[i] == t[i] && cd[i] == c[i]);
        }
        lemma_no_pending(td, cd);
        assert(t.last() == t[t.len() - 1]);
        assert(c.last() == c[c.len() - 1]);
    }
}

/// After PATH was applied on Unix, applying it again appends nothing and
/// the status lists no pending profile: each file gets the pydev block at
/// most once.
pub proof fn second_apply_changes_nothing(
    t: Seq<ShellTarget>,
    contents: Seq<Seq<char>>,
    entries: Seq<Seq<char>>,
)
    requires
        contents.len() == t.len(),
    ensures
        appended_files(unix_steps(t, contents_after(t, contents, entries), entries)).len() == 0,
        pending_profiles(t, contents_after(t, contents, entries)) == Seq::<Seq<char>>::empty(),
{
    let steps = unix_steps(t, contents, entries);
    let a = contents_after(t, contents, entries);
    lemma_unix_steps_index(t, contents, entries);
    assert forall|i: int|
        0 <= i < t.len() && (#[trigger] t[i] is Profile) implies contains_spec(a[i], marker_begin()) by {
        let f = t[i]->Profile_0;
        lemma_block_for(steps, f@);
        match block_for(steps, f@) {
            Some(b) => {
                let j = choose|j: int|
                    0 <= j < steps.len() && #[trigger] appends_block(steps[j], f@, b);
                assert(steps[j] == shell_step(t[j], contents[j], entries, appended_files(steps.take(j))));
                let k = t[j]->Profile_1;
                assert(b == profile_block_spec(k, entries));
                appended_profile_is_configured(contents[i], k, entries);
            },
            None => {
                assert(steps[i] == shell_step(t[i], contents[i], entries, appended_files(steps.take(i))));
                assert(!appends_to(steps[i], f@));
                lemma_appended_files(steps.take(i), f@);
                if appended_files(steps.take(i)).contains(f@) {
                    let j = choose|j: int| 0 <= j < steps.take(i).len() && #[trigger] appends_to(steps.take(i)[j], f@);
                    assert(steps.take(i)[j] == steps[j]);
                    assert(!appends_to(steps[j], f@));
                }
                assert(contains_spec(contents[i], marker_begin()));
            },
        }
    }
    lemma_no_pending(t, a);
    lemma_unix_steps_index(t, a, entries);
    let s2 = unix_steps(t, a, entries);
    lemma_appended_files(s2, Seq::empty());
    if appended_files(s2).len() > 0 {
        let j = choose|j: int| 0 <= j < s2.len() && #[trigger] s2[j] is Append;
        assert(s2[j] == shell_step(t[j], a[j], entries, appended_files(s2.take(j))));
        if t[j] is Profile {
            assert(contains_spec(a[j], marker_begin()));
        }
    }
}


/// On Windows, applying PATH for a home directory and a known local
/// application-data directory puts both the user bin directory (uv, Python)
/// and the VSCode bin directory into the script that edits the user PATH;
/// elsewhere the entries are the user bin directory alone, for every shell.
pub proof fn apply_covers_tool_dirs(cfg: Config, os: Os, home: Seq<char>, local: Seq<char>, a: PathApply)
    requires
        apply_for_holds(os, cfg, home, Some(local), a),
    ensures
        string_views(a.entries@).contains(bin_dir_spec(os, home)),
        os == Os::Windows ==> string_views(a.entries@).contains(vscode_bin_spec(local)) && (
        a.windows_script matches Some(sc) && sc@ == windows_script_spec(string_views(a.entries@))),
        os != Os::Windows ==> string_views(a.entries@) == seq![bin_dir_spec(os, home)],
{
    let e = string_views(a.entries@);
    assert(e[0] == bin_dir_spec(os, home));
    if os == Os::Windows {
        assert(e[1] == vscode_bin_spec(local));
    }
}

} // verus!
