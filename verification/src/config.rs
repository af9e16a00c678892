//! Configuration shared by the GUI and the CLI, with its defaults.

use vstd::prelude::*;

use crate::platform::{config_dir, join, join_spec, Os};
use crate::text::{chars_of, string_from, trim, trim_spec};

verus! {

broadcast use vstd::string::group_string_axioms;

/// Full configuration shared by the GUI and CLI.
#[derive(Debug, Clone, PartialEq, Eq)]
pub struct Config {
    pub language: String,
    /// When true, the one-click flow reinstalls/updates components that are
    /// already present; when false it skips satisfied components.
    pub reinstall_existing: bool,
    pub proxy: ProxyConfig,
    pub uv: UvConfig,
    pub python: PythonConfig,
    pub vscode: VscodeConfig,
    pub path: PathConfig,
}

/// Proxy settings; blank means "no proxy".
#[derive(Debug, Clone, PartialEq, Eq)]
pub struct ProxyConfig {
    pub http: String,
    pub https: String,
    pub no_proxy: String,
}

#[derive(Debug, Clone, PartialEq, Eq)]
pub struct UvConfig {
    /// "latest" or a pinned version like "0.9.2".
    pub version: String,
}

#[derive(Debug, Clone, PartialEq, Eq)]
pub struct PythonConfig {
    /// "latest" or a version like "3.13".
    pub version: String,
    /// Also install bare `python` / `python3` shims (uv `--default`).
    pub set_default: bool,
}

#[derive(Debug, Clone, PartialEq, Eq)]
pub struct VscodeConfig {
    pub install: bool,
    pub extensions: Vec<String>,
}

#[derive(Debug, Clone, PartialEq, Eq)]
pub struct PathConfig {
    pub update: bool,
    /// Unix shell profiles to update. Any of: "bashrc", "zshrc", "fish", "profile".
    /// Ignored on Windows (the user registry PATH is always used).
    pub shells: Vec<String>,
}

/// The views of a list of strings.
pub open spec fn string_views(v: Seq<String>) -> Seq<Seq<char>> {
    v.map_values(|s: String| s@)
}

/// The view of an optional string.
pub open spec fn opt_view(o: Option<String>) -> Option<Seq<char>> {
    match o {
        Some(s) => Some(s@),
        None => None,
    }
}

/// A copy of a list of strings.
pub fn clone_strings(v: &Vec<String>) -> (r: Vec<String>)
    ensures
        string_views(r@) == string_views(v@),
{
    let mut r: Vec<String> = Vec::new();
    let mut i: usize = 0;
    while i < v.len()
        invariant
            i <= v.len(),
            string_views(r@) == string_views(v@).take(i as int),
        decreases v.len() - i,
    {
        let c = v[i].clone();
        let ghost old_r = r@;
        assert(string_views(old_r).len() == i);
        assert(c@ == v@[i as int]@);
        r.push(c);
        assert(r@[i as int] == c);
        assert forall|m: int| 0 <= m < i + 1 implies string_views(r@)[m] == string_views(v@)[m] by {
            if m < i {
                assert(string_views(old_r)[m] == string_views(v@).take(i as int)[m]);
            }
        }
        i = i + 1;
        assert(string_views(r@) =~= string_views(v@).take(i as int));
    }
    assert(string_views(v@).take(i as int) =~= string_views(v@));
    r
}

/// Whether `v` holds a string equal to `s`.
pub fn contains_string(v: &Vec<String>, s: &str) -> (b: bool)
    ensures
        b == string_views(v@).contains(s@),
{
    let mut i: usize = 0;
    while i < v.len()
        invariant
            i <= v.len(),
            forall|j: int| 0 <= j < i ==> string_views(v@)[j] != s@,
        decreases v.len() - i,
    {
        if crate::text::str_eq(v[i].as_str(), s) {
            assert(string_views(v@)[i as int] == s@);
            return true;
        }
        i = i + 1;
    }
    false
}

/// A setting after trimming, or `None` when nothing but whitespace is left.
pub open spec fn nonblank_spec(s: Seq<char>) -> Option<Seq<char>> {
    if trim_spec(s).len() == 0 {
        None
    } else {
        Some(trim_spec(s))
    }
}

fn nonblank(s: &String) -> (r: Option<String>)
    ensures
        opt_view(r) == nonblank_spec(s@),
{
    let t = trim(&chars_of(s.as_str()));
    if t.len() == 0 {
        None
    } else {
        Some(string_from(&t))
    }
}

/// The extensions installed with VSCode by default.
pub open spec fn default_extensions_spec() -> Seq<Seq<char>> {
    seq![
        "ms-python.python"@,
        "ms-python.vscode-pylance"@,
        "ms-python.debugpy"@,
        "charliermarsh.ruff"@,
        "ms-toolsai.jupyter"@,
    ]
}

pub fn default_extensions() -> (v: Vec<String>)
    ensures
        string_views(v@) == default_extensions_spec(),
{
    let mut v: Vec<String> = Vec::new();
    v.push("ms-python.python".to_string());
    v.push("ms-python.vscode-pylance".to_string());
    v.push("ms-python.debugpy".to_string());
    v.push("charliermarsh.ruff".to_string());
    v.push("ms-toolsai.jupyter".to_string());
    assert(string_views(v@) =~= default_extensions_spec());
    v
}

impl ProxyConfig {
    /// No HTTP and no HTTPS proxy is set (the no-proxy list does not count).
    pub fn is_empty(&self) -> (b: bool)
        ensures
            b == (trim_spec(self.http@).len() == 0 && trim_spec(self.https@).len() == 0),
    {
        trim(&chars_of(self.http.as_str())).len() == 0 && trim(
            &chars_of(self.https.as_str()),
        ).len() == 0
    }

    /// Prefer an explicit https proxy, else fall back to the http one.
    pub fn https_or_http(&self) -> (r: Option<String>)
        ensures
            opt_view(r) == (match nonblank_spec(self.https@) {
                Some(h) => Some(h),
                None => nonblank_spec(self.http@),
            }),
    {
        match nonblank(&self.https) {
            Some(h) => Some(h),
            None => nonblank(&self.http),
        }
    }

    pub fn http_opt(&self) -> (r: Option<String>)
        ensures
            opt_view(r) == nonblank_spec(self.http@),
    {
        nonblank(&self.http)
    }

    pub fn https_opt(&self) -> (r: Option<String>)
        ensures
            opt_view(r) == nonblank_spec(self.https@),
    {
        nonblank(&self.https)
    }

    pub fn no_proxy_opt(&self) -> (r: Option<String>)
        ensures
            opt_view(r) == nonblank_spec(self.no_proxy@),
    {
        nonblank(&self.no_proxy)
    }
}

impl Default for ProxyConfig {
    fn default() -> (p: ProxyConfig)
        ensures
            p.http@ == Seq::<char>::empty(),
            p.https@ == Seq::<char>::empty(),
            p.no_proxy@ == Seq::<char>::empty(),
    {
        ProxyConfig { http: String::new(), https: String::new(), no_proxy: String::new() }
    }
}

impl Default for UvConfig {
    fn default() -> (u: UvConfig)
        ensures
            u.version@ == "latest"@,
    {
        UvConfig { version: "latest".to_string() }
    }
}

impl Default for PythonConfig {
    fn default() -> (p: PythonConfig)
        ensures
            p.version@ == "latest"@,
            p.set_default,
    {
        PythonConfig { version: "latest".to_string(), set_default: true }
    }
}

impl Default for VscodeConfig {
    fn default() -> (v: VscodeConfig)
        ensures
            v.install,
            string_views(v.extensions@) == default_extensions_spec(),
    {
        VscodeConfig { install: true, extensions: default_extensions() }
    }
}

impl Default for PathConfig {
    fn default() -> (p: PathConfig)
        ensures
            p.update,
            string_views(p.shells@) == seq!["bashrc"@],
    {
        let mut shells: Vec<String> = Vec::new();
        shells.push("bashrc".to_string());
        assert(string_views(shells@) =~= seq!["bashrc"@]);
        PathConfig { update: true, shells }
    }
}

/// `c` holds the default settings.
pub open spec fn is_default_config(c: Config) -> bool {
    &&& c.language@ == "zh-CN"@
    &&& !c.reinstall_existing
    &&& c.proxy.http@ == Seq::<char>::empty()
    &&& c.proxy.https@ == Seq::<char>::empty()
    &&& c.proxy.no_proxy@ == Seq::<char>::empty()
    &&& c.uv.version@ == "latest"@
    &&& c.python.version@ == "latest"@
    &&& c.python.set_default
    &&& c.vscode.install
    &&& string_views(c.vscode.extensions@) == default_extensions_spec()
    &&& c.path.update
    &&& string_views(c.path.shells@) == seq!["bashrc"@]
}

impl Default for Config {
    fn default() -> (c: Config)
        ensures
            is_default_config(c),
    {
        Config {
            language: "zh-CN".to_string(),
            reinstall_existing: false,
            proxy: ProxyConfig::default(),
            uv: UvConfig::default(),
            python: PythonConfig::default(),
            vscode: VscodeConfig::default(),
            path: PathConfig::default(),
        }
    }
}

impl Config {
    /// The loaded configuration, or the defaults when there was none to load
    /// (the file is missing or does not parse).
    pub fn load_or_default(loaded: Option<Config>) -> (c: Config)
        ensures
            match loaded {
                Some(l) => c == l,
                None => is_default_config(c),
            },
    {
        match loaded {
            Some(l) => l,
            None => Config::default(),
        }
    }
}


/// The persisted GUI configuration under the configuration directory `base`:
/// `<base>/pydev/config.toml`.
pub open spec fn config_path_spec(os: Os, base: Seq<char>) -> Seq<char> {
    join_spec(os, join_spec(os, base, "pydev"@), "config.toml"@)
}

/// The base directory of the persisted config: the configuration directory
/// the system reports, or "." when it reports none.
pub open spec fn config_base_spec(base: Option<Seq<char>>) -> Seq<char> {
    match base {
        Some(b) => b,
        None => "."@,
    }
}

/// The persisted GUI config path for the configuration directory `base` the
/// system reported (`None` when it reported none).
pub fn config_path_for(os: Os, base: Option<String>) -> (p: String)
    ensures
        p@ == config_path_spec(os, config_base_spec(opt_view(base))),
{
    let b = match base {
        Some(b) => b,
        None => ".".to_string(),
    };
    proof {
        reveal_strlit(".");
    }
    let a = join(os, b.as_str(), "pydev");
    join(os, a.as_str(), "config.toml")
}

/// Default location for the persisted GUI config (under "." when the system
/// reports no configuration directory).
pub fn default_config_path(os: Os) -> (p: String)
    ensures
        exists|base: Seq<char>| p@ == #[trigger] config_path_spec(os, base),
{
    let base = config_dir();
    let p = config_path_for(os, base);
    assert(p@ == config_path_spec(os, config_base_spec(opt_view(base))));
    p
}

} // verus!
