//! Visual Studio Code and its `code` launcher.

use vstd::prelude::*;

use crate::config::string_views;
use crate::error::Error;
use crate::platform::{
    bin_dir_for, bin_dir_spec, data_local_dir, home_dir, join, join_spec, no_home_message,
    opt_dir_for, opt_dir_spec, path_exists, unsupported_arch_message, vscode_archive_ext,
    vscode_archive_ext_spec, vscode_download_url, vscode_download_url_spec, vscode_slug_spec, Os,
};
use crate::runner::{command_is, pair_views, push_str, CommandLine};
use crate::text::{chars_of, concat, starts_with};

verus! {

broadcast use vstd::string::group_string_axioms;

/// The program and arguments that run the `code` launcher `code` with `args`:
/// through `cmd /C` on Windows, where the launcher is a `.cmd` shim.
pub open spec fn code_program_spec(os: Os, code: Seq<char>) -> Seq<char> {
    if os == Os::Windows {
        "cmd"@
    } else {
        code
    }
}

pub open spec fn code_args_spec(os: Os, code: Seq<char>, args: Seq<Seq<char>>) -> Seq<Seq<char>> {
    if os == Os::Windows {
        seq!["/C"@, code] + args
    } else {
        args
    }
}

/// The command that runs the `code` CLI with `args` (no extra environment).
pub fn capture_code(os: Os, code_bin: &str, args: &Vec<String>) -> (c: CommandLine)
    ensures
        command_is(
            c,
            code_program_spec(os, code_bin@),
            code_args_spec(os, code_bin@, string_views(args@)),
            Seq::empty(),
        ),
{
    let mut full: Vec<String> = Vec::new();
    if os == Os::Windows {
        push_str(&mut full, "/C");
        push_str(&mut full, code_bin);
    }
    let ghost base = string_views(full@);
    let mut i: usize = 0;
    while i < args.len()
        invariant
            i <= args.len(),
            string_views(full@) == base + string_views(args@).take(i as int),
        decreases args.len() - i,
    {
        push_str(&mut full, args[i].as_str());
        i = i + 1;
        assert(string_views(full@) =~= base + string_views(args@).take(i as int));
    }
    assert(string_views(args@).take(i as int) =~= string_views(args@));
    let program = if os == Os::Windows {
        "cmd".to_string()
    } else {
        code_bin.to_string()
    };
    let c = CommandLine { program, args: full, envs: Vec::new() };
    assert(pair_views(c.envs@) =~= Seq::<(Seq<char>, Seq<char>)>::empty());
    assert(string_views(c.args@) =~= code_args_spec(os, code_bin@, string_views(args@)));
    c
}

/// Where the Windows installer puts the `code` launcher, under the local
/// application-data directory.
pub open spec fn windows_code_spec(local: Seq<char>) -> Seq<char> {
    join_spec(
        Os::Windows,
        join_spec(
            Os::Windows,
            join_spec(Os::Windows, join_spec(Os::Windows, local, "Programs"@), "Microsoft VS Code"@),
            "bin"@,
        ),
        "code.cmd"@,
    )
}

fn windows_code(local: &str) -> (p: String)
    ensures
        p@ == windows_code_spec(local@),
{
    let a = join(Os::Windows, local, "Programs");
    let b = join(Os::Windows, a.as_str(), "Microsoft VS Code");
    let c = join(Os::Windows, b.as_str(), "bin");
    join(Os::Windows, c.as_str(), "code.cmd")
}

/// The `code` link in the user bin directory (Unix).
pub open spec fn code_link_spec(os: Os, home: Seq<char>) -> Seq<char> {
    join_spec(os, bin_dir_spec(os, home), "code"@)
}

/// Where the `code` launcher is: under the local application data `d` on
/// Windows, in the user bin directory of the home `d` elsewhere.
pub open spec fn code_location(os: Os, d: Seq<char>) -> Seq<char> {
    if os == Os::Windows {
        windows_code_spec(d)
    } else {
        code_link_spec(os, d)
    }
}

/// Where the `code` launcher is under `dir`: the local application data on
/// Windows, the home directory elsewhere.
pub fn code_path_for(os: Os, dir: &str) -> (p: String)
    ensures
        p@ == code_location(os, dir@),
{
    if os == Os::Windows {
        windows_code(dir)
    } else {
        let bin = bin_dir_for(os, dir);
        join(os, bin.as_str(), "code")
    }
}

/// The launcher under `dir` when a file was found there (`exists`).
pub fn locate_in(os: Os, dir: &str, exists: bool) -> (r: Option<String>)
    ensures
        exists ==> (r matches Some(p) && p@ == code_location(os, dir@)),
        !exists ==> r is None,
{
    if exists {
        Some(code_path_for(os, dir))
    } else {
        None
    }
}

/// Best-effort lookup of an already-installed `code` launcher: on Windows
/// under the local application data, elsewhere in the user bin directory.
/// A path is returned only where a file was found.
pub fn locate_code(os: Os) -> (r: Option<String>)
    ensures
        r matches Some(p) ==> exists|d: Seq<char>| p@ == #[trigger] code_location(os, d),
{
    let dir = if os == Os::Windows {
        data_local_dir()?
    } else {
        match home_dir() {
            Ok(h) => h,
            Err(_) => {
                return None;
            },
        }
    };
    let p = code_path_for(os, dir.as_str());
    let e = path_exists(p.as_str());
    let r = locate_in(os, dir.as_str(), e);
    assert(r matches Some(q) ==> q@ == code_location(os, dir@));
    r
}

/// A file to download.
#[derive(Debug, Clone, PartialEq, Eq)]
pub struct Download {
    pub url: String,
    pub dest: String,
}

/// Where the VSCode payload is saved, in the temporary directory `temp`.
pub open spec fn payload_path_spec(os: Os, temp: Seq<char>) -> Seq<char> {
    join_spec(os, temp, "pydev-vscode."@ + vscode_archive_ext_spec(os))
}

/// How to install VSCode on each system. The payload is downloaded first.
#[derive(Debug, Clone, PartialEq, Eq)]
pub enum VscodeInstall {
    /// Run the downloaded installer silently; the launcher is then found with
    /// `windows_code_path`.
    Windows { download: Download, installer: CommandLine },
    /// Create `apps_dir`, extract the app into it, then link `link` to
    /// `code_real`.
    MacOS {
        download: Download,
        apps_dir: String,
        extract: CommandLine,
        code_real: String,
        link: String,
    },
    /// Create `opt_dir`, extract the tarball into it, then find the extracted
    /// directory with `linux_code_paths`.
    Linux { download: Download, opt_dir: String, extract: CommandLine, bin_dir: String },
}

/// The message when the local application-data directory is unknown.
pub open spec fn no_local_data_message() -> Seq<char> {
    "could not resolve %LOCALAPPDATA%"@
}

/// The VSCode installation for the system `os`, the architecture `arch`,
/// the temporary directory `temp`, and the home directories `h1` (for the
/// apps or payload directory) and `h2` (for the user bin directory).
pub open spec fn vscode_install_holds(
    os: Os,
    arch: Seq<char>,
    temp: Seq<char>,
    h1: Seq<char>,
    h2: Seq<char>,
    v: VscodeInstall,
) -> bool {
    let slug = vscode_slug_spec(os, arch)->0;
    let dl_ok = |d: Download|
        d.url@ == vscode_download_url_spec(slug) && d.dest@ == payload_path_spec(os, temp);
    match v {
        VscodeInstall::Windows { download, installer } => {
            &&& os == Os::Windows
            &&& dl_ok(download)
            &&& command_is(
                installer,
                download.dest@,
                seq!["/VERYSILENT"@, "/NORESTART"@, "/MERGETASKS=!runcode"@],
                Seq::empty(),
            )
        },
        VscodeInstall::MacOS { download, apps_dir, extract, code_real, link } => {
            &&& os == Os::MacOS
            &&& dl_ok(download)
            &&& apps_dir@ == join_spec(os, h1, "Applications"@)
            &&& command_is(
                extract,
                "ditto"@,
                seq!["-x"@, "-k"@, download.dest@, apps_dir@],
                Seq::empty(),
            )
            &&& code_real@ == join_spec(
                os,
                join_spec(os, apps_dir@, "Visual Studio Code.app"@),
                "Contents/Resources/app/bin/code"@,
            )
            &&& link@ == code_link_spec(os, h2)
        },
        VscodeInstall::Linux { download, opt_dir, extract, bin_dir } => {
            &&& os == Os::Linux
            &&& dl_ok(download)
            &&& opt_dir@ == opt_dir_spec(os, h1)
            &&& command_is(
                extract,
                "tar"@,
                seq!["-xzf"@, download.dest@, "-C"@, opt_dir@],
                Seq::empty(),
            )
            &&& bin_dir@ == bin_dir_spec(os, h2)
        },
    }
}

/// The VSCode installation for the architecture `arch`, the temporary
/// directory `temp_dir` and the home directory `home` (which Windows does
/// not use). Refused for an architecture with no build.
pub fn install_for(os: Os, arch: &str, temp_dir: &str, home: &str) -> (r: Result<VscodeInstall, Error>)
    ensures
        match r {
            Ok(v) => vscode_slug_spec(os, arch@) is Some && vscode_install_holds(
                os,
                arch@,
                temp_dir@,
                home@,
                home@,
                v,
            ),
            Err(e) => vscode_slug_spec(os, arch@) is None && (e matches Error::Unsupported(m)
                && m@ == unsupported_arch_message(os, arch@)),
        },
{
    let url = vscode_download_url(os, arch)?;
    let name = concat("pydev-vscode.", vscode_archive_ext(os));
    let dest = join(os, temp_dir, name.as_str());
    let download = Download { url, dest };
    let ghost slug = vscode_slug_spec(os, arch@)->0;
    assert(download.url@ == vscode_download_url_spec(slug));
    match os {
        Os::Windows => {
            let mut args: Vec<String> = Vec::new();
            push_str(&mut args, "/VERYSILENT");
            push_str(&mut args, "/NORESTART");
            push_str(&mut args, "/MERGETASKS=!runcode");
            let installer = CommandLine {
                program: download.dest.clone(),
                args,
                envs: Vec::new(),
            };
            assert(string_views(installer.args@) =~= seq![
                "/VERYSILENT"@,
                "/NORESTART"@,
                "/MERGETASKS=!runcode"@,
            ]);
            assert(pair_views(installer.envs@) =~= Seq::<(Seq<char>, Seq<char>)>::empty());
            let v = VscodeInstall::Windows { download, installer };
            assert(vscode_install_holds(os, arch@, temp_dir@, home@, home@, v));
            let r: Result<VscodeInstall, Error> = Ok(v);
            r
        },
        Os::MacOS => {
            let apps_dir = join(os, home, "Applications");
            let mut args: Vec<String> = Vec::new();
            push_str(&mut args, "-x");
            push_str(&mut args, "-k");
            push_str(&mut args, download.dest.as_str());
            push_str(&mut args, apps_dir.as_str());
            let extract = CommandLine { program: "ditto".to_string(), args, envs: Vec::new() };
            assert(string_views(extract.args@) =~= seq![
                "-x"@,
                "-k"@,
                download.dest@,
                apps_dir@,
            ]);
            assert(pair_views(extract.envs@) =~= Seq::<(Seq<char>, Seq<char>)>::empty());
            let app = join(os, apps_dir.as_str(), "Visual Studio Code.app");
            let code_real = join(os, app.as_str(), "Contents/Resources/app/bin/code");
            let bin = bin_dir_for(os, home);
            let link = join(os, bin.as_str(), "code");
            let v = VscodeInstall::MacOS { download, apps_dir, extract, code_real, link };
            assert(vscode_install_holds(os, arch@, temp_dir@, home@, home@, v));
            let r: Result<VscodeInstall, Error> = Ok(v);
            r
        },
        Os::Linux => {
            let opt_dir = opt_dir_for(os, home);
            let mut args: Vec<String> = Vec::new();
            push_str(&mut args, "-xzf");
            push_str(&mut args, download.dest.as_str());
            push_str(&mut args, "-C");
            push_str(&mut args, opt_dir.as_str());
            let extract = CommandLine { program: "tar".to_string(), args, envs: Vec::new() };
            assert(string_views(extract.args@) =~= seq![
                "-xzf"@,
                download.dest@,
                "-C"@,
                opt_dir@,
            ]);
            assert(pair_views(extract.envs@) =~= Seq::<(Seq<char>, Seq<char>)>::empty());
            let bin_dir = bin_dir_for(os, home);
            let v = VscodeInstall::Linux { download, opt_dir, extract, bin_dir };
            assert(vscode_install_holds(os, arch@, temp_dir@, home@, home@, v));
            let r: Result<VscodeInstall, Error> = Ok(v);
            r
        },
    }
}

/// Install the latest stable VSCode for the system. `arch` is the
/// architecture name and `temp_dir` the temporary directory. Outside
/// Windows the apps, payload and bin directories are under the home
/// directory.
pub fn install(os: Os, arch: &str, temp_dir: &str) -> (r: Result<VscodeInstall, Error>)
    ensures
        match r {
            Ok(v) => vscode_slug_spec(os, arch@) is Some && exists|h: Seq<char>|
                #[trigger] vscode_install_holds(os, arch@, temp_dir@, h, h, v),
            Err(e) => match vscode_slug_spec(os, arch@) {
                None => e matches Error::Unsupported(m) && m@ == unsupported_arch_message(
                    os,
                    arch@,
                ),
                Some(_) => os != Os::Windows && (e matches Error::Msg(m) && m@
                    == no_home_message()),
            },
        },
{
    if os == Os::Windows {
        let r = install_for(os, arch, temp_dir, temp_dir);
        assert(r matches Ok(v) ==> vscode_install_holds(os, arch@, temp_dir@, temp_dir@, temp_dir@, v));
        return r;
    }
    let _url = vscode_download_url(os, arch)?;
    let home = home_dir()?;
    let r = install_for(os, arch, temp_dir, home.as_str());
    assert(r matches Ok(v) ==> vscode_install_holds(os, arch@, temp_dir@, home@, home@, v));
    r
}

/// After the Windows installer ran: the `code` launcher under the local
/// application data (`local`, as the system reports it).
pub fn windows_code_path(local: Option<String>) -> (r: Result<String, Error>)
    ensures
        match local {
            Some(l) => r matches Ok(p) && p@ == windows_code_spec(l@),
            None => r matches Err(e) && e matches Error::Msg(m) && m@ == no_local_data_message(),
        },
{
    match local {
        Some(l) => Ok(windows_code(l.as_str())),
        None => Err(Error::msg("could not resolve %LOCALAPPDATA%".to_string())),
    }
}

/// The first of the entry names that starts with "VSCode-linux".
pub open spec fn first_vscode_dir(names: Seq<Seq<char>>) -> Option<int>
    decreases names.len(),
{
    if names.len() == 0 {
        None
    } else if "VSCode-linux"@.is_prefix_of(names[0]) {
        Some(0)
    } else {
        match first_vscode_dir(names.drop_first()) {
            Some(k) => Some(k + 1),
            None => None,
        }
    }
}

/// The message when the extracted directory is missing.
pub open spec fn no_extracted_dir_message() -> Seq<char> {
    "could not find the extracted VSCode directory"@
}

/// After extracting the tarball on Linux: the tarball unpacks to a
/// `VSCode-linux-<arch>` directory among the entries (`names`, in the order
/// the directory lists them) of `opt_dir`. Returns the launcher inside it and
/// the link to create in `bin_dir`.
pub fn linux_code_paths(opt_dir: &str, names: &Vec<String>, bin_dir: &str) -> (r: Result<(String, String), Error>)
    ensures
        match first_vscode_dir(string_views(names@)) {
            Some(k) => r matches Ok((code_real, link)) && code_real@ == join_spec(
                Os::Linux,
                join_spec(Os::Linux, join_spec(Os::Linux, opt_dir@, string_views(names@)[k]), "bin"@),
                "code"@,
            ) && link@ == join_spec(Os::Linux, bin_dir@, "code"@),
            None => r matches Err(e) && e matches Error::Msg(m) && m@ == no_extracted_dir_message(),
        },
{
    let ghost ns = string_views(names@);
    let prefix = chars_of("VSCode-linux");
    let mut i: usize = 0;
    assert(ns.skip(0) =~= ns);
    while i < names.len()
        invariant
            i <= names.len(),
            ns == string_views(names@),
            prefix@ == "VSCode-linux"@,
            first_vscode_dir(ns) == (match first_vscode_dir(ns.skip(i as int)) {
                Some(k) => Some(k + i),
                None => None,
            }),
        decreases names.len() - i,
    {
        assert(ns.skip(i as int)[0] == names[i as int]@);
        if starts_with(&chars_of(names[i].as_str()), &prefix) {
            let dir = join(Os::Linux, opt_dir, names[i].as_str());
            let b = join(Os::Linux, dir.as_str(), "bin");
            let code_real = join(Os::Linux, b.as_str(), "code");
            let link = join(Os::Linux, bin_dir, "code");
            return Ok((code_real, link));
        }
        assert(ns.skip(i as int).drop_first() =~= ns.skip(i + 1));
        i = i + 1;
    }
    Err(Error::msg("could not find the extracted VSCode directory".to_string()))
}


/// The `code` launcher that installing VSCode provides is where
/// `locate_code` looks for it and sits in a directory that the PATH update
/// adds, for every home and local application-data directory: outside
/// Windows the link is `code` in the user bin directory (the first PATH
/// entry); on Windows the launcher is `code.cmd` in the VSCode bin directory
/// (the second PATH entry, when the local application data is known).
pub proof fn vscode_launcher_on_path(
    os: Os,
    arch: Seq<char>,
    temp: Seq<char>,
    home: Seq<char>,
    local: Seq<char>,
    v: VscodeInstall,
)
    requires
        vscode_install_holds(os, arch, temp, home, home, v),
    ensures
        match v {
            VscodeInstall::MacOS { link, .. } => link@ == code_location(os, home) && link@
                == join_spec(os, crate::pathenv::path_entries_spec(os, home, None)[0], "code"@),
            VscodeInstall::Linux { bin_dir, .. } => bin_dir@ == crate::pathenv::path_entries_spec(
                os,
                home,
                None,
            )[0] && join_spec(os, bin_dir@, "code"@) == code_location(os, home),
            VscodeInstall::Windows { .. } => windows_code_spec(local) == code_location(os, local)
                && windows_code_spec(local) == join_spec(
                os,
                crate::pathenv::path_entries_spec(os, home, Some(local))[1],
                "code.cmd"@,
            ),
        },
{
}

} // verus!
