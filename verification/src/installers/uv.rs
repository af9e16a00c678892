//! The uv package manager.

use vstd::prelude::*;

use crate::config::{string_views, Config};
use crate::download::{proxy_envs, proxy_envs_spec};
use crate::error::Error;
use crate::platform::{
    bin_dir_for, bin_dir_spec, home_dir, join, join_spec, no_home_message, path_exists,
    user_bin_dir, uv_exe_name, uv_exe_name_spec, Os,
};
use crate::runner::{command_is, pair_views, push_pair, push_str, CommandLine};
use crate::text::{chars_of, concat, str_eq, string_from, trim, trim_spec};

verus! {

broadcast use vstd::string::group_string_axioms;

/// Where uv is installed for the home directory `home`.
pub open spec fn uv_path_spec(os: Os, home: Seq<char>) -> Seq<char> {
    join_spec(os, bin_dir_spec(os, home), uv_exe_name_spec(os))
}

/// Where uv is installed for the home directory `home`.
pub fn uv_path_for(os: Os, home: &str) -> (p: String)
    ensures
        p@ == uv_path_spec(os, home@),
{
    let bin = bin_dir_for(os, home);
    join(os, bin.as_str(), uv_exe_name(os))
}

/// Absolute path where the uv binary is (or will be) installed.
pub fn uv_binary_path(os: Os) -> (r: Result<String, Error>)
    ensures
        match r {
            Ok(p) => exists|h: Seq<char>| p@ == uv_path_spec(os, h),
            Err(e) => e matches Error::Msg(m) && m@ == no_home_message(),
        },
{
    let home = home_dir()?;
    let p = uv_path_for(os, home.as_str());
    assert(p@ == uv_path_spec(os, home@));
    Ok(p)
}

/// uv counts as installed when the home directory is known (`home_known`)
/// and a file exists where uv goes under it (`exists_at_uv_path`).
pub fn installed_for(home_known: bool, exists_at_uv_path: bool) -> (b: bool)
    ensures
        b == (home_known && exists_at_uv_path),
{
    home_known && exists_at_uv_path
}

/// uv is present where it is installed (false without a home directory).
pub fn is_installed(os: Os) -> (b: bool) {
    match home_dir() {
        Ok(h) => {
            let p = uv_path_for(os, h.as_str());
            let e = path_exists(p.as_str());
            installed_for(true, e)
        },
        Err(_) => installed_for(false, false),
    }
}

/// The environment of the uv installer and of `uv python install`: the proxy
/// variables, then deterministic install / executable directories (`bin`) so
/// the binaries land where PATH will point, and no PATH edits by uv itself.
pub open spec fn tool_envs_spec(cfg: Config, os: Os, bin: Seq<char>) -> Seq<(Seq<char>, Seq<char>)> {
    let base = proxy_envs_spec(cfg.proxy) + seq![
        ("UV_INSTALL_DIR"@, bin),
        ("UV_NO_MODIFY_PATH"@, "1"@),
    ];
    if os != Os::Windows {
        base.push(("XDG_BIN_HOME"@, bin))
    } else {
        base
    }
}

/// The uv tool environment for the home directory `home`.
pub fn tool_envs_for(cfg: &Config, os: Os, home: &str) -> (v: Vec<(String, String)>)
    ensures
        pair_views(v@) == tool_envs_spec(*cfg, os, bin_dir_spec(os, home@)),
{
    let mut envs = proxy_envs(&cfg.proxy);
    let bin = bin_dir_for(os, home);
    push_pair(&mut envs, "UV_INSTALL_DIR", bin.as_str());
    push_pair(&mut envs, "UV_NO_MODIFY_PATH", "1");
    if os != Os::Windows {
        push_pair(&mut envs, "XDG_BIN_HOME", bin.as_str());
    }
    assert(pair_views(envs@) =~= tool_envs_spec(*cfg, os, bin@));
    envs
}

pub fn tool_envs(cfg: &Config, os: Os) -> (r: Result<Vec<(String, String)>, Error>)
    ensures
        match r {
            Ok(v) => exists|h: Seq<char>| pair_views(v@) == tool_envs_spec(*cfg, os, bin_dir_spec(os, h)),
            Err(e) => e matches Error::Msg(m) && m@ == no_home_message(),
        },
{
    let home = home_dir()?;
    let envs = tool_envs_for(cfg, os, home.as_str());
    assert(pair_views(envs@) == tool_envs_spec(*cfg, os, bin_dir_spec(os, home@)));
    Ok(envs)
}

/// The official standalone installer script for a uv version ("latest" or
/// blank for the newest): the PowerShell script on Windows, the shell script
/// elsewhere.
pub open spec fn installer_url_spec(os: Os, version: Seq<char>) -> Seq<char> {
    let file = if os == Os::Windows {
        "install.ps1"@
    } else {
        "install.sh"@
    };
    if version.len() == 0 || version == "latest"@ {
        "https://astral.sh/uv/"@ + file
    } else {
        "https://astral.sh/uv/"@ + version + "/"@ + file
    }
}

/// Where the installer script is saved, in the temporary directory `temp`.
pub open spec fn script_path_spec(os: Os, temp: Seq<char>) -> Seq<char> {
    join_spec(
        os,
        temp,
        if os == Os::Windows {
            "pydev-uv-install.ps1"@
        } else {
            "pydev-uv-install.sh"@
        },
    )
}

/// The command that runs the saved installer script.
pub open spec fn script_command_holds(c: CommandLine, os: Os, script: Seq<char>, envs: Seq<(Seq<char>, Seq<char>)>) -> bool {
    if os == Os::Windows {
        command_is(
            c,
            "powershell"@,
            seq!["-NoProfile"@, "-ExecutionPolicy"@, "Bypass"@, "-File"@, script],
            envs,
        )
    } else {
        command_is(c, "sh"@, seq![script], envs)
    }
}

/// How to install uv: create `bin_dir`, download `url` to `script`, run
/// `command`, and then find uv at `uv_path`.
#[derive(Debug, Clone, PartialEq, Eq)]
pub struct UvInstall {
    pub bin_dir: String,
    pub url: String,
    pub script: String,
    pub command: CommandLine,
    pub uv_path: String,
}

/// The uv installation for `cfg` with the home directory `home` and the
/// temporary directory `temp`.
pub open spec fn uv_install_holds(cfg: Config, os: Os, temp: Seq<char>, home: Seq<char>, u: UvInstall) -> bool {
    let bin = bin_dir_spec(os, home);
    &&& u.bin_dir@ == bin
    &&& u.url@ == installer_url_spec(os, trim_spec(cfg.uv.version@))
    &&& u.script@ == script_path_spec(os, temp)
    &&& script_command_holds(u.command, os, u.script@, tool_envs_spec(cfg, os, bin))
    &&& u.uv_path@ == uv_path_spec(os, home)
}

/// Install (or reinstall) uv with the official standalone installer.
/// `temp_dir` is the system's temporary directory.
pub fn install(cfg: &Config, os: Os, temp_dir: &str) -> (r: Result<UvInstall, Error>)
    ensures
        match r {
            Ok(u) => exists|h: Seq<char>| #[trigger] uv_install_holds(*cfg, os, temp_dir@, h, u),
            Err(e) => e matches Error::Msg(m) && m@ == no_home_message(),
        },
{
    let home = home_dir()?;
    let u = install_for(cfg, os, temp_dir, home.as_str());
    let r: Result<UvInstall, Error> = Ok(u);
    assert(r matches Ok(q) && uv_install_holds(*cfg, os, temp_dir@, home@, q));
    r
}

/// The uv installation for the home directory `home` and the temporary
/// directory `temp_dir`.
pub fn install_for(cfg: &Config, os: Os, temp_dir: &str, home: &str) -> (u: UvInstall)
    ensures
        uv_install_holds(*cfg, os, temp_dir@, home@, u),
{
    let bin = bin_dir_for(os, home);
    let vc = trim(&chars_of(cfg.uv.version.as_str()));
    let version = string_from(&vc);
    let mut envs = proxy_envs(&cfg.proxy);
    push_pair(&mut envs, "UV_INSTALL_DIR", bin.as_str());
    push_pair(&mut envs, "UV_NO_MODIFY_PATH", "1");
    if os != Os::Windows {
        push_pair(&mut envs, "XDG_BIN_HOME", bin.as_str());
    }
    assert(pair_views(envs@) =~= tool_envs_spec(*cfg, os, bin@));
    let file = if os == Os::Windows {
        "install.ps1"
    } else {
        "install.sh"
    };
    let url = if vc.len() == 0 || str_eq(version.as_str(), "latest") {
        concat("https://astral.sh/uv/", file)
    } else {
        let a = concat("https://astral.sh/uv/", version.as_str());
        let b = concat(a.as_str(), "/");
        concat(b.as_str(), file)
    };
    let script = join(
        os,
        temp_dir,
        if os == Os::Windows {
            "pydev-uv-install.ps1"
        } else {
            "pydev-uv-install.sh"
        },
    );
    let mut args: Vec<String> = Vec::new();
    let program = if os == Os::Windows {
        push_str(&mut args, "-NoProfile");
        push_str(&mut args, "-ExecutionPolicy");
        push_str(&mut args, "Bypass");
        push_str(&mut args, "-File");
        push_str(&mut args, script.as_str());
        "powershell".to_string()
    } else {
        push_str(&mut args, script.as_str());
        "sh".to_string()
    };
    assert(string_views(args@) =~= (if os == Os::Windows {
        seq!["-NoProfile"@, "-ExecutionPolicy"@, "Bypass"@, "-File"@, script@]
    } else {
        seq![script@]
    }));
    let uv_path = join(os, bin.as_str(), uv_exe_name(os));
    let u = UvInstall {
        bin_dir: bin,
        url,
        script,
        command: CommandLine { program, args, envs },
        uv_path,
    };
    assert(bin@ == bin_dir_spec(os, home@));
    assert(u.url@ == installer_url_spec(os, trim_spec(cfg.uv.version@)));
    assert(u.script@ == script_path_spec(os, temp_dir@));
    assert(script_command_holds(u.command, os, u.script@, tool_envs_spec(*cfg, os, bin@)));
    assert(u.uv_path@ == uv_path_spec(os, home@));
    u
}

/// After the installer ran: uv must be at `uv_path`. `exists` says whether
/// it is. On success, the message to report.
pub open spec fn installed_check_spec(uv_path: Seq<char>, exists: bool) -> Result<Seq<char>, Seq<char>> {
    if exists {
        Ok("uv installed at "@ + uv_path)
    } else {
        Err("uv did not appear at "@ + uv_path + " after installation"@)
    }
}

pub fn installed_check(uv_path: &str, exists: bool) -> (r: Result<String, Error>)
    ensures
        match (r, installed_check_spec(uv_path@, exists)) {
            (Ok(m), Ok(s)) => m@ == s,
            (Err(e), Err(s)) => e matches Error::Msg(m) && m@ == s,
            _ => false,
        },
{
    if exists {
        Ok(concat("uv installed at ", uv_path))
    } else {
        let a = concat("uv did not appear at ", uv_path);
        Err(Error::msg(concat(a.as_str(), " after installation")))
    }
}

} // verus!
