//! The operating system, its directories and the per-platform download names.

use vstd::prelude::*;

use crate::error::Error;
use crate::text::{concat, str_eq};

verus! {

broadcast use vstd::string::group_string_axioms;

#[derive(Debug, Clone, Copy, PartialEq, Eq, Structural)]
pub enum Os {
    Windows,
    MacOS,
    Linux,
}

/// The operating system for a target name as `std::env::consts::OS` gives
/// it: "windows", "macos", and every other system counts as Linux.
pub open spec fn current_os_spec(target_os: Seq<char>) -> Os {
    if target_os == "windows"@ {
        Os::Windows
    } else if target_os == "macos"@ {
        Os::MacOS
    } else {
        Os::Linux
    }
}

pub fn current_os(target_os: &str) -> (os: Os)
    ensures
        os == current_os_spec(target_os@),
{
    if str_eq(target_os, "windows") {
        Os::Windows
    } else if str_eq(target_os, "macos") {
        Os::MacOS
    } else {
        Os::Linux
    }
}

pub open spec fn os_key_spec(os: Os) -> Seq<char> {
    match os {
        Os::Windows => "windows"@,
        Os::MacOS => "macos"@,
        Os::Linux => "linux"@,
    }
}

pub fn os_key(os: Os) -> (k: &'static str)
    ensures
        k@ == os_key_spec(os),
{
    match os {
        Os::Windows => "windows",
        Os::MacOS => "macos",
        Os::Linux => "linux",
    }
}

/// `dirs::home_dir`, as a string. It reads the environment (or the system's
/// user database), so nothing is claimed of the result.
#[verifier::external_body]
fn home_dir_raw() -> (r: Option<String>) {
    dirs::home_dir().map(|p| p.to_string_lossy().to_string())
}

/// `dirs::data_local_dir`, as a string. It reads the environment, so nothing
/// is claimed of the result.
#[verifier::external_body]
pub(crate) fn data_local_dir() -> (r: Option<String>) {
    dirs::data_local_dir().map(|p| p.to_string_lossy().to_string())
}

/// `dirs::config_dir`, as a string. It reads the environment, so nothing is
/// claimed of the result.
#[verifier::external_body]
pub(crate) fn config_dir() -> (r: Option<String>) {
    dirs::config_dir().map(|p| p.to_string_lossy().to_string())
}

/// `std::path::Path::exists`. It reads the file system, so nothing is
/// claimed of the result.
#[verifier::external_body]
pub(crate) fn path_exists(p: &str) -> (b: bool) {
    std::path::Path::new(p).exists()
}

/// The message of a missing home directory.
pub open spec fn no_home_message() -> Seq<char> {
    "could not determine the home directory"@
}

/// The home directory, when the system reports one.
pub fn home_dir() -> (r: Result<String, Error>)
    ensures
        r matches Err(e) ==> e matches Error::Msg(m) && m@ == no_home_message(),
{
    match home_dir_raw() {
        Some(h) => Ok(h),
        None => Err(Error::msg("could not determine the home directory".to_string())),
    }
}

/// A path separator of the system.
pub open spec fn is_path_sep(os: Os, c: char) -> bool {
    c == '/' || (os == Os::Windows && c == '\\')
}

/// The separator that joining inserts.
pub open spec fn main_sep(os: Os) -> char {
    if os == Os::Windows {
        '\\'
    } else {
        '/'
    }
}

/// A bare Windows drive such as "C:".
pub open spec fn is_bare_drive(os: Os, base: Seq<char>) -> bool {
    os == Os::Windows && base.len() == 2 && base[1] == ':' && (('a' <= base[0] && base[0] <= 'z')
        || ('A' <= base[0] && base[0] <= 'Z'))
}

/// `Path::join` with a relative component: a separator goes between the two
/// unless `base` is empty, already ends with one, or is a bare Windows drive.
pub open spec fn join_spec(os: Os, base: Seq<char>, part: Seq<char>) -> Seq<char> {
    if base.len() == 0 || is_path_sep(os, base.last()) || is_bare_drive(os, base) {
        base + part
    } else {
        base.push(main_sep(os)) + part
    }
}

pub fn join(os: Os, base: &str, part: &str) -> (r: String)
    ensures
        r@ == join_spec(os, base@, part@),
{
    let b = crate::text::chars_of(base);
    let n = b.len();
    if n == 0 {
        return concat(base, part);
    }
    let last = b[n - 1];
    assert(last == base@.last());
    let bare_drive = os == Os::Windows && n == 2 && b[1] == ':' && (('a' <= b[0] && b[0] <= 'z')
        || ('A' <= b[0] && b[0] <= 'Z'));
    if last == '/' || (os == Os::Windows && last == '\\') || bare_drive {
        concat(base, part)
    } else {
        let mut s = base.to_string();
        if os == Os::Windows {
            s.push('\\');
        } else {
            s.push('/');
        }
        s.append(part);
        s
    }
}

/// The directory where uv and the Python shims are installed, under `home`:
/// `~/.local/bin` (`%USERPROFILE%\.local\bin` on Windows).
pub open spec fn bin_dir_spec(os: Os, home: Seq<char>) -> Seq<char> {
    join_spec(os, join_spec(os, home, ".local"@), "bin"@)
}

/// The directory for larger payloads such as the extracted VSCode, under
/// `home`: `~/.local/opt`.
pub open spec fn opt_dir_spec(os: Os, home: Seq<char>) -> Seq<char> {
    join_spec(os, join_spec(os, home, ".local"@), "opt"@)
}

/// The user bin directory under the home directory `home`.
pub fn bin_dir_for(os: Os, home: &str) -> (d: String)
    ensures
        d@ == bin_dir_spec(os, home@),
{
    let local = join(os, home, ".local");
    join(os, local.as_str(), "bin")
}

/// The user opt directory under the home directory `home`.
pub fn opt_dir_for(os: Os, home: &str) -> (d: String)
    ensures
        d@ == opt_dir_spec(os, home@),
{
    let local = join(os, home, ".local");
    join(os, local.as_str(), "opt")
}

/// Directory where user-level executables live and where uv and the Python
/// shims are installed. Added to PATH.
pub fn user_bin_dir(os: Os) -> (r: Result<String, Error>)
    ensures
        match r {
            Ok(d) => exists|h: Seq<char>| d@ == bin_dir_spec(os, h),
            Err(e) => e matches Error::Msg(m) && m@ == no_home_message(),
        },
{
    let home = home_dir()?;
    let d = bin_dir_for(os, home.as_str());
    assert(d@ == bin_dir_spec(os, home@));
    Ok(d)
}

/// Directory for larger user-level payloads (`~/.local/opt`).
pub fn user_opt_dir(os: Os) -> (r: Result<String, Error>)
    ensures
        match r {
            Ok(d) => exists|h: Seq<char>| d@ == opt_dir_spec(os, h),
            Err(e) => e matches Error::Msg(m) && m@ == no_home_message(),
        },
{
    let home = home_dir()?;
    let d = opt_dir_for(os, home.as_str());
    assert(d@ == opt_dir_spec(os, home@));
    Ok(d)
}

pub open spec fn uv_exe_name_spec(os: Os) -> Seq<char> {
    if os == Os::Windows {
        "uv.exe"@
    } else {
        "uv"@
    }
}

pub fn uv_exe_name(os: Os) -> (n: &'static str)
    ensures
        n@ == uv_exe_name_spec(os),
{
    if os == Os::Windows {
        "uv.exe"
    } else {
        "uv"
    }
}

/// The slug used by `https://update.code.visualstudio.com/latest/<slug>/stable`,
/// or `None` for an architecture with no build.
pub open spec fn vscode_slug_spec(os: Os, arch: Seq<char>) -> Option<Seq<char>> {
    match os {
        Os::Windows => if arch == "x86_64"@ {
            Some("win32-x64-user"@)
        } else if arch == "aarch64"@ {
            Some("win32-arm64-user"@)
        } else {
            None
        },
        Os::MacOS => Some("darwin-universal"@),
        Os::Linux => if arch == "x86_64"@ {
            Some("linux-x64"@)
        } else if arch == "aarch64"@ {
            Some("linux-arm64"@)
        } else if arch == "arm"@ {
            Some("linux-armhf"@)
        } else {
            None
        },
    }
}

/// The error for an architecture with no VSCode build.
pub open spec fn unsupported_arch_message(os: Os, arch: Seq<char>) -> Seq<char> {
    if os == Os::Windows {
        "windows arch "@ + arch
    } else {
        "linux arch "@ + arch
    }
}

/// The VSCode download slug for `os` and the architecture name `arch` (as
/// `std::env::consts::ARCH` gives it).
pub fn vscode_slug(os: Os, arch: &str) -> (r: Result<String, Error>)
    ensures
        match vscode_slug_spec(os, arch@) {
            Some(s) => r matches Ok(v) && v@ == s,
            None => r matches Err(e) && e matches Error::Unsupported(m) && m@
                == unsupported_arch_message(os, arch@),
        },
{
    match os {
        Os::Windows => {
            if str_eq(arch, "x86_64") {
                Ok("win32-x64-user".to_string())
            } else if str_eq(arch, "aarch64") {
                Ok("win32-arm64-user".to_string())
            } else {
                Err(Error::Unsupported(concat("windows arch ", arch)))
            }
        },
        Os::MacOS => Ok("darwin-universal".to_string()),
        Os::Linux => {
            if str_eq(arch, "x86_64") {
                Ok("linux-x64".to_string())
            } else if str_eq(arch, "aarch64") {
                Ok("linux-arm64".to_string())
            } else if str_eq(arch, "arm") {
                Ok("linux-armhf".to_string())
            } else {
                Err(Error::Unsupported(concat("linux arch ", arch)))
            }
        },
    }
}

/// Platform slug for the VSCode update JSON API. The reported version is the
/// same across platforms, so any valid slug works.
pub open spec fn vscode_update_platform_spec(os: Os, arch: Seq<char>) -> Seq<char> {
    match os {
        Os::Windows => if arch == "aarch64"@ {
            "win32-arm64"@
        } else {
            "win32-x64"@
        },
        Os::MacOS => "darwin"@,
        Os::Linux => if arch == "aarch64"@ {
            "linux-arm64"@
        } else {
            "linux-x64"@
        },
    }
}

pub fn vscode_update_platform(os: Os, arch: &str) -> (p: &'static str)
    ensures
        p@ == vscode_update_platform_spec(os, arch@),
{
    match os {
        Os::Windows => if str_eq(arch, "aarch64") {
            "win32-arm64"
        } else {
            "win32-x64"
        },
        Os::MacOS => "darwin",
        Os::Linux => if str_eq(arch, "aarch64") {
            "linux-arm64"
        } else {
            "linux-x64"
        },
    }
}

pub open spec fn vscode_download_url_spec(slug: Seq<char>) -> Seq<char> {
    "https://update.code.visualstudio.com/latest/"@ + slug + "/stable"@
}

pub fn vscode_download_url(os: Os, arch: &str) -> (r: Result<String, Error>)
    ensures
        match vscode_slug_spec(os, arch@) {
            Some(s) => r matches Ok(u) && u@ == vscode_download_url_spec(s),
            None => r matches Err(e) && e matches Error::Unsupported(m) && m@
                == unsupported_arch_message(os, arch@),
        },
{
    let slug = vscode_slug(os, arch)?;
    let a = concat("https://update.code.visualstudio.com/latest/", slug.as_str());
    Ok(concat(a.as_str(), "/stable"))
}

/// File extension used when saving the downloaded VSCode payload.
pub open spec fn vscode_archive_ext_spec(os: Os) -> Seq<char> {
    match os {
        Os::Windows => "exe"@,
        Os::MacOS => "zip"@,
        Os::Linux => "tar.gz"@,
    }
}

pub fn vscode_archive_ext(os: Os) -> (e: &'static str)
    ensures
        e@ == vscode_archive_ext_spec(os),
{
    match os {
        Os::Windows => "exe",
        Os::MacOS => "zip",
        Os::Linux => "tar.gz",
    }
}

} // verus!
