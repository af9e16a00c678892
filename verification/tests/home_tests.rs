use pydev_core::config::{config_path_for, Config, ProxyConfig};
use pydev_core::error::Error;
use pydev_core::installers::extensions::{effective_list_with, install_list_outcome};
use pydev_core::installers::python::install_for as python_install_for;
use pydev_core::progress::{LogLevel, LogLine};
use pydev_core::installers::uv::{install_for as uv_install_for, installed_for, tool_envs_for, uv_path_for};
use pydev_core::installers::vscode::{code_path_for, install_for as vscode_install_for, locate_in, VscodeInstall};
use pydev_core::pathenv::{
    apply_for, apply_unix, entries_for, key_profile, windows_apply, windows_path_query, preview_for, profile_block, shell_targets_for, unix_status, ProfileAction,
    ShellKind, ShellTarget,
};
use pydev_core::platform::{bin_dir_for, join, opt_dir_for, Os};
use pydev_core::status::{
    ext_status_for, lookup_installed, lookup_latest, marketplace_lookup, marketplace_query, uv_latest_lookup,
    vscode_latest_lookup, InstalledExt, LatestExt,
};

fn strings(v: &[&str]) -> Vec<String> {
    v.iter().map(|x| x.to_string()).collect()
}

fn pairs(v: &[(&str, &str)]) -> Vec<(String, String)> {
    v.iter().map(|(a, b)| (a.to_string(), b.to_string())).collect()
}

#[test]
fn user_dirs_under_a_home() {
    assert_eq!(bin_dir_for(Os::Linux, "/home/u"), "/home/u/.local/bin");
    assert_eq!(bin_dir_for(Os::Linux, "/home/u/"), "/home/u/.local/bin");
    assert_eq!(bin_dir_for(Os::Windows, "C:\\Users\\u"), "C:\\Users\\u\\.local\\bin");
    assert_eq!(opt_dir_for(Os::MacOS, "/Users/u"), "/Users/u/.local/opt");
}

#[test]
fn config_path_under_a_base() {
    assert_eq!(config_path_for(Os::Linux, Some("/home/u/.config".to_string())), "/home/u/.config/pydev/config.toml");
    assert_eq!(config_path_for(Os::Linux, None), "./pydev/config.toml");
    assert_eq!(config_path_for(Os::Windows, Some("C:\\AppData".to_string())), "C:\\AppData\\pydev\\config.toml");
}

#[test]
fn uv_under_a_home() {
    assert_eq!(uv_path_for(Os::Linux, "/home/u"), "/home/u/.local/bin/uv");
    assert_eq!(uv_path_for(Os::Windows, "C:\\Users\\u"), "C:\\Users\\u\\.local\\bin\\uv.exe");
    let mut c = Config::default();
    c.proxy = ProxyConfig { http: "http://p".to_string(), https: String::new(), no_proxy: String::new() };
    assert_eq!(
        tool_envs_for(&c, Os::Linux, "/home/u"),
        pairs(&[
            ("HTTP_PROXY", "http://p"),
            ("http_proxy", "http://p"),
            ("ALL_PROXY", "http://p"),
            ("UV_INSTALL_DIR", "/home/u/.local/bin"),
            ("UV_NO_MODIFY_PATH", "1"),
            ("XDG_BIN_HOME", "/home/u/.local/bin"),
        ])
    );
    assert_eq!(
        tool_envs_for(&Config::default(), Os::Windows, "C:\\U"),
        pairs(&[("UV_INSTALL_DIR", "C:\\U\\.local\\bin"), ("UV_NO_MODIFY_PATH", "1")])
    );
    assert!(installed_for(true, true));
    assert!(!installed_for(true, false));
    assert!(!installed_for(false, true));
}

#[test]
fn uv_install_plan_under_a_home() {
    let u = uv_install_for(&Config::default(), Os::Linux, "/tmp", "/home/u");
    assert_eq!(u.bin_dir, "/home/u/.local/bin");
    assert_eq!(u.url, "https://astral.sh/uv/install.sh");
    assert_eq!(u.script, "/tmp/pydev-uv-install.sh");
    assert_eq!(u.command.program, "sh");
    assert_eq!(u.command.args, strings(&["/tmp/pydev-uv-install.sh"]));
    assert_eq!(u.command.envs, tool_envs_for(&Config::default(), Os::Linux, "/home/u"));
    assert_eq!(u.uv_path, "/home/u/.local/bin/uv");
}

#[test]
fn python_install_under_a_home() {
    let c = Config::default();
    let p = python_install_for(&c, Os::Linux, "/home/u", true).unwrap();
    assert_eq!(p.announce, "Installing Python (latest) via uv...");
    assert_eq!(p.command.program, "/home/u/.local/bin/uv");
    assert_eq!(p.command.args, strings(&["python", "install", "--default"]));
    assert_eq!(p.command.envs, tool_envs_for(&c, Os::Linux, "/home/u"));
    assert_eq!(p.done, "Python installed");
    let mut d = Config::default();
    d.python.version = " 3.12 ".to_string();
    d.python.set_default = false;
    let q = python_install_for(&d, Os::Linux, "/home/u", true).unwrap();
    assert_eq!(q.announce, "Installing Python (3.12) via uv...");
    assert_eq!(q.command.args, strings(&["python", "install", "3.12"]));
    assert_eq!(
        python_install_for(&c, Os::Linux, "/home/u", false),
        Err(Error::Msg("uv is not installed yet; install uv first".to_string()))
    );
}

#[test]
fn vscode_under_a_home() {
    match vscode_install_for(Os::MacOS, "aarch64", "/tmp", "/Users/u").unwrap() {
        VscodeInstall::MacOS { download, apps_dir, extract, code_real, link } => {
            assert_eq!(download.url, "https://update.code.visualstudio.com/latest/darwin-universal/stable");
            assert_eq!(apps_dir, "/Users/u/Applications");
            assert_eq!(extract.args, strings(&["-x", "-k", "/tmp/pydev-vscode.zip", "/Users/u/Applications"]));
            assert_eq!(code_real, "/Users/u/Applications/Visual Studio Code.app/Contents/Resources/app/bin/code");
            assert_eq!(link, "/Users/u/.local/bin/code");
        }
        _ => panic!("expected a macOS plan"),
    }
    match vscode_install_for(Os::Linux, "aarch64", "/tmp", "/home/u").unwrap() {
        VscodeInstall::Linux { opt_dir, bin_dir, .. } => {
            assert_eq!(opt_dir, "/home/u/.local/opt");
            assert_eq!(bin_dir, "/home/u/.local/bin");
        }
        _ => panic!("expected a Linux plan"),
    }
    assert_eq!(
        vscode_install_for(Os::Windows, "riscv64", "C:\\T", "C:\\U"),
        Err(Error::Unsupported("windows arch riscv64".to_string()))
    );
    assert_eq!(code_path_for(Os::Linux, "/home/u"), "/home/u/.local/bin/code");
    assert_eq!(
        code_path_for(Os::Windows, "C:\\L"),
        "C:\\L\\Programs\\Microsoft VS Code\\bin\\code.cmd"
    );
    assert_eq!(locate_in(Os::Linux, "/home/u", true), Some("/home/u/.local/bin/code".to_string()));
    assert_eq!(locate_in(Os::Linux, "/home/u", false), None);
}

#[test]
fn path_changes_under_a_home() {
    assert_eq!(entries_for(Os::Linux, "/home/u", Some("/ignored".to_string())), strings(&["/home/u/.local/bin"]));
    assert_eq!(
        entries_for(Os::Windows, "C:\\U", Some("C:\\L".to_string())),
        strings(&["C:\\U\\.local\\bin", "C:\\L\\Programs\\Microsoft VS Code\\bin"])
    );
    assert_eq!(entries_for(Os::Windows, "C:\\U", None), strings(&["C:\\U\\.local\\bin"]));
    let mut c = Config::default();
    c.path.shells = strings(&["BASH", "tcsh", "fish"]);
    let p = preview_for(&c, Os::Linux, "/home/u", None);
    assert_eq!(p.entries, strings(&["/home/u/.local/bin"]));
    assert_eq!(p.targets, strings(&["/home/u/.bashrc", "/home/u/.config/fish/config.fish"]));
    let w = preview_for(&c, Os::Windows, "C:\\U", None);
    assert_eq!(w.targets, strings(&["Windows user PATH (registry: HKCU\\Environment)"]));
    assert_eq!(
        shell_targets_for(Os::Linux, &c, None),
        vec![
            ShellTarget::Unknown("BASH".to_string()),
            ShellTarget::Unknown("tcsh".to_string()),
            ShellTarget::Unknown("fish".to_string())
        ]
    );
    let a = apply_for(&c, Os::Linux, "/home/u", None);
    assert_eq!(a.announce, "Ensuring PATH contains: /home/u/.local/bin");
    assert_eq!(a.windows_script, None);
    assert_eq!(
        a.targets,
        vec![
            ShellTarget::Profile("/home/u/.bashrc".to_string(), ShellKind::Posix),
            ShellTarget::Unknown("tcsh".to_string()),
            ShellTarget::Profile("/home/u/.config/fish/config.fish".to_string(), ShellKind::Fish)
        ]
    );
    let aw = apply_for(&c, Os::Windows, "C:\\U", Some("C:\\L".to_string()));
    assert!(aw.windows_script.is_some());
    assert!(aw.targets.is_empty());
}

#[test]
fn join_after_a_bare_drive() {
    assert_eq!(join(Os::Windows, "C:", "Users"), "C:Users");
    assert_eq!(join(Os::Windows, "C:\\", "Users"), "C:\\Users");
    assert_eq!(join(Os::Windows, "CC", "x"), "CC\\x");
    assert_eq!(join(Os::Linux, "C:", "x"), "C:/x");
}

#[test]
fn extension_list_outcome_lines() {
    assert_eq!(
        install_list_outcome(&Vec::new()),
        LogLine { level: LogLevel::Info, message: "No extensions to install".to_string() }
    );
    assert_eq!(
        install_list_outcome(&strings(&["a.b"])),
        LogLine { level: LogLevel::Success, message: "VSCode extensions installed".to_string() }
    );
}

#[test]
fn same_profile_named_twice_gets_one_block() {
    let e = strings(&["/h/.local/bin"]);
    let t = vec![
        ShellTarget::Profile("/h/.bashrc".to_string(), ShellKind::Posix),
        ShellTarget::Profile("/h/.bashrc".to_string(), ShellKind::Posix),
    ];
    let r = apply_unix(&t, &strings(&["x=1\n", "x=1\n"]), &e);
    assert_eq!(
        r[0],
        ProfileAction::Append {
            file: "/h/.bashrc".to_string(),
            block: profile_block(ShellKind::Posix, &e),
            done: "Updated /h/.bashrc".to_string(),
        }
    );
    assert_eq!(r[1], ProfileAction::Info("/h/.bashrc already configured".to_string()));
    // Applying again to the updated profile changes nothing.
    let after = format!("x=1\n{}", profile_block(ShellKind::Posix, &e));
    let contents = vec![after.clone(), after];
    let again = apply_unix(&t, &contents, &e);
    assert!(again.iter().all(|a| !matches!(a, ProfileAction::Append { .. })));
    assert!(unix_status(&t, &contents).configured);
}

#[test]
fn logic_after_lowercasing() {
    let c = Config::default();
    let mut want = c.vscode.extensions.clone();
    want.push("ms-ceintl.vscode-language-pack-zh-hans".to_string());
    assert_eq!(effective_list_with(&c, "zh-cn"), want);
    assert_eq!(effective_list_with(&c, "en"), c.vscode.extensions);
    assert_eq!(key_profile(Os::Linux, "bashrc", "/home/u"), Some(("/home/u/.bashrc".to_string(), ShellKind::Posix)));
    assert_eq!(key_profile(Os::Linux, "BASHRC", "/home/u"), None);
    let installed = vec![
        InstalledExt { key: "ms-python.python".to_string(), version: Some("2024.1.0".to_string()) },
        InstalledExt { key: "a.b".to_string(), version: None },
    ];
    let latest = vec![LatestExt { key: "ms-python.python".to_string(), version: "2024.2.0".to_string() }];
    let e = ext_status_for(&"MS-Python.Python".to_string(), "ms-python.python", &installed, &latest);
    assert_eq!(e.id, "MS-Python.Python");
    assert!(e.installed);
    assert_eq!(e.version, Some("2024.1.0".to_string()));
    assert_eq!(e.latest, Some("2024.2.0".to_string()));
    assert!(e.upgrade_available);
    let missing = ext_status_for(&"x.y".to_string(), "x.y", &installed, &latest);
    assert!(!missing.installed);
    assert_eq!(lookup_installed(&installed, "a.b"), Some(None));
    assert_eq!(lookup_latest(&latest, "a.b"), None);
}

#[test]
fn lookups_and_windows_commands() {
    let u = uv_latest_lookup();
    assert_eq!(u.url, "https://api.github.com/repos/astral-sh/uv/releases/latest");
    assert_eq!(u.accept, Some("application/vnd.github+json".to_string()));
    assert_eq!(u.timeout_secs, 6);
    let v = vscode_latest_lookup(Os::Linux, "x86_64");
    assert_eq!(v.url, "https://update.code.visualstudio.com/api/update/linux-x64/stable/latest");
    assert_eq!(v.accept, None);
    let m = marketplace_lookup(&strings(&["a.b"]));
    assert_eq!(m.url, "https://marketplace.visualstudio.com/_apis/public/gallery/extensionquery");
    assert_eq!(m.body, Some(marketplace_query(&strings(&["a.b"]))));
    let q = windows_path_query();
    assert_eq!(q.program, "powershell");
    assert_eq!(q.args, strings(&["-NoProfile", "-Command", "[Environment]::GetEnvironmentVariable('Path','User')"]));
    let w = windows_apply("C:\\T");
    assert_eq!(w.script_path, "C:\\T\\pydev-path.ps1");
    assert_eq!(w.command.args, strings(&["-NoProfile", "-ExecutionPolicy", "Bypass", "-File", "C:\\T\\pydev-path.ps1"]));
    assert_eq!(w.done, "Windows user PATH updated");
    assert_eq!(w.target, "Windows user PATH");
    assert_eq!(w.failure_prefix, "failed to update Windows PATH: ");
}
