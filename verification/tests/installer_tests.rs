use pydev_core::config::{Config, ProxyConfig};
use pydev_core::download::proxy_envs;
use pydev_core::error::Error;
use pydev_core::installers::extensions::{effective_list, install, install_list};
use pydev_core::installers::python::{fallback_versions, list_versions, numeric_key};
use pydev_core::installers::uv::{installed_check, tool_envs, uv_binary_path};
use pydev_core::installers::vscode::{
    capture_code, install as install_vscode, linux_code_paths, windows_code_path, VscodeInstall,
};
use pydev_core::platform::Os;
use pydev_core::text::chars_of;

fn pairs(v: &[(&str, &str)]) -> Vec<(String, String)> {
    v.iter().map(|(a, b)| (a.to_string(), b.to_string())).collect()
}

fn strings(v: &[&str]) -> Vec<String> {
    v.iter().map(|x| x.to_string()).collect()
}

fn proxy(http: &str, https: &str, no_proxy: &str) -> ProxyConfig {
    ProxyConfig { http: http.to_string(), https: https.to_string(), no_proxy: no_proxy.to_string() }
}

#[test]
fn proxy_envs_all_set() {
    assert_eq!(
        proxy_envs(&proxy(" http://h ", "http://s", "localhost")),
        pairs(&[
            ("HTTP_PROXY", "http://h"),
            ("http_proxy", "http://h"),
            ("HTTPS_PROXY", "http://s"),
            ("https_proxy", "http://s"),
            ("ALL_PROXY", "http://s"),
            ("NO_PROXY", "localhost"),
            ("no_proxy", "localhost"),
        ])
    );
}

#[test]
fn proxy_envs_http_only_falls_back_for_all_proxy() {
    assert_eq!(
        proxy_envs(&proxy("http://h", "", "")),
        pairs(&[("HTTP_PROXY", "http://h"), ("http_proxy", "http://h"), ("ALL_PROXY", "http://h")])
    );
    assert_eq!(proxy_envs(&proxy("", " ", "")), Vec::<(String, String)>::new());
}

#[test]
fn effective_list_adds_chinese_pack_once() {
    let mut c = Config::default();
    let mut want = c.vscode.extensions.clone();
    want.push("ms-ceintl.vscode-language-pack-zh-hans".to_string());
    assert_eq!(effective_list(&c), want);
    // Idempotent: the pack is not added twice.
    c.vscode.extensions = effective_list(&c);
    assert_eq!(effective_list(&c), want);
    // Uppercase language codes count too.
    c.language = "ZH-TW".to_string();
    c.vscode.extensions = strings(&["a.b"]);
    assert_eq!(effective_list(&c), strings(&["a.b", "ms-ceintl.vscode-language-pack-zh-hans"]));
    c.language = "en".to_string();
    assert_eq!(effective_list(&c), strings(&["a.b"]));
}

#[test]
fn extension_steps() {
    let mut c = Config::default();
    c.language = "en".to_string();
    c.proxy = proxy("http://h", "", "");
    let steps = install_list(&c, Os::Linux, "/u/bin/code", &strings(&["x.y"]));
    assert_eq!(steps.len(), 1);
    assert_eq!(steps[0].announce, "Installing extension x.y ...");
    assert_eq!(steps[0].command.program, "/u/bin/code");
    assert_eq!(steps[0].command.args, strings(&["--install-extension", "x.y", "--force"]));
    assert_eq!(steps[0].command.envs, proxy_envs(&c.proxy));
    let win = install_list(&c, Os::Windows, "C:\\c\\code.cmd", &strings(&["x.y"]));
    assert_eq!(win[0].command.program, "cmd");
    assert_eq!(
        win[0].command.args,
        strings(&["/C", "C:\\c\\code.cmd", "--install-extension", "x.y", "--force"])
    );
    assert!(install_list(&c, Os::Linux, "code", &Vec::new()).is_empty());
    assert_eq!(install(&c, Os::Linux, "code").len(), c.vscode.extensions.len());
}

#[test]
fn code_command_lines() {
    let c = capture_code(Os::Linux, "/bin/code", &strings(&["--version"]));
    assert_eq!(c.program, "/bin/code");
    assert_eq!(c.args, strings(&["--version"]));
    assert!(c.envs.is_empty());
    let w = capture_code(Os::Windows, "code.cmd", &strings(&["--list-extensions", "--show-versions"]));
    assert_eq!(w.program, "cmd");
    assert_eq!(w.args, strings(&["/C", "code.cmd", "--list-extensions", "--show-versions"]));
}

#[test]
fn fallback_list() {
    assert_eq!(fallback_versions(), strings(&["3.14", "3.13", "3.12", "3.11", "3.10"]));
}

#[test]
fn list_versions_from_uv_listing() {
    let out = "cpython-3.13.1-linux-x86_64-gnu    <download available>\n\
               cpython-3.9.21-linux-x86_64-gnu     /home/u/.local/share/uv/python/cpython-3.9.21\n\
               cpython-3.13.0-linux-x86_64-gnu     <download available>\n\
               pypy-3.10.14-linux-x86_64-gnu       <download available>\n\
               cpython-3.14.0a4+freethreaded-linux-x86_64-gnu  <download available>\n\
               cpython-3.10.16-linux-x86_64-gnu    <download available>\n";
    assert_eq!(
        list_versions(&Some(out.to_string())),
        strings(&["latest", "3.14", "3.13", "3.10", "3.9"])
    );
}

#[test]
fn list_versions_falls_back() {
    let want = strings(&["latest", "3.14", "3.13", "3.12", "3.11", "3.10"]);
    assert_eq!(list_versions(&None), want);
    assert_eq!(list_versions(&Some("nothing useful\n".to_string())), want);
}

#[test]
fn list_versions_ties_in_string_order() {
    let out = "cpython-3.010.1-x\ncpython-3.10.2-x\ncpython-03.10.0-x\n";
    assert_eq!(list_versions(&Some(out.to_string())), strings(&["latest", "03.10", "3.010", "3.10"]));
}

#[test]
fn numeric_keys() {
    assert_eq!(numeric_key(&chars_of("3.13")), (3, 13));
    assert_eq!(numeric_key(&chars_of("3")), (3, 0));
    assert_eq!(numeric_key(&chars_of("x.y")), (0, 0));
    assert_eq!(numeric_key(&chars_of("latest")), (0, 0));
}

#[test]
fn uv_paths_and_envs() {
    if let Some(home) = dirs::home_dir() {
        let bin = home.join(".local").join("bin").to_string_lossy().to_string();
        let uv = home.join(".local").join("bin").join("uv").to_string_lossy().to_string();
        assert_eq!(uv_binary_path(Os::Linux), Ok(uv));
        let mut c = Config::default();
        c.proxy = proxy("", "http://s", "");
        assert_eq!(
            tool_envs(&c, Os::Linux).unwrap(),
            pairs(&[
                ("HTTPS_PROXY", "http://s"),
                ("https_proxy", "http://s"),
                ("ALL_PROXY", "http://s"),
                ("UV_INSTALL_DIR", &bin),
                ("UV_NO_MODIFY_PATH", "1"),
                ("XDG_BIN_HOME", &bin),
            ])
        );
        let w = tool_envs(&c, Os::Windows).unwrap();
        assert_eq!(w.last().unwrap().0, "UV_NO_MODIFY_PATH");
    }
}

#[test]
fn uv_install_plans() {
    if dirs::home_dir().is_none() {
        return;
    }
    let mut c = Config::default();
    let u = pydev_core::installers::uv::install(&c, Os::Linux, "/tmp").unwrap();
    assert_eq!(u.url, "https://astral.sh/uv/install.sh");
    assert_eq!(u.script, "/tmp/pydev-uv-install.sh");
    assert_eq!(u.command.program, "sh");
    assert_eq!(u.command.args, strings(&["/tmp/pydev-uv-install.sh"]));
    c.uv.version = " 0.9.2 ".to_string();
    let w = pydev_core::installers::uv::install(&c, Os::Windows, "C:\\Temp").unwrap();
    assert_eq!(w.url, "https://astral.sh/uv/0.9.2/install.ps1");
    assert_eq!(w.script, "C:\\Temp\\pydev-uv-install.ps1");
    assert_eq!(w.command.program, "powershell");
    assert_eq!(
        w.command.args,
        strings(&["-NoProfile", "-ExecutionPolicy", "Bypass", "-File", "C:\\Temp\\pydev-uv-install.ps1"])
    );
}

#[test]
fn uv_installed_check_messages() {
    assert_eq!(installed_check("/h/uv", true), Ok("uv installed at /h/uv".to_string()));
    assert_eq!(
        installed_check("/h/uv", false),
        Err(Error::Msg("uv did not appear at /h/uv after installation".to_string()))
    );
}

#[test]
fn python_install_plan_or_missing_uv() {
    let mut c = Config::default();
    c.python.version = " 3.12 ".to_string();
    match pydev_core::installers::python::install(&c, Os::Linux) {
        Ok(p) => {
            assert_eq!(p.announce, "Installing Python (3.12) via uv...");
            assert_eq!(p.command.args, strings(&["python", "install", "3.12", "--default"]));
        }
        Err(e) => assert_eq!(e, Error::Msg("uv is not installed yet; install uv first".to_string())),
    }
}

#[test]
fn vscode_install_plans() {
    if let Some(home) = dirs::home_dir() {
        match install_vscode(Os::Linux, "x86_64", "/tmp").unwrap() {
            VscodeInstall::Linux { download, opt_dir, extract, bin_dir } => {
                assert_eq!(download.url, "https://update.code.visualstudio.com/latest/linux-x64/stable");
                assert_eq!(download.dest, "/tmp/pydev-vscode.tar.gz");
                let opt = home.join(".local").join("opt").to_string_lossy().to_string();
                assert_eq!(opt_dir, opt);
                assert_eq!(extract.program, "tar");
                assert_eq!(extract.args, strings(&["-xzf", "/tmp/pydev-vscode.tar.gz", "-C", &opt]));
                assert_eq!(bin_dir, home.join(".local").join("bin").to_string_lossy().to_string());
            }
            _ => panic!("expected a Linux plan"),
        }
        match install_vscode(Os::MacOS, "aarch64", "/tmp").unwrap() {
            VscodeInstall::MacOS { download, apps_dir, extract, code_real, .. } => {
                assert_eq!(download.dest, "/tmp/pydev-vscode.zip");
                assert_eq!(extract.program, "ditto");
                assert_eq!(
                    code_real,
                    format!("{apps_dir}/Visual Studio Code.app/Contents/Resources/app/bin/code")
                );
            }
            _ => panic!("expected a macOS plan"),
        }
    }
    match install_vscode(Os::Windows, "x86_64", "C:\\T").unwrap() {
        VscodeInstall::Windows { download, installer } => {
            assert_eq!(download.dest, "C:\\T\\pydev-vscode.exe");
            assert_eq!(installer.program, "C:\\T\\pydev-vscode.exe");
            assert_eq!(installer.args, strings(&["/VERYSILENT", "/NORESTART", "/MERGETASKS=!runcode"]));
        }
        _ => panic!("expected a Windows plan"),
    }
    assert_eq!(
        install_vscode(Os::Linux, "s390x", "/tmp"),
        Err(Error::Unsupported("linux arch s390x".to_string()))
    );
}

#[test]
fn vscode_launcher_paths() {
    assert_eq!(
        windows_code_path(Some("C:\\Users\\a\\AppData\\Local".to_string())),
        Ok("C:\\Users\\a\\AppData\\Local\\Programs\\Microsoft VS Code\\bin\\code.cmd".to_string())
    );
    assert_eq!(
        windows_code_path(None),
        Err(Error::Msg("could not resolve %LOCALAPPDATA%".to_string()))
    );
    assert_eq!(
        linux_code_paths("/h/.local/opt", &strings(&["other", "VSCode-linux-x64", "VSCode-linux-arm64"]), "/h/.local/bin"),
        Ok(("/h/.local/opt/VSCode-linux-x64/bin/code".to_string(), "/h/.local/bin/code".to_string()))
    );
    assert_eq!(
        linux_code_paths("/h/.local/opt", &strings(&["other"]), "/h/.local/bin"),
        Err(Error::Msg("could not find the extracted VSCode directory".to_string()))
    );
}
