use pydev_core::config::{default_extensions, Config, ProxyConfig};
use pydev_core::error::Error;

fn proxy(http: &str, https: &str, no_proxy: &str) -> ProxyConfig {
    ProxyConfig { http: http.to_string(), https: https.to_string(), no_proxy: no_proxy.to_string() }
}

#[test]
fn default_config_values() {
    let c = Config::default();
    assert_eq!(c.language, "zh-CN");
    assert!(!c.reinstall_existing);
    assert_eq!(c.proxy, proxy("", "", ""));
    assert_eq!(c.uv.version, "latest");
    assert_eq!(c.python.version, "latest");
    assert!(c.python.set_default);
    assert!(c.vscode.install);
    assert_eq!(c.vscode.extensions, default_extensions());
    assert!(c.path.update);
    assert_eq!(c.path.shells, vec!["bashrc".to_string()]);
}

#[test]
fn default_extension_list() {
    assert_eq!(
        default_extensions(),
        vec![
            "ms-python.python",
            "ms-python.vscode-pylance",
            "ms-python.debugpy",
            "charliermarsh.ruff",
            "ms-toolsai.jupyter"
        ]
    );
}

#[test]
fn proxy_is_empty_ignores_no_proxy_and_blanks() {
    assert!(proxy("", "", "").is_empty());
    assert!(proxy("  ", "\t", "localhost").is_empty());
    assert!(!proxy("http://p:1", "", "").is_empty());
    assert!(!proxy("", " http://p:2 ", "").is_empty());
}

#[test]
fn proxy_https_preferred_over_http() {
    assert_eq!(proxy("http://a", " http://b ", "").https_or_http(), Some("http://b".to_string()));
    assert_eq!(proxy(" http://a ", "  ", "").https_or_http(), Some("http://a".to_string()));
    assert_eq!(proxy("", "", "").https_or_http(), None);
}

#[test]
fn proxy_options_are_trimmed() {
    let p = proxy("  http://h:8080\n", "", " localhost,127.0.0.1 ");
    assert_eq!(p.http_opt(), Some("http://h:8080".to_string()));
    assert_eq!(p.https_opt(), None);
    assert_eq!(p.no_proxy_opt(), Some("localhost,127.0.0.1".to_string()));
    // Unicode whitespace counts too, as `str::trim` does.
    let q = proxy("\u{3000}http://x\u{a0}", "", "");
    assert_eq!(q.http_opt(), Some("http://x".to_string()));
}

#[test]
fn load_or_default_uses_loaded_or_defaults() {
    let mut loaded = Config::default();
    loaded.language = "en".to_string();
    assert_eq!(Config::load_or_default(Some(loaded.clone())), loaded);
    assert_eq!(Config::load_or_default(None), Config::default());
}

#[test]
fn error_messages() {
    assert_eq!(Error::Io("denied".to_string()).message(), "I/O error: denied");
    assert_eq!(Error::Http("timeout".to_string()).message(), "network error: timeout");
    assert_eq!(Error::ConfigParse("bad".to_string()).message(), "config parse error: bad");
    assert_eq!(Error::ConfigWrite("x".to_string()).message(), "config write error: x");
    assert_eq!(
        Error::Command { cmd: "uv".to_string(), code: -1 }.message(),
        "command `uv` exited with code -1"
    );
    assert_eq!(
        Error::Command { cmd: "tar".to_string(), code: 2 }.message(),
        "command `tar` exited with code 2"
    );
    assert_eq!(Error::Unsupported("linux arch riscv64".to_string()).message(), "unsupported platform: linux arch riscv64");
    assert_eq!(Error::msg("plain".to_string()), Error::Msg("plain".to_string()));
    assert_eq!(Error::msg("plain".to_string()).message(), "plain");
}
