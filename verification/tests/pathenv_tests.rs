use pydev_core::config::Config;
use pydev_core::pathenv::{
    apply, apply_announce, apply_unix, path_entries, preview, profile_block, shell_profile,
    shell_targets, unix_status, windows_path_script, windows_status, ProfileAction, ShellKind,
    ShellTarget,
};
use pydev_core::platform::Os;
use pydev_core::text::{chars_of, contains};

fn strings(v: &[&str]) -> Vec<String> {
    v.iter().map(|x| x.to_string()).collect()
}

#[test]
fn shell_profiles() {
    assert_eq!(shell_profile(Os::Linux, "bash", "/h"), Some(("/h/.bashrc".to_string(), ShellKind::Posix)));
    assert_eq!(shell_profile(Os::Linux, " BashRC ", "/h"), Some(("/h/.bashrc".to_string(), ShellKind::Posix)));
    assert_eq!(shell_profile(Os::Linux, "zsh", "/h"), Some(("/h/.zshrc".to_string(), ShellKind::Posix)));
    assert_eq!(shell_profile(Os::Linux, "profile", "/h"), Some(("/h/.profile".to_string(), ShellKind::Posix)));
    assert_eq!(
        shell_profile(Os::Linux, "fish", "/h"),
        Some(("/h/.config/fish/config.fish".to_string(), ShellKind::Fish))
    );
    assert_eq!(shell_profile(Os::Linux, "tcsh", "/h"), None);
}

#[test]
fn entries_preview_and_targets() {
    if let Some(home) = dirs::home_dir() {
        let bin = home.join(".local").join("bin").to_string_lossy().to_string();
        assert_eq!(path_entries(Os::Linux), Ok(vec![bin.clone()]));
        let mut c = Config::default();
        c.path.shells = strings(&["bashrc", "nushell", "fish"]);
        let p = preview(&c, Os::Linux).unwrap();
        assert_eq!(p.entries, vec![bin.clone()]);
        assert_eq!(
            p.targets,
            vec![
                home.join(".bashrc").to_string_lossy().to_string(),
                home.join(".config").join("fish").join("config.fish").to_string_lossy().to_string()
            ]
        );
        let t = shell_targets(Os::Linux, &c);
        assert_eq!(t[1], ShellTarget::Unknown("nushell".to_string()));
        let w = preview(&c, Os::Windows).unwrap();
        assert_eq!(w.targets, strings(&["Windows user PATH (registry: HKCU\\Environment)"]));
        let a = apply(&c, Os::Linux).unwrap();
        assert_eq!(a.announce, format!("Ensuring PATH contains: {bin}"));
        assert_eq!(a.windows_script, None);
        assert_eq!(a.targets, t);
    }
}

#[test]
fn windows_status_checks_every_entry() {
    let entries = strings(&["C:\\Users\\a\\.local\\bin", "C:\\VS\\bin"]);
    let ok = windows_status(&entries, "C:\\Windows; c:\\users\\A\\.LOCAL\\bin ;;C:\\VS\\bin");
    assert!(ok.configured);
    assert!(ok.pending_targets.is_empty());
    let missing = windows_status(&entries, "C:\\Users\\a\\.local\\bin");
    assert!(!missing.configured);
    assert_eq!(missing.pending_targets, strings(&["Windows user PATH"]));
    assert!(!windows_status(&entries, "").configured);
}

#[test]
fn unix_status_from_profiles() {
    let t = vec![
        ShellTarget::Profile("/h/.bashrc".to_string(), ShellKind::Posix),
        ShellTarget::Unknown("x".to_string()),
        ShellTarget::Profile("/h/.zshrc".to_string(), ShellKind::Posix),
    ];
    let st = unix_status(&t, &strings(&["stuff\n# >>> pydev >>>\n", "", ""]));
    assert!(!st.configured);
    assert_eq!(st.pending_targets, strings(&["/h/.zshrc"]));
    let done = unix_status(&t, &strings(&["# >>> pydev >>>", "", "a # >>> pydev >>> b"]));
    assert!(done.configured);
    let none = unix_status(&vec![ShellTarget::Unknown("x".to_string())], &strings(&[""]));
    assert!(!none.configured);
    assert!(none.pending_targets.is_empty());
}

#[test]
fn profile_blocks() {
    let e = strings(&["/h/.local/bin"]);
    assert_eq!(
        profile_block(ShellKind::Posix, &e),
        "\n# >>> pydev >>>\n# Added by pydev: PATH for uv, Python and VSCode\nexport PATH=\"/h/.local/bin:$PATH\"\n# <<< pydev <<<\n"
    );
    assert_eq!(
        profile_block(ShellKind::Fish, &e),
        "\n# >>> pydev >>>\n# Added by pydev: PATH for uv, Python and VSCode\nset -gx PATH \"/h/.local/bin\" $PATH\n# <<< pydev <<<\n"
    );
}

#[test]
fn applied_profile_reads_as_configured() {
    let e = strings(&["/h/.local/bin"]);
    let content = format!("export A=1\n{}", profile_block(ShellKind::Posix, &e));
    assert!(contains(&chars_of(&content), &chars_of("# >>> pydev >>>")));
    let t = vec![ShellTarget::Profile("/h/.bashrc".to_string(), ShellKind::Posix)];
    assert!(unix_status(&t, &vec![content.clone()]).configured);
    // A second apply leaves the profile alone.
    let again = apply_unix(&t, &vec![content], &e);
    assert_eq!(again[0], ProfileAction::Info("/h/.bashrc already configured".to_string()));
    assert_eq!(again[1], ProfileAction::Warn("No shell profiles were updated".to_string()));
}

#[test]
fn apply_unix_steps() {
    let e = strings(&["/b"]);
    let t = vec![
        ShellTarget::Unknown("tcsh".to_string()),
        ShellTarget::Profile("/h/.config/fish/config.fish".to_string(), ShellKind::Fish),
    ];
    let r = apply_unix(&t, &strings(&["", ""]), &e);
    assert_eq!(r.len(), 3);
    assert_eq!(r[0], ProfileAction::Warn("Unknown shell 'tcsh', skipping".to_string()));
    assert_eq!(
        r[1],
        ProfileAction::Append {
            file: "/h/.config/fish/config.fish".to_string(),
            block: profile_block(ShellKind::Fish, &e),
            done: "Updated /h/.config/fish/config.fish".to_string(),
        }
    );
    assert_eq!(
        r[2],
        ProfileAction::Info("Open a new terminal (or `source` the profile) to use the new PATH".to_string())
    );
}

#[test]
fn windows_script_escapes_quotes() {
    let s = windows_path_script(&strings(&["C:\\a", "C:\\O'Neil\\bin"]));
    let want = "$dirs = @('C:\\a', 'C:\\O''Neil\\bin')\n$p = [Environment]::GetEnvironmentVariable('Path','User')\nif ($null -eq $p) { $p = '' }\nforeach ($d in $dirs) {\n  $parts = $p.Split(';') | Where-Object { $_ -ne '' }\n  if (-not ($parts -contains $d)) {\n    if ($p -ne '') { $p = $p + ';' + $d } else { $p = $d }\n  }\n}\n[Environment]::SetEnvironmentVariable('Path', $p, 'User')\nWrite-Output 'pydev: user PATH updated (open a new terminal to use it)'\n";
    assert_eq!(s, want);
}

#[test]
fn announce_joins_entries() {
    assert_eq!(apply_announce(&strings(&["a", "b"])), "Ensuring PATH contains: a, b");
    assert_eq!(apply_announce(&Vec::new()), "Ensuring PATH contains: ");
}
