use pydev_core::error::Error;
use pydev_core::platform::{
    current_os, join, os_key, user_bin_dir, user_opt_dir, uv_exe_name, vscode_archive_ext,
    vscode_download_url, vscode_slug, vscode_update_platform, Os,
};

#[test]
fn os_from_target_name() {
    assert_eq!(current_os("windows"), Os::Windows);
    assert_eq!(current_os("macos"), Os::MacOS);
    assert_eq!(current_os("linux"), Os::Linux);
    assert_eq!(current_os("freebsd"), Os::Linux);
    assert_eq!(os_key(Os::Windows), "windows");
    assert_eq!(os_key(Os::MacOS), "macos");
    assert_eq!(os_key(Os::Linux), "linux");
}

#[test]
fn exe_and_archive_names() {
    assert_eq!(uv_exe_name(Os::Windows), "uv.exe");
    assert_eq!(uv_exe_name(Os::Linux), "uv");
    assert_eq!(vscode_archive_ext(Os::Windows), "exe");
    assert_eq!(vscode_archive_ext(Os::MacOS), "zip");
    assert_eq!(vscode_archive_ext(Os::Linux), "tar.gz");
}

#[test]
fn vscode_slugs() {
    assert_eq!(vscode_slug(Os::Windows, "x86_64"), Ok("win32-x64-user".to_string()));
    assert_eq!(vscode_slug(Os::Windows, "aarch64"), Ok("win32-arm64-user".to_string()));
    assert_eq!(vscode_slug(Os::MacOS, "x86_64"), Ok("darwin-universal".to_string()));
    assert_eq!(vscode_slug(Os::Linux, "arm"), Ok("linux-armhf".to_string()));
    assert_eq!(vscode_slug(Os::Linux, "riscv64"), Err(Error::Unsupported("linux arch riscv64".to_string())));
    assert_eq!(vscode_slug(Os::Windows, "x86"), Err(Error::Unsupported("windows arch x86".to_string())));
    assert_eq!(vscode_update_platform(Os::Windows, "aarch64"), "win32-arm64");
    assert_eq!(vscode_update_platform(Os::Windows, "x86_64"), "win32-x64");
    assert_eq!(vscode_update_platform(Os::MacOS, "aarch64"), "darwin");
    assert_eq!(vscode_update_platform(Os::Linux, "aarch64"), "linux-arm64");
    assert_eq!(vscode_update_platform(Os::Linux, "arm"), "linux-x64");
}

#[test]
fn download_urls() {
    assert_eq!(
        vscode_download_url(Os::Linux, "x86_64"),
        Ok("https://update.code.visualstudio.com/latest/linux-x64/stable".to_string())
    );
    assert!(vscode_download_url(Os::Linux, "mips").is_err());
}

#[test]
fn joins_like_path_join() {
    assert_eq!(join(Os::Linux, "/home/a", ".local"), "/home/a/.local");
    assert_eq!(join(Os::Linux, "/home/a/", ".local"), "/home/a/.local");
    assert_eq!(join(Os::Linux, "", "x"), "x");
    assert_eq!(join(Os::Windows, "C:\\Users\\a", ".local"), "C:\\Users\\a\\.local");
    assert_eq!(join(Os::Windows, "C:\\Users\\a\\", "bin"), "C:\\Users\\a\\bin");
    assert_eq!(join(Os::Windows, "C:/Users/a/", "bin"), "C:/Users/a/bin");
}

#[test]
fn user_dirs_under_home() {
    if let Some(home) = dirs::home_dir() {
        let bin = home.join(".local").join("bin").to_string_lossy().to_string();
        let opt = home.join(".local").join("opt").to_string_lossy().to_string();
        let os = Os::Linux;
        assert_eq!(user_bin_dir(os), Ok(bin));
        assert_eq!(user_opt_dir(os), Ok(opt));
    }
}
