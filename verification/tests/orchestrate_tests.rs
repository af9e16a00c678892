use pydev_core::config::Config;
use pydev_core::netcheck::{endpoints, intro_line, report_line, run, ProbeOutcome};
use pydev_core::orchestrate::{
    advance, launcher, start_run, Progress, RunState, StepOutcome,
    apply_path, install_extensions, install_python, install_uv, install_vscode, one_click, Action,
};
use pydev_core::pathenv::PathStatus;
use pydev_core::progress::{LogLevel, LogLine, Stage};
use pydev_core::error::Error;
use pydev_core::runner::{command_echo, exit_outcome, start_failure, CommandLine};
use pydev_core::status::{EnvStatus, ExtStatus, PythonStatus, Tool};

fn tool(installed: bool) -> Tool {
    Tool { installed, current: if installed { Some("0.9.2".to_string()) } else { None }, latest: None, upgrade_available: false, location: None }
}

fn ext(id: &str, installed: bool) -> ExtStatus {
    ExtStatus { id: id.to_string(), installed, version: None, latest: None, upgrade_available: false }
}

fn status(uv: bool, py: bool, code: bool, exts: Vec<ExtStatus>, path: bool) -> EnvStatus {
    EnvStatus {
        uv: tool(uv),
        python: PythonStatus { installed_versions: Vec::new(), requested: "latest".to_string(), satisfied: py },
        vscode: tool(code),
        extensions: exts,
        path: PathStatus { configured: path, pending_targets: Vec::new() },
    }
}

fn stage(key: &str, index: u32, total: u32) -> Action {
    Action::Stage(Stage { key: key.to_string(), index, total })
}

fn log(level: LogLevel, m: &str) -> Action {
    Action::Log(LogLine { level, message: m.to_string() })
}

fn en() -> Config {
    let mut c = Config::default();
    c.language = "en".to_string();
    c
}

#[test]
fn one_click_fresh_machine() {
    let c = en();
    let st = status(false, false, false, vec![ext("a.b", false), ext("c.d", true)], false);
    assert_eq!(
        one_click(&c, &st),
        vec![
            stage("uv", 1, 4),
            Action::InstallUv,
            stage("python", 2, 4),
            Action::InstallPython,
            stage("vscode", 3, 4),
            Action::InstallVscode,
            Action::InstallExtensions(vec!["a.b".to_string()]),
            stage("path", 4, 4),
            Action::ApplyPath,
            log(LogLevel::Success, "All done! Your Python development environment is ready."),
        ]
    );
}

#[test]
fn one_click_nothing_to_do() {
    let c = en();
    let st = status(true, true, true, vec![ext("a.b", true)], true);
    assert_eq!(
        one_click(&c, &st),
        vec![log(LogLevel::Success, "Everything is already installed and configured.")]
    );
}

#[test]
fn one_click_only_missing_extensions_and_skips() {
    let mut c = en();
    c.path.update = false;
    let st = status(true, true, true, vec![ext("a.b", false)], false);
    assert_eq!(
        one_click(&c, &st),
        vec![
            log(LogLevel::Info, "uv 0.9.2 already installed, skipping"),
            log(LogLevel::Info, "Python latest already installed, skipping"),
            stage("vscode", 1, 1),
            log(LogLevel::Info, "VSCode already installed; installing missing extensions only"),
            Action::LocateVscode("VSCode not found".to_string()),
            Action::InstallExtensions(vec!["a.b".to_string()]),
            log(LogLevel::Info, "PATH update skipped by configuration"),
            log(LogLevel::Success, "All done! Your Python development environment is ready."),
        ]
    );
}

#[test]
fn one_click_reinstall_runs_everything() {
    let mut c = en();
    c.reinstall_existing = true;
    let st = status(true, true, true, vec![ext("a.b", true)], true);
    let plan = one_click(&c, &st);
    assert_eq!(plan[0], stage("uv", 1, 4));
    assert!(plan.contains(&Action::InstallUv));
    assert!(plan.contains(&Action::InstallPython));
    assert!(plan.contains(&Action::InstallVscode));
    assert!(plan.contains(&Action::InstallExtensions(c.vscode.extensions.clone())));
    assert!(plan.contains(&Action::ApplyPath));
}

#[test]
fn one_click_without_vscode() {
    let mut c = en();
    c.vscode.install = false;
    let st = status(false, true, false, vec![ext("a.b", false)], true);
    assert_eq!(
        one_click(&c, &st),
        vec![
            stage("uv", 1, 1),
            Action::InstallUv,
            log(LogLevel::Info, "Python latest already installed, skipping"),
            log(LogLevel::Info, "PATH already configured, skipping"),
            log(LogLevel::Success, "All done! Your Python development environment is ready."),
        ]
    );
}

#[test]
fn single_component_plans() {
    let c = en();
    assert_eq!(install_uv(), vec![stage("uv", 1, 1), Action::InstallUv]);
    assert_eq!(install_python(), vec![stage("python", 1, 1), Action::InstallPython]);
    assert_eq!(apply_path(), vec![stage("path", 1, 1), Action::ApplyPath]);
    assert_eq!(
        install_vscode(&c),
        vec![stage("vscode", 1, 1), Action::InstallVscode, Action::InstallExtensions(c.vscode.extensions.clone())]
    );
    assert_eq!(
        install_extensions(&c),
        vec![
            stage("extensions", 1, 1),
            Action::LocateVscode("VSCode not found; install VSCode first".to_string()),
            Action::InstallExtensions(c.vscode.extensions.clone())
        ]
    );
}

#[test]
fn network_results() {
    let c = Config::default();
    assert_eq!(intro_line(&c).message, "Testing network (direct connection, no proxy)...");
    let mut p = Config::default();
    p.proxy.https = "http://s".to_string();
    assert_eq!(intro_line(&p).message, "Testing network through the configured proxy...");
    let eps = endpoints();
    assert_eq!(eps.len(), 4);
    assert_eq!(eps[0], ("Astral (uv)".to_string(), "https://astral.sh".to_string()));
    let outcomes = vec![
        ProbeOutcome::Response { status: 200, latency_ms: 12 },
        ProbeOutcome::Response { status: 404, latency_ms: 30 },
        ProbeOutcome::Response { status: 503, latency_ms: 7 },
        ProbeOutcome::Failed("dns error".to_string()),
    ];
    let r = run(&outcomes);
    assert!(r[0].ok && r[1].ok && !r[2].ok && !r[3].ok);
    assert_eq!(r[3].error, Some("dns error".to_string()));
    assert_eq!(r[3].status, None);
    assert_eq!(report_line(&r[0]), LogLine { level: LogLevel::Success, message: "Astral (uv): reachable (12 ms)".to_string() });
    assert_eq!(report_line(&r[2]), LogLine { level: LogLevel::Warn, message: "GitHub (Python builds): HTTP 503".to_string() });
    assert_eq!(report_line(&r[3]), LogLine { level: LogLevel::Error, message: "PyPI: dns error".to_string() });
}

#[test]
fn command_echoes() {
    let c = CommandLine { program: "uv".to_string(), args: vec!["python".to_string(), "install".to_string()], envs: Vec::new() };
    assert_eq!(command_echo(&c), "$ uv python install");
    let d = CommandLine { program: "sh".to_string(), args: Vec::new(), envs: Vec::new() };
    assert_eq!(command_echo(&d), "$ sh ");
}

#[test]
fn exit_outcomes() {
    assert_eq!(exit_outcome("tar", true, Some(0)), Ok(()));
    assert_eq!(exit_outcome("tar", false, Some(2)), Err(Error::Command { cmd: "tar".to_string(), code: 2 }));
    assert_eq!(exit_outcome("tar", false, None), Err(Error::Command { cmd: "tar".to_string(), code: -1 }));
    let e = exit_outcome("tar", false, Some(2)).unwrap_err();
    assert_eq!(e.message(), "command `tar` exited with code 2");
}

#[test]
fn start_failures() {
    assert_eq!(
        start_failure("ditto", "No such file or directory"),
        Error::Msg("failed to start `ditto`: No such file or directory".to_string())
    );
}

#[test]
fn runs_stop_at_the_first_failure() {
    assert_eq!(start_run(0), Progress::Finished);
    let s0 = RunState { next: 0, code: None };
    assert_eq!(start_run(3), Progress::Continue(s0.clone()));
    let p1 = advance(3, s0, StepOutcome::FoundLauncher("/b/code".to_string()));
    let s1 = RunState { next: 1, code: Some("/b/code".to_string()) };
    assert_eq!(p1, Progress::Continue(s1.clone()));
    assert_eq!(launcher(&s1), Ok("/b/code".to_string()));
    let err = Error::Command { cmd: "code".to_string(), code: 1 };
    assert_eq!(advance(3, s1.clone(), StepOutcome::Failed(err.clone())), Progress::Stopped(err));
    let p2 = advance(3, s1, StepOutcome::Succeeded);
    let s2 = RunState { next: 2, code: Some("/b/code".to_string()) };
    assert_eq!(p2, Progress::Continue(s2.clone()));
    assert_eq!(advance(3, s2, StepOutcome::Succeeded), Progress::Finished);
    assert_eq!(
        launcher(&RunState { next: 0, code: None }),
        Err(Error::Msg("VSCode not found".to_string()))
    );
}
