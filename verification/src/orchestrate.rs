//! The one-click flow and the single-component installs, as plans.
//!
//! A plan is the sequence of steps to carry out in order; the program runs
//! it and stops at the first step that fails. Installing VSCode (or finding
//! an installed one) provides the `code` launcher that the extension step
//! then uses.

use vstd::prelude::*;

use crate::config::{clone_strings, opt_view, string_views, Config};
use crate::error::Error;
use crate::installers::extensions::{effective_list, effective_list_spec};
use crate::progress::{LogLevel, LogLine, Stage};
use crate::status::{EnvStatus, ExtStatus};
use crate::text::concat;

verus! {

broadcast use vstd::string::group_string_axioms;

/// One step of a plan.
#[derive(Debug, Clone, PartialEq, Eq)]
pub enum Action {
    /// Report the start of a numbered step.
    Stage(Stage),
    /// Report a line.
    Log(LogLine),
    /// Install (or reinstall) uv.
    InstallUv,
    /// Install the configured Python through uv.
    InstallPython,
    /// Install VSCode; its `code` launcher is used by later extension steps.
    InstallVscode,
    /// Find the installed `code` launcher, failing with this message when
    /// there is none.
    LocateVscode(String),
    /// Install these extensions with the `code` launcher.
    InstallExtensions(Vec<String>),
    /// Apply the PATH updates.
    ApplyPath,
}

/// A step of a plan, as the contracts see it.
pub enum Step {
    Stage(Seq<char>, nat, nat),
    Log(LogLevel, Seq<char>),
    InstallUv,
    InstallPython,
    InstallVscode,
    LocateVscode(Seq<char>),
    InstallExtensions(Seq<Seq<char>>),
    ApplyPath,
}

pub open spec fn step_of(a: Action) -> Step {
    match a {
        Action::Stage(s) => Step::Stage(s.key@, s.index as nat, s.total as nat),
        Action::Log(l) => Step::Log(l.level, l.message@),
        Action::InstallUv => Step::InstallUv,
        Action::InstallPython => Step::InstallPython,
        Action::InstallVscode => Step::InstallVscode,
        Action::LocateVscode(m) => Step::LocateVscode(m@),
        Action::InstallExtensions(v) => Step::InstallExtensions(string_views(v@)),
        Action::ApplyPath => Step::ApplyPath,
    }
}

/// The steps of a plan.
pub open spec fn steps(v: Seq<Action>) -> Seq<Step> {
    Seq::new(v.len(), |i: int| step_of(v[i]))
}

fn push_action(v: &mut Vec<Action>, a: Action)
    ensures
        steps(final(v)@) == steps(old(v)@).push(step_of(a)),
{
    v.push(a);
    assert(steps(v@) =~= steps(old(v)@).push(step_of(a)));
}

fn stage(key: &str, index: u32, total: u32) -> (a: Action)
    ensures
        step_of(a) == Step::Stage(key@, index as nat, total as nat),
{
    Action::Stage(Stage { key: key.to_string(), index, total })
}

fn log(level: LogLevel, message: String) -> (a: Action)
    ensures
        step_of(a) == Step::Log(level, message@),
{
    Action::Log(LogLine { level, message })
}

pub open spec fn b2n(b: bool) -> nat {
    if b {
        1
    } else {
        0
    }
}

/// The ids of the extensions that are not installed, in order.
pub open spec fn missing_exts(exts: Seq<ExtStatus>) -> Seq<Seq<char>>
    decreases exts.len(),
{
    if exts.len() == 0 {
        Seq::empty()
    } else {
        let r = missing_exts(exts.drop_last());
        if exts.last().installed {
            r
        } else {
            r.push(exts.last().id@)
        }
    }
}

/// The extensions the one-click flow installs: none without VSCode, all of
/// them when reinstalling, else the missing ones.
pub open spec fn exts_to_install(cfg: Config, st: EnvStatus) -> Seq<Seq<char>> {
    if !cfg.vscode.install {
        Seq::empty()
    } else if cfg.reinstall_existing {
        effective_list_spec(cfg)
    } else {
        missing_exts(st.extensions@)
    }
}

pub open spec fn runs_uv(cfg: Config, st: EnvStatus) -> bool {
    cfg.reinstall_existing || !st.uv.installed
}

pub open spec fn runs_python(cfg: Config, st: EnvStatus) -> bool {
    cfg.reinstall_existing || !st.python.satisfied
}

pub open spec fn runs_editor(cfg: Config, st: EnvStatus) -> bool {
    cfg.vscode.install && (cfg.reinstall_existing || !st.vscode.installed)
}

pub open spec fn runs_vscode_step(cfg: Config, st: EnvStatus) -> bool {
    runs_editor(cfg, st) || exts_to_install(cfg, st).len() > 0
}

pub open spec fn runs_path(cfg: Config, st: EnvStatus) -> bool {
    cfg.path.update && (cfg.reinstall_existing || !st.path.configured)
}

/// The number of numbered steps of the one-click flow.
pub open spec fn total_steps(cfg: Config, st: EnvStatus) -> nat {
    b2n(runs_uv(cfg, st)) + b2n(runs_python(cfg, st)) + b2n(runs_vscode_step(cfg, st)) + b2n(
        runs_path(cfg, st),
    )
}

#[verifier::opaque]
pub open spec fn uv_part(cfg: Config, st: EnvStatus, total: nat) -> Seq<Step> {
    if runs_uv(cfg, st) {
        seq![Step::Stage("uv"@, 1, total), Step::InstallUv]
    } else {
        let cur = match opt_view(st.uv.current) {
            Some(c) => c,
            None => Seq::empty(),
        };
        seq![Step::Log(LogLevel::Info, "uv "@ + cur + " already installed, skipping"@)]
    }
}

#[verifier::opaque]
pub open spec fn python_part(cfg: Config, st: EnvStatus, index: nat, total: nat) -> Seq<Step> {
    if runs_python(cfg, st) {
        seq![Step::Stage("python"@, index, total), Step::InstallPython]
    } else {
        seq![
            Step::Log(
                LogLevel::Info,
                "Python "@ + st.python.requested@ + " already installed, skipping"@,
            ),
        ]
    }
}

#[verifier::opaque]
pub open spec fn vscode_part(cfg: Config, st: EnvStatus, index: nat, total: nat) -> Seq<Step> {
    let exts = exts_to_install(cfg, st);
    if runs_vscode_step(cfg, st) {
        seq![Step::Stage("vscode"@, index, total)] + (if runs_editor(cfg, st) {
            seq![Step::InstallVscode]
        } else {
            seq![
                Step::Log(
                    LogLevel::Info,
                    "VSCode already installed; installing missing extensions only"@,
                ),
                Step::LocateVscode("VSCode not found"@),
            ]
        }) + (if exts.len() > 0 {
            seq![Step::InstallExtensions(exts)]
        } else {
            Seq::empty()
        })
    } else if cfg.vscode.install {
        seq![Step::Log(LogLevel::Info, "VSCode and extensions already installed, skipping"@)]
    } else {
        Seq::empty()
    }
}

#[verifier::opaque]
pub open spec fn path_part(cfg: Config, st: EnvStatus, index: nat, total: nat) -> Seq<Step> {
    if runs_path(cfg, st) {
        seq![Step::Stage("path"@, index, total), Step::ApplyPath]
    } else if cfg.path.update {
        seq![Step::Log(LogLevel::Info, "PATH already configured, skipping"@)]
    } else {
        seq![Step::Log(LogLevel::Info, "PATH update skipped by configuration"@)]
    }
}

/// The one-click flow: uv -> Python -> (VSCode + extensions) -> PATH, each
/// numbered step announced with its index among the steps that run.
/// Already-satisfied components are skipped unless `cfg.reinstall_existing`
/// is set.
pub open spec fn one_click_spec(cfg: Config, st: EnvStatus) -> Seq<Step> {
    let total = total_steps(cfg, st);
    let i_py = b2n(runs_uv(cfg, st)) + 1;
    let i_vs = b2n(runs_uv(cfg, st)) + b2n(runs_python(cfg, st)) + 1;
    let i_path = b2n(runs_uv(cfg, st)) + b2n(runs_python(cfg, st)) + b2n(
        runs_vscode_step(cfg, st),
    ) + 1;
    if total == 0 {
        seq![Step::Log(LogLevel::Success, "Everything is already installed and configured."@)]
    } else {
        uv_part(cfg, st, total) + python_part(cfg, st, i_py, total) + vscode_part(
            cfg,
            st,
            i_vs,
            total,
        ) + path_part(cfg, st, i_path, total) + seq![
            Step::Log(
                LogLevel::Success,
                "All done! Your Python development environment is ready."@,
            ),
        ]
    }
}

fn missing_ext_ids(exts: &Vec<ExtStatus>) -> (r: Vec<String>)
    ensures
        string_views(r@) == missing_exts(exts@),
{
    let mut r: Vec<String> = Vec::new();
    let mut i: usize = 0;
    while i < exts.len()
        invariant
            i <= exts.len(),
            string_views(r@) == missing_exts(exts@.take(i as int)),
        decreases exts.len() - i,
    {
        assert(exts@.take(i + 1).drop_last() =~= exts@.take(i as int));
        assert(exts@.take(i + 1).last() == exts@[i as int]);
        if !exts[i].installed {
            let c = exts[i].id.clone();
            let ghost old_r = r@;
            r.push(c);
            assert(string_views(r@) =~= string_views(old_r).push(c@));
        }
        i = i + 1;
    }
    assert(exts@.take(i as int) =~= exts@);
    r
}

fn push_uv_part(plan: &mut Vec<Action>, cfg: &Config, st: &EnvStatus, total: u32)
    ensures
        steps(final(plan)@) == steps(old(plan)@) + uv_part(*cfg, *st, total as nat),
{
    reveal(uv_part);
    if cfg.reinstall_existing || !st.uv.installed {
        push_action(plan, stage("uv", 1, total));
        push_action(plan, Action::InstallUv);
    } else {
        let cur: String = match &st.uv.current {
            Some(c) => c.clone(),
            None => String::new(),
        };
        let a = concat("uv ", cur.as_str());
        push_action(plan, log(LogLevel::Info, concat(a.as_str(), " already installed, skipping")));
    }
    assert(steps(plan@) =~= steps(old(plan)@) + uv_part(*cfg, *st, total as nat));
}

fn push_python_part(plan: &mut Vec<Action>, cfg: &Config, st: &EnvStatus, index: u32, total: u32)
    ensures
        steps(final(plan)@) == steps(old(plan)@) + python_part(
            *cfg,
            *st,
            index as nat,
            total as nat,
        ),
{
    reveal(python_part);
    if cfg.reinstall_existing || !st.python.satisfied {
        push_action(plan, stage("python", index, total));
        push_action(plan, Action::InstallPython);
    } else {
        let a = concat("Python ", st.python.requested.as_str());
        push_action(plan, log(LogLevel::Info, concat(a.as_str(), " already installed, skipping")));
    }
    assert(steps(plan@) =~= steps(old(plan)@) + python_part(*cfg, *st, index as nat, total as nat));
}

fn push_vscode_part(
    plan: &mut Vec<Action>,
    cfg: &Config,
    st: &EnvStatus,
    exts: Vec<String>,
    index: u32,
    total: u32,
)
    requires
        string_views(exts@) == exts_to_install(*cfg, *st),
    ensures
        steps(final(plan)@) == steps(old(plan)@) + vscode_part(
            *cfg,
            *st,
            index as nat,
            total as nat,
        ),
{
    reveal(vscode_part);
    let run_editor = cfg.vscode.install && (cfg.reinstall_existing || !st.vscode.installed);
    if run_editor || exts.len() > 0 {
        push_action(plan, stage("vscode", index, total));
        if run_editor {
            push_action(plan, Action::InstallVscode);
        } else {
            push_action(
                plan,
                log(
                    LogLevel::Info,
                    "VSCode already installed; installing missing extensions only".to_string(),
                ),
            );
            push_action(plan, Action::LocateVscode("VSCode not found".to_string()));
        }
        if exts.len() > 0 {
            push_action(plan, Action::InstallExtensions(exts));
        }
    } else if cfg.vscode.install {
        push_action(
            plan,
            log(LogLevel::Info, "VSCode and extensions already installed, skipping".to_string()),
        );
    }
    assert(steps(plan@) =~= steps(old(plan)@) + vscode_part(*cfg, *st, index as nat, total as nat));
}

fn push_path_part(plan: &mut Vec<Action>, cfg: &Config, st: &EnvStatus, index: u32, total: u32)
    ensures
        steps(final(plan)@) == steps(old(plan)@) + path_part(
            *cfg,
            *st,
            index as nat,
            total as nat,
        ),
{
    reveal(path_part);
    if cfg.path.update && (cfg.reinstall_existing || !st.path.configured) {
        push_action(plan, stage("path", index, total));
        push_action(plan, Action::ApplyPath);
    } else if cfg.path.update {
        push_action(plan, log(LogLevel::Info, "PATH already configured, skipping".to_string()));
    } else {
        push_action(plan, log(LogLevel::Info, "PATH update skipped by configuration".to_string()));
    }
    assert(steps(plan@) =~= steps(old(plan)@) + path_part(*cfg, *st, index as nat, total as nat));
}

/// The one-click plan for `cfg`, given the detected status `st`.
pub fn one_click(cfg: &Config, st: &EnvStatus) -> (plan: Vec<Action>)
    ensures
        steps(plan@) == one_click_spec(*cfg, *st),
{
    let reinstall = cfg.reinstall_existing;
    let run_uv = reinstall || !st.uv.installed;
    let run_py = reinstall || !st.python.satisfied;
    let do_vscode = cfg.vscode.install;
    let run_editor = do_vscode && (reinstall || !st.vscode.installed);
    let exts: Vec<String> = if !do_vscode {
        let v: Vec<String> = Vec::new();
        assert(string_views(v@) =~= Seq::<Seq<char>>::empty());
        v
    } else if reinstall {
        effective_list(cfg)
    } else {
        missing_ext_ids(&st.extensions)
    };
    let run_vscode_step = run_editor || exts.len() > 0;
    let run_path = cfg.path.update && (reinstall || !st.path.configured);
    let n_uv: u32 = if run_uv { 1 } else { 0 };
    let n_py: u32 = if run_py { 1 } else { 0 };
    let n_vs: u32 = if run_vscode_step { 1 } else { 0 };
    let n_path: u32 = if run_path { 1 } else { 0 };
    let total: u32 = n_uv + n_py + n_vs + n_path;
    assert(total as nat == total_steps(*cfg, *st));
    let mut plan: Vec<Action> = Vec::new();
    if total == 0 {
        push_action(
            &mut plan,
            log(LogLevel::Success, "Everything is already installed and configured.".to_string()),
        );
        assert(steps(plan@) =~= one_click_spec(*cfg, *st));
        return plan;
    }
    push_uv_part(&mut plan, cfg, st, total);
    push_python_part(&mut plan, cfg, st, n_uv + 1, total);
    push_vscode_part(&mut plan, cfg, st, exts, n_uv + n_py + 1, total);
    push_path_part(&mut plan, cfg, st, n_uv + n_py + n_vs + 1, total);
    push_action(
        &mut plan,
        log(LogLevel::Success, "All done! Your Python development environment is ready.".to_string()),
    );
    assert(steps(plan@) =~= one_click_spec(*cfg, *st));
    plan
}


/// Installing uv alone: one numbered step.
pub open spec fn install_uv_spec() -> Seq<Step> {
    seq![Step::Stage("uv"@, 1, 1), Step::InstallUv]
}

pub fn install_uv() -> (plan: Vec<Action>)
    ensures
        steps(plan@) == install_uv_spec(),
{
    let mut plan: Vec<Action> = Vec::new();
    push_action(&mut plan, stage("uv", 1, 1));
    push_action(&mut plan, Action::InstallUv);
    assert(steps(plan@) =~= install_uv_spec());
    plan
}

/// Installing Python alone: one numbered step.
pub open spec fn install_python_spec() -> Seq<Step> {
    seq![Step::Stage("python"@, 1, 1), Step::InstallPython]
}

pub fn install_python() -> (plan: Vec<Action>)
    ensures
        steps(plan@) == install_python_spec(),
{
    let mut plan: Vec<Action> = Vec::new();
    push_action(&mut plan, stage("python", 1, 1));
    push_action(&mut plan, Action::InstallPython);
    assert(steps(plan@) =~= install_python_spec());
    plan
}

/// Installing VSCode alone: the editor, then every extension of `cfg`.
pub open spec fn install_vscode_spec(cfg: Config) -> Seq<Step> {
    seq![
        Step::Stage("vscode"@, 1, 1),
        Step::InstallVscode,
        Step::InstallExtensions(effective_list_spec(cfg)),
    ]
}

pub fn install_vscode(cfg: &Config) -> (plan: Vec<Action>)
    ensures
        steps(plan@) == install_vscode_spec(*cfg),
{
    let mut plan: Vec<Action> = Vec::new();
    push_action(&mut plan, stage("vscode", 1, 1));
    push_action(&mut plan, Action::InstallVscode);
    push_action(&mut plan, Action::InstallExtensions(effective_list(cfg)));
    assert(steps(plan@) =~= install_vscode_spec(*cfg));
    plan
}

/// Installing the extensions alone, with the VSCode already installed.
pub open spec fn install_extensions_spec(cfg: Config) -> Seq<Step> {
    seq![
        Step::Stage("extensions"@, 1, 1),
        Step::LocateVscode("VSCode not found; install VSCode first"@),
        Step::InstallExtensions(effective_list_spec(cfg)),
    ]
}

pub fn install_extensions(cfg: &Config) -> (plan: Vec<Action>)
    ensures
        steps(plan@) == install_extensions_spec(*cfg),
{
    let mut plan: Vec<Action> = Vec::new();
    push_action(&mut plan, stage("extensions", 1, 1));
    push_action(
        &mut plan,
        Action::LocateVscode("VSCode not found; install VSCode first".to_string()),
    );
    push_action(&mut plan, Action::InstallExtensions(effective_list(cfg)));
    assert(steps(plan@) =~= install_extensions_spec(*cfg));
    plan
}

/// Applying the PATH updates alone: one numbered step.
pub open spec fn apply_path_spec() -> Seq<Step> {
    seq![Step::Stage("path"@, 1, 1), Step::ApplyPath]
}

pub fn apply_path() -> (plan: Vec<Action>)
    ensures
        steps(plan@) == apply_path_spec(),
{
    let mut plan: Vec<Action> = Vec::new();
    push_action(&mut plan, stage("path", 1, 1));
    push_action(&mut plan, Action::ApplyPath);
    assert(steps(plan@) =~= apply_path_spec());
    plan
}

/// The numbered steps of a plan: key, index and total of each stage, in order.
pub open spec fn stages(plan: Seq<Step>) -> Seq<(Seq<char>, nat, nat)>
    decreases plan.len(),
{
    if plan.len() == 0 {
        Seq::empty()
    } else {
        let r = stages(plan.drop_last());
        match plan.last() {
            Step::Stage(k, i, t) => r.push((k, i, t)),
            _ => r,
        }
    }
}

proof fn lemma_stages_concat(a: Seq<Step>, b: Seq<Step>)
    ensures
        stages(a + b) == stages(a) + stages(b),
    decreases b.len(),
{
    if b.len() == 0 {
        assert(a + b =~= a);
        assert(stages(b) =~= Seq::<(Seq<char>, nat, nat)>::empty());
        assert(stages(a) + stages(b) =~= stages(a));
    } else {
        lemma_stages_concat(a, b.drop_last());
        assert((a + b).drop_last() =~= a + b.drop_last());
        assert((a + b).last() == b.last());
        match b.last() {
            Step::Stage(k, i, t) => {
                assert(stages(a) + stages(b) =~= (stages(a) + stages(b.drop_last())).push(
                    (k, i, t),
                ));
            },
            _ => {
                assert(stages(a) + stages(b) =~= stages(a) + stages(b.drop_last()));
            },
        }
    }
}

/// The keys of the numbered steps the one-click flow runs, in order.
pub open spec fn keys_run(cfg: Config, st: EnvStatus) -> Seq<Seq<char>> {
    (if runs_uv(cfg, st) {
        seq!["uv"@]
    } else {
        Seq::empty()
    }) + (if runs_python(cfg, st) {
        seq!["python"@]
    } else {
        Seq::empty()
    }) + (if runs_vscode_step(cfg, st) {
        seq!["vscode"@]
    } else {
        Seq::empty()
    }) + (if runs_path(cfg, st) {
        seq!["path"@]
    } else {
        Seq::empty()
    })
}

/// `keys` numbered 1, 2, ... out of `total`.
pub open spec fn numbered(keys: Seq<Seq<char>>, total: nat) -> Seq<(Seq<char>, nat, nat)> {
    Seq::new(keys.len(), |i: int| (keys[i], (i + 1) as nat, total))
}

proof fn lemma_stages_small(x: Step, y: Step)
    ensures
        stages(seq![x]) == (match x {
            Step::Stage(k, i, t) => seq![(k, i, t)],
            _ => Seq::empty(),
        }),
        stages(seq![x, y]) == stages(seq![x]) + stages(seq![y]),
{
    assert(seq![x].drop_last() =~= Seq::<Step>::empty());
    assert(stages(Seq::<Step>::empty()) =~= Seq::<(Seq<char>, nat, nat)>::empty());
    assert(seq![x].last() == x);
    match x {
        Step::Stage(k, i, t) => {
            assert(stages(seq![x]) =~= seq![(k, i, t)]);
        },
        _ => {
            assert(stages(seq![x]) =~= Seq::<(Seq<char>, nat, nat)>::empty());
        },
    }
    assert(seq![x, y] =~= seq![x] + seq![y]);
    lemma_stages_concat(seq![x], seq![y]);
    assert(seq![y].drop_last() =~= Seq::<Step>::empty());
}

/// The stage of a single step, if it is one.
pub open spec fn stage_of(x: Step) -> Seq<(Seq<char>, nat, nat)> {
    match x {
        Step::Stage(k, i, t) => seq![(k, i, t)],
        _ => Seq::empty(),
    }
}

proof fn lemma_stages_two(x: Step, y: Step)
    ensures
        stages(seq![x]) == stage_of(x),
        stages(seq![x, y]) == stage_of(x) + stage_of(y),
{
    lemma_stages_small(x, y);
    lemma_stages_small(y, y);
}

proof fn lemma_uv_stages(cfg: Config, st: EnvStatus, total: nat)
    ensures
        stages(uv_part(cfg, st, total)) == (if runs_uv(cfg, st) {
            seq![("uv"@, 1nat, total)]
        } else {
            Seq::empty()
        }),
{
    reveal(uv_part);
    let u = uv_part(cfg, st, total);
    lemma_stages_two(u[0], Step::InstallUv);
    if runs_uv(cfg, st) {
        assert(u =~= seq![u[0], Step::InstallUv]);
        assert(stage_of(u[0]) + stage_of(Step::InstallUv) =~= seq![("uv"@, 1nat, total)]);
    } else {
        assert(u =~= seq![u[0]]);
    }
}

proof fn lemma_python_stages(cfg: Config, st: EnvStatus, i: nat, total: nat)
    ensures
        stages(python_part(cfg, st, i, total)) == (if runs_python(cfg, st) {
            seq![("python"@, i, total)]
        } else {
            Seq::empty()
        }),
{
    reveal(python_part);
    let p = python_part(cfg, st, i, total);
    lemma_stages_two(p[0], Step::InstallPython);
    if runs_python(cfg, st) {
        assert(p =~= seq![p[0], Step::InstallPython]);
        assert(stage_of(p[0]) + stage_of(Step::InstallPython) =~= seq![("python"@, i, total)]);
    } else {
        assert(p =~= seq![p[0]]);
    }
}

proof fn lemma_path_stages(cfg: Config, st: EnvStatus, i: nat, total: nat)
    ensures
        stages(path_part(cfg, st, i, total)) == (if runs_path(cfg, st) {
            seq![("path"@, i, total)]
        } else {
            Seq::empty()
        }),
{
    reveal(path_part);
    let q = path_part(cfg, st, i, total);
    lemma_stages_two(q[0], Step::ApplyPath);
    if runs_path(cfg, st) {
        assert(q =~= seq![q[0], Step::ApplyPath]);
        assert(stage_of(q[0]) + stage_of(Step::ApplyPath) =~= seq![("path"@, i, total)]);
    } else {
        assert(q =~= seq![q[0]]);
    }
}

proof fn lemma_vscode_stages(cfg: Config, st: EnvStatus, i: nat, total: nat)
    ensures
        stages(vscode_part(cfg, st, i, total)) == (if runs_vscode_step(cfg, st) {
            seq![("vscode"@, i, total)]
        } else {
            Seq::empty()
        }),
{
    reveal(vscode_part);
    let v = vscode_part(cfg, st, i, total);
    let exts = exts_to_install(cfg, st);
    if runs_vscode_step(cfg, st) {
        let head = seq![Step::Stage("vscode"@, i, total)];
        let mid = if runs_editor(cfg, st) {
            seq![Step::InstallVscode]
        } else {
            seq![
                Step::Log(
                    LogLevel::Info,
                    "VSCode already installed; installing missing extensions only"@,
                ),
                Step::LocateVscode("VSCode not found"@),
            ]
        };
        let tail = if exts.len() > 0 {
            seq![Step::InstallExtensions(exts)]
        } else {
            Seq::<Step>::empty()
        };
        assert(v =~= head + mid + tail);
        lemma_stages_concat(head + mid, tail);
        lemma_stages_concat(head, mid);
        lemma_stages_two(head[0], head[0]);
        assert(head =~= seq![head[0]]);
        if runs_editor(cfg, st) {
            lemma_stages_two(mid[0], mid[0]);
            assert(mid =~= seq![mid[0]]);
        } else {
            lemma_stages_two(mid[0], mid[1]);
            assert(mid =~= seq![mid[0], mid[1]]);
        }
        if exts.len() > 0 {
            lemma_stages_two(tail[0], tail[0]);
            assert(tail =~= seq![tail[0]]);
        } else {
            assert(stages(tail) =~= Seq::<(Seq<char>, nat, nat)>::empty());
        }
        assert(stages(head) + stages(mid) + stages(tail) =~= seq![("vscode"@, i, total)]);
    } else if cfg.vscode.install {
        lemma_stages_two(v[0], v[0]);
        assert(v =~= seq![v[0]]);
    } else {
        assert(stages(v) =~= Seq::<(Seq<char>, nat, nat)>::empty());
    }
}

/// The one-click flow announces its numbered steps in the order uv, Python,
/// VSCode, PATH, keeping only those that run, numbered 1, 2, ... with the
/// number of steps that run as their total.
pub proof fn one_click_stages_numbered(cfg: Config, st: EnvStatus)
    ensures
        stages(one_click_spec(cfg, st)) == numbered(keys_run(cfg, st), total_steps(cfg, st)),
        keys_run(cfg, st).len() == total_steps(cfg, st),
{
    let total = total_steps(cfg, st);
    let i_py = b2n(runs_uv(cfg, st)) + 1;
    let i_vs = b2n(runs_uv(cfg, st)) + b2n(runs_python(cfg, st)) + 1;
    let i_path = b2n(runs_uv(cfg, st)) + b2n(runs_python(cfg, st)) + b2n(
        runs_vscode_step(cfg, st),
    ) + 1;
    let u = uv_part(cfg, st, total);
    let p = python_part(cfg, st, i_py, total);
    let v = vscode_part(cfg, st, i_vs, total);
    let q = path_part(cfg, st, i_path, total);
    let done = seq![
        Step::Log(LogLevel::Success, "All done! Your Python development environment is ready."@),
    ];
    if total > 0 {
        lemma_uv_stages(cfg, st, total);
        lemma_python_stages(cfg, st, i_py, total);
        lemma_vscode_stages(cfg, st, i_vs, total);
        lemma_path_stages(cfg, st, i_path, total);
        lemma_stages_two(done[0], done[0]);
        assert(done =~= seq![done[0]]);
        lemma_stages_concat(u + p + v + q, done);
        lemma_stages_concat(u + p + v, q);
        lemma_stages_concat(u + p, v);
        lemma_stages_concat(u, p);
        assert(stages(u) + stages(p) + stages(v) + stages(q) + stages(done) =~= numbered(
            keys_run(cfg, st),
            total,
        ));
    } else {
        let only = seq![
            Step::Log(LogLevel::Success, "Everything is already installed and configured."@),
        ];
        lemma_stages_two(only[0], only[0]);
        assert(only =~= seq![only[0]]);
        assert(numbered(keys_run(cfg, st), total) =~= Seq::<(Seq<char>, nat, nat)>::empty());
    }
}


/// The install steps a step of the one-click flow may be, given what runs.
pub open spec fn step_allowed(cfg: Config, st: EnvStatus, x: Step) -> bool {
    &&& (x is InstallUv ==> runs_uv(cfg, st))
    &&& (x is InstallPython ==> runs_python(cfg, st))
    &&& (x is InstallVscode ==> runs_editor(cfg, st))
    &&& (x is LocateVscode ==> cfg.vscode.install && !runs_editor(cfg, st))
    &&& (x is InstallExtensions ==> cfg.vscode.install)
    &&& (x is ApplyPath ==> runs_path(cfg, st))
}

proof fn lemma_parts_allowed(cfg: Config, st: EnvStatus, i_py: nat, i_vs: nat, i_path: nat, total: nat)
    ensures
        forall|i: int|
            0 <= i < uv_part(cfg, st, total).len() ==> step_allowed(
                cfg,
                st,
                #[trigger] uv_part(cfg, st, total)[i],
            ),
        forall|i: int|
            0 <= i < python_part(cfg, st, i_py, total).len() ==> step_allowed(
                cfg,
                st,
                #[trigger] python_part(cfg, st, i_py, total)[i],
            ),
        forall|i: int|
            0 <= i < vscode_part(cfg, st, i_vs, total).len() ==> step_allowed(
                cfg,
                st,
                #[trigger] vscode_part(cfg, st, i_vs, total)[i],
            ),
        forall|i: int|
            0 <= i < path_part(cfg, st, i_path, total).len() ==> step_allowed(
                cfg,
                st,
                #[trigger] path_part(cfg, st, i_path, total)[i],
            ),
{
    reveal(uv_part);
    reveal(python_part);
    reveal(vscode_part);
    reveal(path_part);
}

/// The one-click flow installs a component only when it has to: uv when
/// it is missing or reinstalling, Python when the requested version is
/// missing or reinstalling, the VSCode editor when it is wanted and missing
/// or reinstalling, extensions only when VSCode is wanted, and PATH only when
/// PATH updates are enabled and pending or reinstalling.
pub proof fn one_click_installs_only_what_runs(cfg: Config, st: EnvStatus)
    ensures
        forall|i: int|
            0 <= i < one_click_spec(cfg, st).len() ==> step_allowed(
                cfg,
                st,
                #[trigger] one_click_spec(cfg, st)[i],
            ),
{
    let total = total_steps(cfg, st);
    let i_py = b2n(runs_uv(cfg, st)) + 1;
    let i_vs = b2n(runs_uv(cfg, st)) + b2n(runs_python(cfg, st)) + 1;
    let i_path = b2n(runs_uv(cfg, st)) + b2n(runs_python(cfg, st)) + b2n(
        runs_vscode_step(cfg, st),
    ) + 1;
    lemma_parts_allowed(cfg, st, i_py, i_vs, i_path, total);
    let u = uv_part(cfg, st, total);
    let p = python_part(cfg, st, i_py, total);
    let v = vscode_part(cfg, st, i_vs, total);
    let q = path_part(cfg, st, i_path, total);
    let plan = one_click_spec(cfg, st);
    if total > 0 {
        assert forall|i: int| 0 <= i < plan.len() implies step_allowed(cfg, st, #[trigger] plan[i]) by {
            let a = u.len() as int;
            let b = a + p.len();
            let c = b + v.len();
            let d = c + q.len();
            if i < a {
                assert(plan[i] == u[i]);
            } else if i < b {
                assert(plan[i] == p[i - a]);
            } else if i < c {
                assert(plan[i] == v[i - b]);
            } else if i < d {
                assert(plan[i] == q[i - c]);
            }
        }
    }
}

/// Reinstalling runs every component the configuration enables: uv, Python,
/// the VSCode editor when VSCode is wanted, and PATH when updates are enabled.
pub proof fn one_click_reinstall_runs_all(cfg: Config, st: EnvStatus)
    requires
        cfg.reinstall_existing,
    ensures
        one_click_spec(cfg, st).contains(Step::InstallUv),
        one_click_spec(cfg, st).contains(Step::InstallPython),
        cfg.vscode.install ==> one_click_spec(cfg, st).contains(Step::InstallVscode),
        cfg.path.update ==> one_click_spec(cfg, st).contains(Step::ApplyPath),
{
    reveal(uv_part);
    reveal(python_part);
    reveal(vscode_part);
    reveal(path_part);
    let total = total_steps(cfg, st);
    let i_py = b2n(runs_uv(cfg, st)) + 1;
    let i_vs = b2n(runs_uv(cfg, st)) + b2n(runs_python(cfg, st)) + 1;
    let i_path = b2n(runs_uv(cfg, st)) + b2n(runs_python(cfg, st)) + b2n(
        runs_vscode_step(cfg, st),
    ) + 1;
    let v = vscode_part(cfg, st, i_vs, total);
    let plan = one_click_spec(cfg, st);
    assert(plan[1] == Step::InstallUv);
    assert(plan[3] == Step::InstallPython);
    if cfg.vscode.install {
        assert(plan[5] == Step::InstallVscode);
    }
    if cfg.path.update {
        assert(plan[4 + v.len() as int + 1] == Step::ApplyPath);
    }
}


/// How a step of a plan ended, as the program observed it.
#[derive(Debug, Clone, PartialEq, Eq)]
pub enum StepOutcome {
    /// The step succeeded.
    Succeeded,
    /// The step installed or found VSCode; its `code` launcher.
    FoundLauncher(String),
    /// The step failed with this error.
    Failed(Error),
}

/// Where a run of a plan stands: the index of the next step, and the `code`
/// launcher that an earlier step provided, if any.
#[derive(Debug, Clone, PartialEq, Eq)]
pub struct RunState {
    pub next: usize,
    pub code: Option<String>,
}

/// What to do after a step.
#[derive(Debug, Clone, PartialEq, Eq)]
pub enum Progress {
    /// Run the step `next` of the state.
    Continue(RunState),
    /// Every step ran; the run succeeded.
    Finished,
    /// A step failed; the run ends with its error and no later step runs.
    Stopped(Error),
}

/// The progress after step `st.next` of a plan of `len` steps ended with `o`:
/// a failure stops the run with its error, the last step finishes it, any
/// other step moves to the next one, keeping the launcher a step found.
pub open spec fn advance_spec(len: nat, st: RunState, o: StepOutcome) -> Progress {
    match o {
        StepOutcome::Failed(e) => Progress::Stopped(e),
        _ => if st.next + 1 >= len {
            Progress::Finished
        } else {
            Progress::Continue(
                RunState {
                    next: (st.next + 1) as usize,
                    code: match o {
                        StepOutcome::FoundLauncher(c) => Some(c),
                        _ => st.code,
                    },
                },
            )
        },
    }
}

/// The start of a run of a plan of `len` steps: its first step, with no
/// launcher yet, or finished at once when the plan is empty.
pub fn start_run(len: usize) -> (p: Progress)
    ensures
        len == 0 ==> p == Progress::Finished,
        len > 0 ==> p == Progress::Continue(RunState { next: 0, code: None }),
{
    if len == 0 {
        Progress::Finished
    } else {
        Progress::Continue(RunState { next: 0, code: None })
    }
}

/// The progress after step `st.next` of a plan of `len` steps ended with `o`.
pub fn advance(len: usize, st: RunState, o: StepOutcome) -> (p: Progress)
    requires
        st.next < len,
    ensures
        p == advance_spec(len as nat, st, o),
{
    match o {
        StepOutcome::Failed(e) => Progress::Stopped(e),
        StepOutcome::FoundLauncher(c) => {
            if st.next + 1 >= len {
                Progress::Finished
            } else {
                Progress::Continue(RunState { next: st.next + 1, code: Some(c) })
            }
        },
        StepOutcome::Succeeded => {
            if st.next + 1 >= len {
                Progress::Finished
            } else {
                Progress::Continue(RunState { next: st.next + 1, code: st.code })
            }
        },
    }
}

/// The message when an extension step has no launcher.
pub open spec fn no_launcher_message() -> Seq<char> {
    "VSCode not found"@
}

/// The launcher an extension step uses: the one an earlier step of the run
/// installed or found.
pub fn launcher(st: &RunState) -> (r: Result<String, Error>)
    ensures
        match st.code {
            Some(c) => r matches Ok(x) && x@ == c@,
            None => r matches Err(e) && e matches Error::Msg(m) && m@ == no_launcher_message(),
        },
{
    match &st.code {
        Some(c) => Ok(c.clone()),
        None => Err(Error::msg("VSCode not found".to_string())),
    }
}

/// Running the plan from `st`, when its steps end with `outcomes` (the
/// outcome of step `i` is `outcomes[i]`): how many steps run, and how the
/// run ends.
pub open spec fn drive(outcomes: Seq<StepOutcome>, st: RunState) -> (nat, Progress)
    decreases outcomes.len() - st.next,
{
    if st.next >= outcomes.len() {
        (0, Progress::Finished)
    } else {
        let p = advance_spec(outcomes.len(), st, outcomes[st.next as int]);
        match p {
            Progress::Continue(s) => if s.next > st.next {
                let (k, q) = drive(outcomes, s);
                (k + 1, q)
            } else {
                (1, p)
            },
            _ => (1, p),
        }
    }
}

/// The index of the first failing outcome at or after `i`.
pub open spec fn first_failure(outcomes: Seq<StepOutcome>, i: nat) -> Option<nat>
    decreases outcomes.len() - i,
{
    if i >= outcomes.len() {
        None
    } else if outcomes[i as int] is Failed {
        Some(i)
    } else {
        first_failure(outcomes, i + 1)
    }
}

proof fn lemma_first_failure_bounds(outcomes: Seq<StepOutcome>, i: nat)
    ensures
        first_failure(outcomes, i) matches Some(j) ==> i <= j < outcomes.len() && outcomes[j as int] is Failed,
    decreases outcomes.len() - i,
{
    if i < outcomes.len() && !(outcomes[i as int] is Failed) {
        lemma_first_failure_bounds(outcomes, i + 1);
    }
}

/// A run ends at its first failing step: the steps up to and including it
/// run, no later step runs, and the run stops with that step's error.
/// Without a failure every remaining step runs and the run finishes.
pub proof fn run_stops_at_first_failure(outcomes: Seq<StepOutcome>, st: RunState)
    requires
        st.next <= outcomes.len(),
        outcomes.len() <= usize::MAX,
    ensures
        match first_failure(outcomes, st.next as nat) {
            Some(j) => drive(outcomes, st) == (
                (j - st.next + 1) as nat,
                Progress::Stopped(outcomes[j as int]->Failed_0),
            ),
            None => drive(outcomes, st) == ((outcomes.len() - st.next) as nat, Progress::Finished),
        },
    decreases outcomes.len() - st.next,
{
    if st.next < outcomes.len() {
        let o = outcomes[st.next as int];
        if !(o is Failed) && st.next + 1 < outcomes.len() {
            let s = RunState {
                next: (st.next + 1) as usize,
                code: match o {
                    StepOutcome::FoundLauncher(c) => Some(c),
                    _ => st.code,
                },
            };
            assert(s.next == st.next + 1);
            assert(advance_spec(outcomes.len(), st, o) == Progress::Continue(s));
            run_stops_at_first_failure(outcomes, s);
            lemma_first_failure_bounds(outcomes, s.next as nat);
            assert(first_failure(outcomes, st.next as nat) == first_failure(
                outcomes,
                (st.next + 1) as nat,
            ));
            assert(drive(outcomes, st) == (drive(outcomes, s).0 + 1, drive(outcomes, s).1));
        } else if o is Failed {
            assert(first_failure(outcomes, st.next as nat) == Some(st.next as nat));
            assert(drive(outcomes, st) == (1nat, Progress::Stopped(o->Failed_0)));
        } else {
            assert(first_failure(outcomes, (st.next + 1) as nat) is None);
            assert(first_failure(outcomes, st.next as nat) is None);
            assert(drive(outcomes, st) == (1nat, Progress::Finished));
        }
    }
}

} // verus!
