//! VSCode extensions.

use vstd::prelude::*;

use crate::config::{clone_strings, contains_string, string_views, Config};
use crate::download::{proxy_envs, proxy_envs_spec};
use crate::installers::vscode::{capture_code, code_args_spec, code_program_spec};
use crate::platform::Os;
use crate::progress::{LogLevel, LogLine};
use crate::runner::{command_is, pair_views, push_str, CommandLine};
use crate::text::{chars_of, concat, lowercase_spec, starts_with, to_lowercase};

verus! {

broadcast use vstd::string::group_string_axioms;

/// The Simplified Chinese language pack, added for a Chinese user interface.
pub open spec fn zh_language_pack() -> Seq<char> {
    "ms-ceintl.vscode-language-pack-zh-hans"@
}

/// The user interface language is Chinese: lowercased, it starts with "zh".
pub open spec fn is_chinese(language: Seq<char>) -> bool {
    "zh"@.is_prefix_of(lowercase_spec(language))
}

/// The extensions for the configured list `exts` when the lowercased user
/// interface language is `lang`: the list plus the Simplified Chinese
/// language pack when `lang` starts with "zh" and the list lacks the pack.
pub open spec fn effective_list_with_spec(exts: Seq<Seq<char>>, lang: Seq<char>) -> Seq<Seq<char>> {
    if "zh"@.is_prefix_of(lang) && !exts.contains(zh_language_pack()) {
        exts.push(zh_language_pack())
    } else {
        exts
    }
}

/// The extensions that should end up installed for `cfg`: the configured list
/// plus the Simplified Chinese language pack when the UI language is Chinese
/// and the list does not hold it yet.
pub open spec fn effective_list_spec(cfg: Config) -> Seq<Seq<char>> {
    effective_list_with_spec(string_views(cfg.vscode.extensions@), lowercase_spec(cfg.language@))
}

/// The extensions for `cfg` when its user interface language, lowercased,
/// is `lang`.
pub fn effective_list_with(cfg: &Config, lang: &str) -> (v: Vec<String>)
    ensures
        string_views(v@) == effective_list_with_spec(string_views(cfg.vscode.extensions@), lang@),
{
    let mut exts = clone_strings(&cfg.vscode.extensions);
    if starts_with(&chars_of(lang), &chars_of("zh")) && !contains_string(
        &exts,
        "ms-ceintl.vscode-language-pack-zh-hans",
    ) {
        exts.push("ms-ceintl.vscode-language-pack-zh-hans".to_string());
        assert(string_views(exts@) =~= effective_list_with_spec(
            string_views(cfg.vscode.extensions@),
            lang@,
        ));
    }
    exts
}

pub fn effective_list(cfg: &Config) -> (v: Vec<String>)
    ensures
        string_views(v@) == effective_list_spec(*cfg),
{
    let lang = to_lowercase(cfg.language.as_str());
    effective_list_with(cfg, lang.as_str())
}


/// Taking the effective list as the configured list changes nothing: the
/// language pack is added at most once.
pub proof fn effective_list_idempotent(cfg: Config, again: Config)
    requires
        again.language == cfg.language,
        string_views(again.vscode.extensions@) == effective_list_spec(cfg),
    ensures
        effective_list_spec(again) == effective_list_spec(cfg),
{
    let exts = string_views(cfg.vscode.extensions@);
    if is_chinese(cfg.language@) && !exts.contains(zh_language_pack()) {
        assert(exts.push(zh_language_pack())[exts.len() as int] == zh_language_pack());
        assert(effective_list_spec(cfg).contains(zh_language_pack()));
    }
}

/// Installing one extension: announce it, then run the command.
#[derive(Debug, Clone, PartialEq, Eq)]
pub struct ExtensionStep {
    pub announce: String,
    pub command: CommandLine,
}

/// The step that installs (or, with `--force`, updates) extension `ext`
/// with the `code` launcher `code`, through the configured proxy.
pub open spec fn extension_step_holds(cfg: Config, os: Os, code: Seq<char>, ext: Seq<char>, s: ExtensionStep) -> bool {
    &&& s.announce@ == "Installing extension "@ + ext + " ..."@
    &&& command_is(
        s.command,
        code_program_spec(os, code),
        code_args_spec(os, code, seq!["--install-extension"@, ext, "--force"@]),
        proxy_envs_spec(cfg.proxy),
    )
}

/// Install a specific list of extensions using the `code` CLI: one step per
/// extension, in order (none for an empty list).
pub fn install_list(cfg: &Config, os: Os, code_bin: &str, list: &Vec<String>) -> (r: Vec<ExtensionStep>)
    ensures
        r.len() == list.len(),
        forall|i: int|
            0 <= i < r.len() ==> extension_step_holds(
                *cfg,
                os,
                code_bin@,
                string_views(list@)[i],
                #[trigger] r@[i],
            ),
{
    let mut r: Vec<ExtensionStep> = Vec::new();
    let mut i: usize = 0;
    while i < list.len()
        invariant
            i <= list.len(),
            r.len() == i,
            forall|k: int|
                0 <= k < i ==> extension_step_holds(
                    *cfg,
                    os,
                    code_bin@,
                    string_views(list@)[k],
                    #[trigger] r@[k],
                ),
        decreases list.len() - i,
    {
        let ext = list[i].as_str();
        let mut args: Vec<String> = Vec::new();
        push_str(&mut args, "--install-extension");
        push_str(&mut args, ext);
        push_str(&mut args, "--force");
        assert(string_views(args@) =~= seq!["--install-extension"@, ext@, "--force"@]);
        let base = capture_code(os, code_bin, &args);
        let command = CommandLine { program: base.program, args: base.args, envs: proxy_envs(&cfg.proxy) };
        let a = concat("Installing extension ", ext);
        let announce = concat(a.as_str(), " ...");
        let step = ExtensionStep { announce, command };
        assert(extension_step_holds(*cfg, os, code_bin@, string_views(list@)[i as int], step));
        r.push(step);
        i = i + 1;
    }
    r
}

/// The line reported for an extension list: "No extensions to install"
/// when it is empty (and nothing runs), else, once every extension is
/// installed, "VSCode extensions installed".
pub fn install_list_outcome(list: &Vec<String>) -> (l: LogLine)
    ensures
        list.len() == 0 ==> l.level == LogLevel::Info && l.message@ == "No extensions to install"@,
        list.len() > 0 ==> l.level == LogLevel::Success && l.message@
            == "VSCode extensions installed"@,
{
    if list.len() == 0 {
        LogLine { level: LogLevel::Info, message: "No extensions to install".to_string() }
    } else {
        LogLine { level: LogLevel::Success, message: "VSCode extensions installed".to_string() }
    }
}

/// Install the full effective extension list.
pub fn install(cfg: &Config, os: Os, code_bin: &str) -> (r: Vec<ExtensionStep>)
    ensures
        r.len() == effective_list_spec(*cfg).len(),
        forall|i: int|
            0 <= i < r.len() ==> extension_step_holds(
                *cfg,
                os,
                code_bin@,
                effective_list_spec(*cfg)[i],
                #[trigger] r@[i],
            ),
{
    let list = effective_list(cfg);
    install_list(cfg, os, code_bin, &list)
}

} // verus!
