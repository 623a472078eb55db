use vstd::prelude::*;

use crate::severity::{level_name, Severity};
use crate::text::str_eq;

verus! {

/// The command-line flags that decide what the tool does, besides analysing files.
#[derive(Clone, Debug)]
pub struct CliFlags {
    pub init_config: bool,
    pub setup_api_keys: bool,
    pub list_detectors: bool,
    pub version_info: bool,
    pub clear_cache: bool,
    pub cache_stats: bool,
    pub lsp: bool,
    /// The explorer URL given with `--from-url`, if any.
    pub from_url: Option<String>,
}

/// What one run of the tool does.
#[derive(Clone, Debug)]
pub enum CliCommand {
    InitConfig,
    SetupApiKeys,
    ListDetectors,
    VersionInfo,
    ClearCache,
    CacheStats,
    Lsp,
    AnalyzeUrl(String),
    AnalyzeFiles,
}

/// The command that the flags select: the first set flag in the order
/// `--init-config`, `--setup-api-keys`, `--list-detectors`, `--version-info`,
/// `--clear-cache`, `--cache-stats`, `--lsp`, `--from-url`; files otherwise.
pub open spec fn spec_select_command(flags: CliFlags) -> CliCommand {
    if flags.init_config {
        CliCommand::InitConfig
    } else if flags.setup_api_keys {
        CliCommand::SetupApiKeys
    } else if flags.list_detectors {
        CliCommand::ListDetectors
    } else if flags.version_info {
        CliCommand::VersionInfo
    } else if flags.clear_cache {
        CliCommand::ClearCache
    } else if flags.cache_stats {
        CliCommand::CacheStats
    } else if flags.lsp {
        CliCommand::Lsp
    } else {
        match flags.from_url {
            Some(url) => CliCommand::AnalyzeUrl(url),
            None => CliCommand::AnalyzeFiles,
        }
    }
}

/// Decides what the run does from its flags.
pub fn select_command(flags: CliFlags) -> (c: CliCommand)
    ensures
        c == spec_select_command(flags),
{
    if flags.init_config {
        CliCommand::InitConfig
    } else if flags.setup_api_keys {
        CliCommand::SetupApiKeys
    } else if flags.list_detectors {
        CliCommand::ListDetectors
    } else if flags.version_info {
        CliCommand::VersionInfo
    } else if flags.clear_cache {
        CliCommand::ClearCache
    } else if flags.cache_stats {
        CliCommand::CacheStats
    } else if flags.lsp {
        CliCommand::Lsp
    } else {
        match flags.from_url {
            Some(url) => CliCommand::AnalyzeUrl(url),
            None => CliCommand::AnalyzeFiles,
        }
    }
}

impl CliCommand {
    /// Whether the command runs before the configuration file is loaded.
    pub open spec fn spec_runs_without_config(self) -> bool {
        self is InitConfig || self is SetupApiKeys
    }

    /// Tells whether the command runs before, and without, the configuration file.
    pub fn runs_without_config(&self) -> (b: bool)
        ensures
            b == self.spec_runs_without_config(),
    {
        match self {
            CliCommand::InitConfig => true,
            CliCommand::SetupApiKeys => true,
            _ => false,
        }
    }
}

/// The output format of the results.
#[derive(Clone, Copy, Debug, PartialEq, Eq, Structural)]
pub enum OutputFormat {
    Console,
    Json,
}

impl OutputFormat {
    /// The format that a `--format` value names; any value but `json` means console.
    pub open spec fn spec_from_arg(s: Seq<char>) -> OutputFormat {
        if s == "json"@ {
            OutputFormat::Json
        } else {
            OutputFormat::Console
        }
    }

    /// Reads the `--format` value.
    pub fn from_arg(s: &str) -> (f: OutputFormat)
        ensures
            f == Self::spec_from_arg(s@),
    {
        if str_eq(s, "json") {
            OutputFormat::Json
        } else {
            OutputFormat::Console
        }
    }
}

/// The minimum severity that a `--min-severity` value names; an unknown value means `Info`.
pub open spec fn spec_min_severity_from_arg(s: Seq<char>) -> Severity {
    match Severity::spec_from_level(s) {
        Some(level) => level,
        None => Severity::Info,
    }
}

/// Reads the `--min-severity` value.
pub fn min_severity_from_arg(s: &str) -> (r: Severity)
    ensures
        r == spec_min_severity_from_arg(s@),
{
    match Severity::from_level(s) {
        Some(level) => level,
        None => Severity::Info,
    }
}

/// The threshold that an `--exit-code-level` value names; an unknown value means `High`.
pub open spec fn spec_exit_level_from_arg(s: Seq<char>) -> Severity {
    match Severity::spec_from_level(s) {
        Some(level) => level,
        None => Severity::High,
    }
}

/// Reads the `--exit-code-level` value.
pub fn exit_level_from_arg(s: &str) -> (r: Severity)
    ensures
        r == spec_exit_level_from_arg(s@),
{
    match Severity::from_level(s) {
        Some(level) => level,
        None => Severity::High,
    }
}

/// Whether any flag that names a command other than an analysis is set.
pub open spec fn command_flag_set(flags: CliFlags) -> bool {
    flags.init_config || flags.setup_api_keys || flags.list_detectors || flags.version_info
        || flags.clear_cache || flags.cache_stats || flags.lsp
}

/// The selected command is the first set flag in the order `--init-config`,
/// `--setup-api-keys`, `--list-detectors`, `--version-info`, `--clear-cache`,
/// `--cache-stats`, `--lsp`; an analysis of the URL or of the files runs only when no
/// such flag is set. In particular `--lsp` starts the server whatever `--from-url`
/// holds, once no earlier flag is set.
pub proof fn lemma_command_priority(flags: CliFlags)
    ensures
        spec_select_command(flags) is InitConfig <==> flags.init_config,
        spec_select_command(flags) is SetupApiKeys <==> (!flags.init_config
            && flags.setup_api_keys),
        spec_select_command(flags) is ListDetectors <==> (!flags.init_config
            && !flags.setup_api_keys && flags.list_detectors),
        spec_select_command(flags) is VersionInfo <==> (!flags.init_config
            && !flags.setup_api_keys && !flags.list_detectors && flags.version_info),
        spec_select_command(flags) is ClearCache <==> (!flags.init_config
            && !flags.setup_api_keys && !flags.list_detectors && !flags.version_info
            && flags.clear_cache),
        spec_select_command(flags) is CacheStats <==> (!flags.init_config
            && !flags.setup_api_keys && !flags.list_detectors && !flags.version_info
            && !flags.clear_cache && flags.cache_stats),
        spec_select_command(flags) is Lsp <==> (!flags.init_config && !flags.setup_api_keys
            && !flags.list_detectors && !flags.version_info && !flags.clear_cache
            && !flags.cache_stats && flags.lsp),
        spec_select_command(flags) is AnalyzeUrl <==> (!command_flag_set(flags)
            && flags.from_url is Some),
        spec_select_command(flags) is AnalyzeUrl ==> flags.from_url == Some(
            spec_select_command(flags)->AnalyzeUrl_0,
        ),
        spec_select_command(flags) is AnalyzeFiles <==> (!command_flag_set(flags)
            && flags.from_url is None),
{
}

/// Each level name reads as the severity it names, both as a minimum severity and as
/// an exit-code level, and a value that names a level is that level's name; only a
/// value that names no level falls back (to `Info` and `High`).
pub proof fn lemma_level_names(s: Severity, arg: Seq<char>)
    ensures
        Severity::spec_from_level(level_name(s)) == Some(s),
        spec_min_severity_from_arg(level_name(s)) == s,
        spec_exit_level_from_arg(level_name(s)) == s,
        Severity::spec_from_level(arg) == Some(s) ==> arg == level_name(s),
        (forall|t: Severity| arg != #[trigger] level_name(t)) ==> (spec_min_severity_from_arg(arg)
            == Severity::Info && spec_exit_level_from_arg(arg) == Severity::High),
        Severity::spec_from_level(arg) matches Some(l) ==> spec_min_severity_from_arg(arg) == l
            && spec_exit_level_from_arg(arg) == l,
{
    reveal_strlit("info");
    reveal_strlit("low");
    reveal_strlit("medium");
    reveal_strlit("high");
    reveal_strlit("critical");
    assert("high"@[0] != "info"@[0]);
    assert("low"@.len() != "info"@.len() && "low"@.len() != "high"@.len());
    assert("medium"@.len() != "info"@.len() && "medium"@.len() != "low"@.len()
        && "medium"@.len() != "high"@.len() && "medium"@.len() != "critical"@.len());
    assert("critical"@.len() != "info"@.len() && "critical"@.len() != "low"@.len()
        && "critical"@.len() != "high"@.len());
    if forall|t: Severity| arg != #[trigger] level_name(t) {
        assert(arg != level_name(Severity::Info));
        assert(arg != level_name(Severity::Low));
        assert(arg != level_name(Severity::Medium));
        assert(arg != level_name(Severity::High));
        assert(arg != level_name(Severity::Critical));
    }
}

/// The two values that `--format` accepts select the two formats: `json` gives JSON
/// and `console` gives console output.
pub proof fn lemma_format_values()
    ensures
        OutputFormat::spec_from_arg("json"@) == OutputFormat::Json,
        OutputFormat::spec_from_arg("console"@) == OutputFormat::Console,
{
    reveal_strlit("json");
    reveal_strlit("console");
    assert("console"@.len() != "json"@.len());
}

} // verus!
