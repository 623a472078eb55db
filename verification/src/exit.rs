use vstd::prelude::*;

use crate::severity::Severity;
use crate::summary::{lemma_at_or_above_means_serious_count, AnalysisSummary};

verus! {

/// Standard exit codes for CI/CD integration.
#[derive(Clone, Copy, Debug, PartialEq, Eq, Structural)]
pub enum ExitCode {
    /// No issues found.
    Success,
    /// Security issues found.
    SecurityIssues,
    /// Analysis failed (file errors, parsing errors).
    AnalysisError,
    /// Configuration errors.
    ConfigError,
    /// Internal tool errors.
    InternalError,
}

impl ExitCode {
    /// The process exit status that the code stands for.
    pub open spec fn spec_code(self) -> i32 {
        match self {
            ExitCode::Success => 0,
            ExitCode::SecurityIssues => 1,
            ExitCode::AnalysisError => 2,
            ExitCode::ConfigError => 3,
            ExitCode::InternalError => 4,
        }
    }

    /// Converts to the process exit code.
    pub fn as_code(&self) -> (c: i32)
        ensures
            c == self.spec_code(),
    {
        match self {
            ExitCode::Success => 0,
            ExitCode::SecurityIssues => 1,
            ExitCode::AnalysisError => 2,
            ExitCode::ConfigError => 3,
            ExitCode::InternalError => 4,
        }
    }
}

/// Distinct exit codes have distinct statuses: 0 for no issues, 1 for security issues,
/// 2 for analysis errors, 3 for configuration errors and 4 for internal errors.
pub proof fn lemma_exit_codes_distinct(a: ExitCode, b: ExitCode)
    ensures
        a.spec_code() == b.spec_code() <==> a == b,
        a.spec_code() == 0 <==> a == ExitCode::Success,
        0 <= a.spec_code() <= 4,
        ExitCode::Success.spec_code() == 0,
        ExitCode::SecurityIssues.spec_code() == 1,
        ExitCode::AnalysisError.spec_code() == 2,
        ExitCode::ConfigError.spec_code() == 3,
        ExitCode::InternalError.spec_code() == 4,
{
}

/// Exit code configuration for different CI/CD scenarios.
#[derive(Clone, Copy, Debug, PartialEq, Eq, Structural)]
pub struct ExitCodeConfig {
    /// Exit with error on any finding at or above this severity.
    pub error_on_severity: Option<Severity>,
    /// Exit with error only on high/critical findings (default behaviour).
    pub error_on_high_severity: bool,
    /// Exit with error if any files fail to analyze.
    pub error_on_analysis_failure: bool,
    /// Exit with error if no files were successfully analyzed.
    pub error_on_no_files: bool,
}

/// The configuration used when no flag changes it.
pub open spec fn default_exit_config() -> ExitCodeConfig {
    ExitCodeConfig {
        error_on_severity: None,
        error_on_high_severity: true,
        error_on_analysis_failure: true,
        error_on_no_files: false,
    }
}

impl Default for ExitCodeConfig {
    fn default() -> (c: ExitCodeConfig)
        ensures
            c == default_exit_config(),
    {
        ExitCodeConfig {
            error_on_severity: None,
            error_on_high_severity: true,
            error_on_analysis_failure: true,
            error_on_no_files: false,
        }
    }
}

/// The configuration that the command-line flags select, starting from the default:
/// `--no-exit-code` clears every error condition, `--exit-code-level` replaces the
/// high/critical rule by its own threshold, and `--exit-on-analysis-error` (which
/// wins) or `--no-exit-on-analysis-error` set the analysis-failure rule.
pub open spec fn spec_exit_config_from_flags(
    no_exit_code: bool,
    exit_code_level: Option<Severity>,
    exit_on_analysis_error: bool,
    no_exit_on_analysis_error: bool,
) -> ExitCodeConfig {
    let base = default_exit_config();
    let after_no_exit = if no_exit_code {
        ExitCodeConfig {
            error_on_severity: None,
            error_on_high_severity: false,
            error_on_analysis_failure: false,
            ..base
        }
    } else {
        base
    };
    let after_level = match exit_code_level {
        Some(level) => ExitCodeConfig {
            error_on_severity: Some(level),
            error_on_high_severity: false,
            ..after_no_exit
        },
        None => after_no_exit,
    };
    if exit_on_analysis_error {
        ExitCodeConfig { error_on_analysis_failure: true, ..after_level }
    } else if no_exit_on_analysis_error {
        ExitCodeConfig { error_on_analysis_failure: false, ..after_level }
    } else {
        after_level
    }
}

impl ExitCodeConfig {
    /// Builds the configuration that the exit-code flags of the command line ask for.
    pub fn from_flags(
        no_exit_code: bool,
        exit_code_level: Option<Severity>,
        exit_on_analysis_error: bool,
        no_exit_on_analysis_error: bool,
    ) -> (c: ExitCodeConfig)
        ensures
            c == spec_exit_config_from_flags(
                no_exit_code,
                exit_code_level,
                exit_on_analysis_error,
                no_exit_on_analysis_error,
            ),
    {
        let mut config = ExitCodeConfig::default();
        if no_exit_code {
            config.error_on_severity = None;
            config.error_on_high_severity = false;
            config.error_on_analysis_failure = false;
        }
        match exit_code_level {
            Some(level) => {
                config.error_on_severity = Some(level);
                config.error_on_high_severity = false;
            },
            None => {},
        }
        if exit_on_analysis_error {
            config.error_on_analysis_failure = true;
        } else if no_exit_on_analysis_error {
            config.error_on_analysis_failure = false;
        }
        config
    }
}

/// The exit code for an analysis summarised by `summary` under `config`: analysis
/// failures first, then a run with no successfully analysed file, then the findings.
pub open spec fn spec_exit_code(summary: AnalysisSummary, config: ExitCodeConfig) -> ExitCode {
    if config.error_on_analysis_failure && summary.failed_files > 0 {
        ExitCode::AnalysisError
    } else if config.error_on_no_files && summary.successful_files == 0 {
        ExitCode::AnalysisError
    } else {
        match config.error_on_severity {
            Some(level) => if summary.spec_has_findings_at_or_above(level) {
                ExitCode::SecurityIssues
            } else {
                ExitCode::Success
            },
            None => if config.error_on_high_severity && summary.spec_has_findings_at_or_above(
                Severity::High,
            ) {
                ExitCode::SecurityIssues
            } else {
                ExitCode::Success
            },
        }
    }
}

/// Determines the exit code from the analysis results and the configuration.
pub fn determine_exit_code(summary: &AnalysisSummary, config: &ExitCodeConfig) -> (code: ExitCode)
    ensures
        code == spec_exit_code(*summary, *config),
{
    if config.error_on_analysis_failure && summary.failed_files > 0 {
        return ExitCode::AnalysisError;
    }
    if config.error_on_no_files && summary.successful_files == 0 {
        return ExitCode::AnalysisError;
    }
    match config.error_on_severity {
        Some(level) => {
            if summary.has_findings_at_or_above(&level) {
                return ExitCode::SecurityIssues;
            }
        },
        None => {
            if config.error_on_high_severity && summary.has_findings_at_or_above(&Severity::High) {
                return ExitCode::SecurityIssues;
            }
        },
    }
    ExitCode::Success
}

/// Which findings rule a non-zero exit code is reported under.
#[derive(Clone, Copy, Debug, PartialEq, Eq, Structural)]
pub enum FindingsReason {
    /// Findings at or above the configured level were found.
    AtOrAbove(Severity),
    /// High or critical findings were found (the default rule).
    HighOrCritical,
}

/// The reasons that are reported beside a non-zero exit code.
#[derive(Clone, Copy, Debug, PartialEq, Eq, Structural)]
pub struct ExitReasons {
    /// The number of files that failed, when failures make the run fail.
    pub failed_files: Option<usize>,
    /// The findings rule that matched, if any.
    pub findings: Option<FindingsReason>,
}

/// The reasons reported for a run: the failed files when failures count, and the
/// findings rule in force when findings match it.
pub open spec fn spec_exit_reasons(summary: AnalysisSummary, config: ExitCodeConfig) -> ExitReasons {
    ExitReasons {
        failed_files: if summary.failed_files > 0 && config.error_on_analysis_failure {
            Some(summary.failed_files)
        } else {
            None
        },
        findings: match config.error_on_severity {
            Some(level) => if summary.spec_has_findings_at_or_above(level) {
                Some(FindingsReason::AtOrAbove(level))
            } else {
                None
            },
            None => if config.error_on_high_severity && summary.spec_has_findings_at_or_above(
                Severity::High,
            ) {
                Some(FindingsReason::HighOrCritical)
            } else {
                None
            },
        },
    }
}

/// Works out the reasons printed when the run exits with a non-zero code.
pub fn exit_reasons(summary: &AnalysisSummary, config: &ExitCodeConfig) -> (r: ExitReasons)
    ensures
        r == spec_exit_reasons(*summary, *config),
{
    let failed_files = if summary.failed_files > 0 && config.error_on_analysis_failure {
        Some(summary.failed_files)
    } else {
        None
    };
    let findings = match config.error_on_severity {
        Some(level) => {
            if summary.has_findings_at_or_above(&level) {
                Some(FindingsReason::AtOrAbove(level))
            } else {
                None
            }
        },
        None => {
            if config.error_on_high_severity && summary.has_findings_at_or_above(&Severity::High) {
                Some(FindingsReason::HighOrCritical)
            } else {
                None
            }
        },
    };
    ExitReasons { failed_files, findings }
}

/// Only `Success`, `SecurityIssues` and `AnalysisError` are ever decided, and a
/// non-zero code always comes with a reason unless it is due to an empty run.
pub proof fn lemma_exit_code_has_reason(summary: AnalysisSummary, config: ExitCodeConfig)
    ensures
        spec_exit_code(summary, config) != ExitCode::ConfigError,
        spec_exit_code(summary, config) != ExitCode::InternalError,
        spec_exit_code(summary, config) == ExitCode::SecurityIssues ==> spec_exit_reasons(
            summary,
            config,
        ).findings is Some,
        spec_exit_code(summary, config) == ExitCode::AnalysisError ==> (spec_exit_reasons(
            summary,
            config,
        ).failed_files is Some || (config.error_on_no_files && summary.successful_files == 0)),
{
}

/// With `--no-exit-code` alone, the run always exits with code 0, whatever it found.
pub proof fn lemma_no_exit_code_always_succeeds(summary: AnalysisSummary)
    ensures
        spec_exit_code(summary, spec_exit_config_from_flags(true, None, false, false))
            == ExitCode::Success,
{
}

/// By default the run fails with `AnalysisError` when a file failed, and otherwise
/// with `SecurityIssues` exactly when a high or critical finding was reported.
pub proof fn lemma_default_exit_code(summary: AnalysisSummary)
    ensures
        spec_exit_code(summary, default_exit_config()) == if summary.failed_files > 0 {
            ExitCode::AnalysisError
        } else if summary.spec_has_findings_at_or_above(Severity::High) {
            ExitCode::SecurityIssues
        } else {
            ExitCode::Success
        },
{
}

/// With `--exit-code-level`, a run without failed files fails exactly when findings
/// at or above that level were reported, whether or not `--no-exit-code` is given.
pub proof fn lemma_exit_code_level(summary: AnalysisSummary, level: Severity, no_exit_code: bool)
    requires
        summary.failed_files == 0,
    ensures
        spec_exit_code(summary, spec_exit_config_from_flags(no_exit_code, Some(level), false, false))
            == if summary.spec_has_findings_at_or_above(level) {
            ExitCode::SecurityIssues
        } else {
            ExitCode::Success
        },
{
}

/// A failed file makes the run fail with `AnalysisError` whenever
/// `--exit-on-analysis-error` is given, whatever the other flags say.
pub proof fn lemma_exit_on_analysis_error(
    summary: AnalysisSummary,
    no_exit_code: bool,
    exit_code_level: Option<Severity>,
    no_exit_on_analysis_error: bool,
)
    requires
        summary.failed_files > 0,
    ensures
        spec_exit_code(
            summary,
            spec_exit_config_from_flags(no_exit_code, exit_code_level, true, no_exit_on_analysis_error),
        ) == ExitCode::AnalysisError,
{
}

/// When no file failed, the analysis-failure rule has no effect on the exit code.
pub proof fn lemma_failure_rule_needs_failures(summary: AnalysisSummary, config: ExitCodeConfig)
    requires
        summary.failed_files == 0,
    ensures
        spec_exit_code(summary, config) == spec_exit_code(
            summary,
            ExitCodeConfig { error_on_analysis_failure: !config.error_on_analysis_failure, ..config },
        ),
{
}

/// Without a failed file and without the empty-run rule firing, the findings rule alone
/// decides: under the default high/critical rule the run fails exactly when a high or
/// critical finding was counted, and under a level `l` other than `Info` exactly when a
/// finding at least as serious as `l` was counted.
pub proof fn lemma_findings_rule(summary: AnalysisSummary, config: ExitCodeConfig)
    requires
        summary.failed_files == 0,
        !(config.error_on_no_files && summary.successful_files == 0),
    ensures
        config.error_on_severity is None && config.error_on_high_severity ==> (spec_exit_code(
            summary,
            config,
        ) == ExitCode::SecurityIssues <==> (summary.count(Severity::High) > 0 || summary.count(
            Severity::Critical,
        ) > 0)),
        config.error_on_severity is None && !config.error_on_high_severity ==> spec_exit_code(
            summary,
            config,
        ) == ExitCode::Success,
        forall|l: Severity|
            config.error_on_severity == Some(l) && l != Severity::Info ==> (spec_exit_code(
                summary,
                config,
            ) == ExitCode::SecurityIssues <==> exists|t: Severity|
                t.spec_rank() >= l.spec_rank() && #[trigger] summary.count(t) > 0),
        spec_exit_code(summary, config) != ExitCode::AnalysisError,
{
    lemma_at_or_above_means_serious_count(summary, Severity::High);
    if summary.count(Severity::High) > 0 {
        assert(summary.count(Severity::High) > 0);
    }
    if summary.count(Severity::Critical) > 0 {
        assert(summary.count(Severity::Critical) > 0);
    }
    assert forall|l: Severity|
        config.error_on_severity == Some(l) && l != Severity::Info implies (spec_exit_code(
            summary,
            config,
        ) == ExitCode::SecurityIssues <==> exists|t: Severity|
            t.spec_rank() >= l.spec_rank() && #[trigger] summary.count(t) > 0) by {
        lemma_at_or_above_means_serious_count(summary, l);
    }
}

/// The configuration read from the exit-code flags, field by field: the level given
/// with `--exit-code-level`; the high/critical rule unless `--no-exit-code` or a level
/// is given; the analysis-failure rule when `--exit-on-analysis-error` is given, or
/// when neither `--no-exit-code` nor `--no-exit-on-analysis-error` is; never the
/// empty-run rule. In particular `--exit-code-level` changes only the findings rule.
pub proof fn lemma_exit_config_fields(
    no_exit_code: bool,
    exit_code_level: Option<Severity>,
    exit_on_analysis_error: bool,
    no_exit_on_analysis_error: bool,
)
    ensures
        ({
            let c = spec_exit_config_from_flags(
                no_exit_code,
                exit_code_level,
                exit_on_analysis_error,
                no_exit_on_analysis_error,
            );
            &&& c.error_on_severity == exit_code_level
            &&& c.error_on_high_severity == (!no_exit_code && exit_code_level is None)
            &&& c.error_on_analysis_failure == (exit_on_analysis_error || (!no_exit_code
                && !no_exit_on_analysis_error))
            &&& !c.error_on_no_files
        }),
        forall|level: Severity|
            #![trigger spec_exit_config_from_flags(no_exit_code, Some(level), exit_on_analysis_error, no_exit_on_analysis_error)]
            spec_exit_config_from_flags(
                no_exit_code,
                Some(level),
                exit_on_analysis_error,
                no_exit_on_analysis_error,
            ).error_on_analysis_failure == spec_exit_config_from_flags(
                no_exit_code,
                None,
                exit_on_analysis_error,
                no_exit_on_analysis_error,
            ).error_on_analysis_failure && spec_exit_config_from_flags(
                no_exit_code,
                Some(level),
                exit_on_analysis_error,
                no_exit_on_analysis_error,
            ).error_on_no_files == spec_exit_config_from_flags(
                no_exit_code,
                None,
                exit_on_analysis_error,
                no_exit_on_analysis_error,
            ).error_on_no_files,
{
}

/// With only `--exit-code-level` given, a failed file still makes the run fail with
/// `AnalysisError`.
pub proof fn lemma_exit_level_keeps_failure_rule(summary: AnalysisSummary, level: Severity)
    requires
        summary.failed_files > 0,
    ensures
        spec_exit_code(summary, spec_exit_config_from_flags(false, Some(level), false, false))
            == ExitCode::AnalysisError,
{
}

/// The failure rules come first: with the analysis-failure rule on, a failed file
/// always gives `AnalysisError`, and so does a run without a successful file under the
/// empty-run rule, whatever was found.
pub proof fn lemma_failures_first(summary: AnalysisSummary, config: ExitCodeConfig)
    ensures
        config.error_on_analysis_failure && summary.failed_files > 0 ==> spec_exit_code(
            summary,
            config,
        ) == ExitCode::AnalysisError,
        config.error_on_no_files && summary.successful_files == 0 ==> spec_exit_code(
            summary,
            config,
        ) == ExitCode::AnalysisError,
        spec_exit_code(summary, config) == ExitCode::AnalysisError ==> ((
        config.error_on_analysis_failure && summary.failed_files > 0) || (config.error_on_no_files
            && summary.successful_files == 0)),
{
}

/// The reasons reported, in terms of the counts: the number of failed files when some
/// failed and the failure rule is on; the configured level when a finding at least as
/// serious was counted (any finding, for `Info`); and the high/critical rule when it is
/// in force and a high or critical finding was counted.
pub proof fn lemma_exit_reasons_from_counts(summary: AnalysisSummary, config: ExitCodeConfig)
    ensures
        spec_exit_reasons(summary, config).failed_files == (if summary.failed_files > 0
            && config.error_on_analysis_failure {
            Some(summary.failed_files)
        } else {
            None
        }),
        config.error_on_severity == Some(Severity::Info) ==> (spec_exit_reasons(
            summary,
            config,
        ).findings == Some(FindingsReason::AtOrAbove(Severity::Info)) <==> summary.total_findings
            > 0),
        forall|l: Severity|
            config.error_on_severity == Some(l) && l != Severity::Info ==> (#[trigger] spec_exit_reasons(
                summary,
                config,
            ).findings == Some(FindingsReason::AtOrAbove(l)) <==> exists|t: Severity|
                t.spec_rank() >= l.spec_rank() && #[trigger] summary.count(t) > 0),
        config.error_on_severity is Some ==> !(spec_exit_reasons(summary, config).findings
            == Some(FindingsReason::HighOrCritical)),
        config.error_on_severity is None ==> (spec_exit_reasons(summary, config).findings
            == Some(FindingsReason::HighOrCritical) <==> (config.error_on_high_severity && (
        summary.count(Severity::High) > 0 || summary.count(Severity::Critical) > 0))),
        config.error_on_severity is None ==> !(spec_exit_reasons(summary, config).findings
            is Some && spec_exit_reasons(summary, config).findings != Some(
            FindingsReason::HighOrCritical,
        )),
{
    lemma_at_or_above_means_serious_count(summary, Severity::High);
    if summary.count(Severity::High) > 0 {
        assert(summary.count(Severity::High) > 0);
    }
    if summary.count(Severity::Critical) > 0 {
        assert(summary.count(Severity::Critical) > 0);
    }
    assert forall|l: Severity|
        config.error_on_severity == Some(l) && l != Severity::Info implies (#[trigger] spec_exit_reasons(
            summary,
            config,
        ).findings == Some(FindingsReason::AtOrAbove(l)) <==> exists|t: Severity|
            t.spec_rank() >= l.spec_rank() && #[trigger] summary.count(t) > 0) by {
        lemma_at_or_above_means_serious_count(summary, l);
    }
}

} // verus!
