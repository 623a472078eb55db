use soliditydefend::exit::{
    determine_exit_code, exit_reasons, ExitCode, ExitCodeConfig, ExitReasons, FindingsReason,
};
use soliditydefend::severity::Severity;
use soliditydefend::summary::{count_by_severity, AnalysisSummary};

fn summary_with(severities: &[Severity], failed: usize) -> AnalysisSummary {
    let mut s = AnalysisSummary::default();
    s.record_analyzed_file(&severities.to_vec());
    for _ in 0..failed {
        s.record_failed_file();
    }
    s
}

#[test]
fn exit_code_numbers() {
    assert_eq!(ExitCode::Success.as_code(), 0);
    assert_eq!(ExitCode::SecurityIssues.as_code(), 1);
    assert_eq!(ExitCode::AnalysisError.as_code(), 2);
    assert_eq!(ExitCode::ConfigError.as_code(), 3);
    assert_eq!(ExitCode::InternalError.as_code(), 4);
}

#[test]
fn default_summary_is_empty() {
    let s = AnalysisSummary::default();
    assert_eq!(s.total_files, 0);
    assert_eq!(s.successful_files, 0);
    assert_eq!(s.failed_files, 0);
    assert_eq!(s.total_findings, 0);
    assert!(s.findings_by_severity.is_empty());
    assert!(!s.has_findings_at_or_above(&Severity::Info));
}

#[test]
fn add_finding_counts_per_severity() {
    let mut s = AnalysisSummary::default();
    s.add_finding(&Severity::Medium);
    s.add_finding(&Severity::Medium);
    s.add_finding(&Severity::Critical);
    assert_eq!(s.total_findings, 3);
    assert_eq!(s.findings_at(&Severity::Medium), 2);
    assert_eq!(s.findings_at(&Severity::Critical), 1);
    assert_eq!(s.findings_at(&Severity::Low), 0);
    assert_eq!(s.findings_by_severity.get(&Severity::Medium.rank()), Some(&2));
}

#[test]
fn findings_at_or_above_cascade() {
    let mut s = AnalysisSummary::default();
    s.add_finding(&Severity::Medium);
    assert!(s.has_findings_at_or_above(&Severity::Info));
    assert!(s.has_findings_at_or_above(&Severity::Low));
    assert!(s.has_findings_at_or_above(&Severity::Medium));
    assert!(!s.has_findings_at_or_above(&Severity::High));
    assert!(!s.has_findings_at_or_above(&Severity::Critical));
}

#[test]
fn info_level_looks_at_total_only() {
    let mut s = AnalysisSummary::default();
    s.total_findings = 1;
    assert!(s.has_findings_at_or_above(&Severity::Info));
    assert!(!s.has_findings_at_or_above(&Severity::Low));
}

#[test]
fn record_files() {
    let mut s = summary_with(&[Severity::Low, Severity::High, Severity::Low], 2);
    assert_eq!(s.total_files, 3);
    assert_eq!(s.successful_files, 1);
    assert_eq!(s.failed_files, 2);
    assert_eq!(s.total_findings, 3);
    assert_eq!(s.findings_at(&Severity::Low), 2);
    assert_eq!(s.findings_at(&Severity::High), 1);
    s.record_analyzed_file(&Vec::new());
    assert_eq!(s.total_files, 4);
    assert_eq!(s.successful_files, 2);
    assert_eq!(s.total_findings, 3);
}

#[test]
fn default_config() {
    let c = ExitCodeConfig::default();
    assert_eq!(c.error_on_severity, None);
    assert!(c.error_on_high_severity);
    assert!(c.error_on_analysis_failure);
    assert!(!c.error_on_no_files);
    assert_eq!(ExitCodeConfig::from_flags(false, None, false, false), c);
}

#[test]
fn config_flags() {
    let c = ExitCodeConfig::from_flags(true, None, false, false);
    assert_eq!(c.error_on_severity, None);
    assert!(!c.error_on_high_severity);
    assert!(!c.error_on_analysis_failure);

    let c = ExitCodeConfig::from_flags(true, Some(Severity::Low), false, false);
    assert_eq!(c.error_on_severity, Some(Severity::Low));
    assert!(!c.error_on_high_severity);
    assert!(!c.error_on_analysis_failure);

    let c = ExitCodeConfig::from_flags(false, Some(Severity::Medium), false, true);
    assert_eq!(c.error_on_severity, Some(Severity::Medium));
    assert!(!c.error_on_analysis_failure);

    let c = ExitCodeConfig::from_flags(true, None, true, true);
    assert!(c.error_on_analysis_failure);
}

#[test]
fn default_exit_on_high_or_critical() {
    let c = ExitCodeConfig::default();
    assert_eq!(determine_exit_code(&summary_with(&[], 0), &c), ExitCode::Success);
    assert_eq!(
        determine_exit_code(&summary_with(&[Severity::Medium, Severity::Low], 0), &c),
        ExitCode::Success
    );
    assert_eq!(determine_exit_code(&summary_with(&[Severity::High], 0), &c), ExitCode::SecurityIssues);
    assert_eq!(
        determine_exit_code(&summary_with(&[Severity::Critical], 0), &c),
        ExitCode::SecurityIssues
    );
}

#[test]
fn analysis_failure_comes_first() {
    let c = ExitCodeConfig::default();
    assert_eq!(determine_exit_code(&summary_with(&[Severity::Critical], 1), &c), ExitCode::AnalysisError);
    let c = ExitCodeConfig::from_flags(false, None, false, true);
    assert_eq!(
        determine_exit_code(&summary_with(&[Severity::Critical], 1), &c),
        ExitCode::SecurityIssues
    );
}

#[test]
fn no_files_rule() {
    let mut c = ExitCodeConfig::default();
    c.error_on_no_files = true;
    c.error_on_analysis_failure = false;
    let mut s = AnalysisSummary::default();
    s.record_failed_file();
    assert_eq!(determine_exit_code(&s, &c), ExitCode::AnalysisError);
    c.error_on_no_files = false;
    assert_eq!(determine_exit_code(&s, &c), ExitCode::Success);
}

#[test]
fn no_exit_code_always_succeeds() {
    let c = ExitCodeConfig::from_flags(true, None, false, false);
    for failed in 0..3 {
        for sev in [Severity::Info, Severity::Low, Severity::Medium, Severity::High, Severity::Critical] {
            assert_eq!(determine_exit_code(&summary_with(&[sev, sev], failed), &c), ExitCode::Success);
        }
    }
}

#[test]
fn exit_code_level_threshold() {
    let c = ExitCodeConfig::from_flags(false, Some(Severity::Medium), false, false);
    assert_eq!(determine_exit_code(&summary_with(&[Severity::Low], 0), &c), ExitCode::Success);
    assert_eq!(
        determine_exit_code(&summary_with(&[Severity::Medium], 0), &c),
        ExitCode::SecurityIssues
    );
    let c = ExitCodeConfig::from_flags(false, Some(Severity::Info), false, false);
    assert_eq!(determine_exit_code(&summary_with(&[Severity::Info], 0), &c), ExitCode::SecurityIssues);
    assert_eq!(determine_exit_code(&summary_with(&[], 0), &c), ExitCode::Success);
}

#[test]
fn reasons_for_exit() {
    let c = ExitCodeConfig::default();
    let s = summary_with(&[Severity::High], 2);
    assert_eq!(
        exit_reasons(&s, &c),
        ExitReasons { failed_files: Some(2), findings: Some(FindingsReason::HighOrCritical) }
    );
    let c = ExitCodeConfig::from_flags(false, Some(Severity::Low), false, true);
    assert_eq!(
        exit_reasons(&s, &c),
        ExitReasons { failed_files: None, findings: Some(FindingsReason::AtOrAbove(Severity::Low)) }
    );
    let s = summary_with(&[Severity::Info], 0);
    assert_eq!(exit_reasons(&s, &c), ExitReasons { failed_files: None, findings: None });
}

#[test]
fn nonzero_counts_in_order() {
    let s = summary_with(&[Severity::High, Severity::Info, Severity::High], 0);
    assert_eq!(s.nonzero_counts(), vec![(Severity::Info, 1), (Severity::High, 2)]);
    assert_eq!(AnalysisSummary::default().nonzero_counts(), vec![]);
}

#[test]
fn counting_by_severity() {
    let sevs = vec![Severity::Critical, Severity::Low, Severity::Critical, Severity::Medium];
    assert_eq!(
        count_by_severity(&sevs),
        vec![(Severity::Low, 1), (Severity::Medium, 1), (Severity::Critical, 2)]
    );
    assert_eq!(count_by_severity(&Vec::new()), vec![]);
}

#[test]
fn exit_on_analysis_error_overrides_other_flags() {
    let s = summary_with(&[], 1);
    let c = ExitCodeConfig::from_flags(true, Some(Severity::Critical), true, true);
    assert_eq!(determine_exit_code(&s, &c), ExitCode::AnalysisError);
    let c = ExitCodeConfig::from_flags(true, None, true, false);
    assert_eq!(determine_exit_code(&s, &c), ExitCode::AnalysisError);
}
