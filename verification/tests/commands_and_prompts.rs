use soliditydefend::analysis::{analysis_duration_ms, select_at_or_above};
use soliditydefend::cli::{
    exit_level_from_arg, min_severity_from_arg, select_command, CliCommand, CliFlags, OutputFormat,
};
use soliditydefend::prompts::{api_key_export_line, confirms_overwrite};
use soliditydefend::severity::Severity;
use soliditydefend::version::{build_status, BuildStatus};

fn no_flags() -> CliFlags {
    CliFlags {
        init_config: false,
        setup_api_keys: false,
        list_detectors: false,
        version_info: false,
        clear_cache: false,
        cache_stats: false,
        lsp: false,
        from_url: None,
    }
}

#[test]
fn files_are_analysed_without_flags() {
    assert!(matches!(select_command(no_flags()), CliCommand::AnalyzeFiles));
}

#[test]
fn command_priority() {
    let mut f = no_flags();
    f.from_url = Some("https://etherscan.io/tx/0x1234".to_string());
    assert!(matches!(select_command(f.clone()), CliCommand::AnalyzeUrl(ref u) if u == "https://etherscan.io/tx/0x1234"));
    f.lsp = true;
    assert!(matches!(select_command(f.clone()), CliCommand::Lsp));
    f.cache_stats = true;
    assert!(matches!(select_command(f.clone()), CliCommand::CacheStats));
    f.clear_cache = true;
    assert!(matches!(select_command(f.clone()), CliCommand::ClearCache));
    f.version_info = true;
    assert!(matches!(select_command(f.clone()), CliCommand::VersionInfo));
    f.list_detectors = true;
    assert!(matches!(select_command(f.clone()), CliCommand::ListDetectors));
    f.setup_api_keys = true;
    let c = select_command(f.clone());
    assert!(matches!(c, CliCommand::SetupApiKeys));
    assert!(c.runs_without_config());
    f.init_config = true;
    let c = select_command(f);
    assert!(matches!(c, CliCommand::InitConfig));
    assert!(c.runs_without_config());
    assert!(!CliCommand::ListDetectors.runs_without_config());
    assert!(!CliCommand::AnalyzeFiles.runs_without_config());
}

#[test]
fn output_format_values() {
    assert_eq!(OutputFormat::from_arg("json"), OutputFormat::Json);
    assert_eq!(OutputFormat::from_arg("console"), OutputFormat::Console);
    assert_eq!(OutputFormat::from_arg("xml"), OutputFormat::Console);
}

#[test]
fn severity_argument_fallbacks() {
    assert_eq!(min_severity_from_arg("high"), Severity::High);
    assert_eq!(min_severity_from_arg("bogus"), Severity::Info);
    assert_eq!(exit_level_from_arg("low"), Severity::Low);
    assert_eq!(exit_level_from_arg("bogus"), Severity::High);
}

#[test]
fn overwrite_confirmation() {
    assert!(confirms_overwrite("y\n"));
    assert!(confirms_overwrite("  Yes please\n"));
    assert!(confirms_overwrite("Y"));
    assert!(!confirms_overwrite("n\n"));
    assert!(!confirms_overwrite("\n"));
    assert!(!confirms_overwrite(""));
    assert!(!confirms_overwrite("ok y"));
}

#[test]
fn api_key_lines() {
    assert_eq!(
        api_key_export_line("ETHERSCAN_API_KEY", "  abc123 \n"),
        Some("export ETHERSCAN_API_KEY=abc123".to_string())
    );
    assert_eq!(api_key_export_line("BSCSCAN_API_KEY", "\n"), None);
    assert_eq!(api_key_export_line("BSCSCAN_API_KEY", ""), None);
}

#[test]
fn build_statuses() {
    assert_eq!(build_status("true", "debug"), BuildStatus::DirtyDevelopment);
    assert_eq!(build_status("false", "debug"), BuildStatus::Development);
    assert_eq!(build_status("false", "release"), BuildStatus::Release);
    assert_eq!(build_status("unknown", "unknown"), BuildStatus::Release);
    assert_eq!(BuildStatus::DirtyDevelopment.description(), "Development build (dirty workspace)");
    assert_eq!(BuildStatus::Development.description(), "Development build");
    assert_eq!(BuildStatus::Release.description(), "Release build");
}

#[test]
fn severity_filter_keeps_order() {
    let sevs = vec![Severity::Low, Severity::High, Severity::Info, Severity::Critical, Severity::Medium];
    assert_eq!(select_at_or_above(&sevs, &Severity::Medium), vec![1, 3, 4]);
    assert_eq!(select_at_or_above(&sevs, &Severity::Info), vec![0, 1, 2, 3, 4]);
    assert_eq!(select_at_or_above(&sevs, &Severity::Critical), vec![3]);
    assert_eq!(select_at_or_above(&Vec::new(), &Severity::Info), Vec::<usize>::new());
}

#[test]
fn duration_in_milliseconds() {
    assert_eq!(analysis_duration_ms(100, 100), 0);
    assert_eq!(analysis_duration_ms(100, 103), 3000);
}
