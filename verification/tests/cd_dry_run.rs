use xtask::cd_dry_run::{
    confidence_boundary_notes, detect_changes_from_diff, dev_server_skip_reason, is_cli_change,
    is_cli_root_file, is_dev_server_change, is_engine_change, is_npm_components_change,
    is_npm_core_change, is_publishable_crate, parse_changed_files, read_crate_name,
    read_engine_workspace_version, read_package_json_version, read_toml_package_version,
    resolve_changes, yes_no, CdDryRunConfig, ChangeSet, ManifestFieldError, PhaseSummary,
};

#[test]
fn test_cli_path_detection() {
    assert!(is_cli_change("cli/src/main.rs"));
    assert!(is_cli_change("cli/build.rs"));
    assert!(is_cli_change("cli/Cargo.toml"));
    assert!(is_cli_change("cli/README.md"));
    assert!(is_cli_change("sdk-template/engine/Cargo.toml.template"));
    assert!(!is_cli_change("engine/Cargo.toml"));
}

#[test]
fn test_engine_path_detection() {
    assert!(is_engine_change("engine/Cargo.toml"));
    assert!(is_engine_change("engine/crates/wavecraft-core/src/lib.rs"));
    assert!(is_engine_change(
        "engine/crates/wavecraft-protocol/src/messages.rs"
    ));
    assert!(!is_engine_change(
        "engine/crates/wavecraft-nih_plug/src/lib.rs"
    ));
}

#[test]
fn test_dev_server_path_detection() {
    assert!(is_dev_server_change("dev-server/src/lib.rs"));
    assert!(!is_dev_server_change("cli/src/main.rs"));
}

#[test]
fn test_npm_path_detection() {
    assert!(is_npm_core_change("ui/packages/core/src/index.ts"));
    assert!(is_npm_components_change(
        "ui/packages/components/src/index.tsx"
    ));
    assert!(!is_npm_core_change("ui/src/main.ts"));
    assert!(!is_npm_components_change("ui/src/App.tsx"));
}

#[test]
fn cd_dry_run_test_default_config() {
    let config = CdDryRunConfig::default();
    assert!(!config.verbose);
    assert_eq!(config.base_ref, "main");
}

#[test]
fn test_dev_server_skip_reason_when_engine_and_dev_server_changed() {
    let changes = ChangeSet {
        engine: true,
        dev_server: true,
        ..Default::default()
    };

    assert!(dev_server_skip_reason(changes).is_some());
}

#[test]
fn test_dev_server_skip_reason_none_when_only_dev_server_changed() {
    let changes = ChangeSet {
        engine: false,
        dev_server: true,
        ..Default::default()
    };

    assert!(dev_server_skip_reason(changes).is_none());
}

#[test]
fn test_resolve_changes_falls_back_on_detection_error() {
    let (changes, used_fallback, fallback_error) =
        resolve_changes(Err("simulated git diff failure".to_string()));

    assert!(used_fallback);
    assert!(fallback_error.is_some());
    assert!(changes.cli);
    assert!(changes.engine);
    assert!(changes.dev_server);
    assert!(changes.npm_core);
    assert!(changes.npm_components);
}

#[test]
fn test_confidence_boundary_notes_include_fallback_and_skips() {
    let mut summary = PhaseSummary::default();
    summary.skip("cli", "intentionally skipped");
    summary.skip("dev-server", "engine changed");

    let notes = confidence_boundary_notes(&summary, true);

    assert_eq!(notes.len(), 3);
    assert!(notes.iter().any(|n| n.contains("fell back to all targets")));
    assert!(notes.iter().any(|n| n.contains("CLI publish dry-run")));
    assert!(notes
        .iter()
        .any(|n| n.contains("dev-server publish dry-run")));
}

#[test]
fn cli_root_file_excludes_subdirectories_and_bare_prefix() {
    assert!(is_cli_root_file("cli/Cargo.toml"));
    assert!(!is_cli_root_file("cli/"));
    assert!(!is_cli_root_file("cli/tests/a.rs"));
    assert!(!is_cli_root_file("engine/cli/x"));
}

#[test]
fn resolve_changes_keeps_detected_changes() {
    let detected = ChangeSet {
        npm_core: true,
        ..Default::default()
    };
    let (changes, used_fallback, error) = resolve_changes(Ok((detected, false)));
    assert_eq!(changes, detected);
    assert!(!used_fallback);
    assert!(error.is_none());
}

#[test]
fn diff_output_is_trimmed_and_classified() {
    let out = "  cli/src/main.rs \r\n\nui/packages/components/x.tsx\n";
    let paths = parse_changed_files(out);
    assert_eq!(paths, vec!["cli/src/main.rs".to_string(), "ui/packages/components/x.tsx".to_string()]);
    let (changes, fallback) = detect_changes_from_diff(out);
    assert!(!fallback);
    assert_eq!(
        changes,
        ChangeSet {
            cli: true,
            npm_components: true,
            ..Default::default()
        }
    );
    let (none, _) = detect_changes_from_diff("");
    assert_eq!(none, ChangeSet::default());
}

#[test]
fn phase_summary_records_outcomes() {
    let mut summary = PhaseSummary::default();
    assert!(!summary.has_failures());
    summary.pass("engine/workspace");
    summary.fail("dev-server", "boom");
    assert!(summary.has_failures());
    assert_eq!(summary.passed, vec!["engine/workspace".to_string()]);
    assert_eq!(summary.failed, vec!["dev-server (boom)".to_string()]);
    let notes = confidence_boundary_notes(&summary, false);
    assert!(notes.is_empty());
    assert_eq!(yes_no(true), "yes");
    assert_eq!(yes_no(false), "no");
}

#[test]
fn manifest_fields_are_read_from_text() {
    let cli = "[package]\nname = \"wavecraft\"\nversion = \"0.9.1\"\n";
    assert_eq!(read_toml_package_version(cli), Ok("0.9.1".to_string()));
    assert_eq!(read_crate_name(cli), Ok("wavecraft".to_string()));
    assert_eq!(read_engine_workspace_version(cli), Err(ManifestFieldError::Missing));
    let engine = "[workspace.package]\nversion = \"0.9.2\"\n";
    assert_eq!(read_engine_workspace_version(engine), Ok("0.9.2".to_string()));
    assert_eq!(read_toml_package_version("not = = toml"), Err(ManifestFieldError::NotParsed));
    assert_eq!(read_toml_package_version("[package]\nversion = 3\n"), Err(ManifestFieldError::Missing));
    assert_eq!(is_publishable_crate(cli), Ok(true));
    assert_eq!(is_publishable_crate("[package]\npublish = false\n"), Ok(false));
    assert_eq!(is_publishable_crate("[package]\npublish = true\n"), Ok(true));
    assert_eq!(is_publishable_crate("[[["), Err(ManifestFieldError::NotParsed));
    assert_eq!(read_package_json_version("{\"version\": \"1.2.3\"}"), Ok("1.2.3".to_string()));
    assert_eq!(read_package_json_version("{\"name\": \"x\"}"), Err(ManifestFieldError::Missing));
    assert_eq!(read_package_json_version("{"), Err(ManifestFieldError::NotParsed));
}
