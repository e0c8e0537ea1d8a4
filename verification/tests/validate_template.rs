use xtask::validate_template::{normalized_ui_package, NormalizeError};
use xtask::validate_template::{
    check_engine_identifiers, create_test_plugin_args, expected_generated_files,
    git_source_overrides, output_contains_asset_regression_signature, output_contains_ready_marker,
    IdentifierMismatch, ValidateTemplateConfig,
};

#[test]
fn validate_template_test_default_config() {
    let config = ValidateTemplateConfig::default();
    assert!(!config.verbose);
    assert!(!config.keep);
}

#[test]
fn test_create_test_plugin_args_include_output_mode() {
    let args = create_test_plugin_args("/tmp/test-plugin", false);

    assert!(args.iter().any(|arg| arg == "--output"));

    let output_idx = args
        .iter()
        .position(|arg| arg == "--output")
        .expect("--output flag missing");
    assert_eq!(args.get(output_idx + 1), Some(&"/tmp/test-plugin".to_string()));
}

#[test]
fn test_create_test_plugin_args_local_sdk_mode() {
    let args = create_test_plugin_args("/tmp/test-plugin", true);
    assert!(args.iter().any(|arg| arg == "--local-sdk"));
}

#[test]
fn test_create_test_plugin_args_git_source_mode() {
    let args = create_test_plugin_args("/tmp/test-plugin", false);
    assert!(!args.iter().any(|arg| arg == "--local-sdk"));
}

#[test]
fn test_output_contains_asset_regression_signature_detects_include_dir_path() {
    let output = r#"panic at include_dir!("$CARGO_MANIFEST_DIR/assets/ui-dist")"#;
    assert!(output_contains_asset_regression_signature(output));
}

#[test]
fn test_output_contains_asset_regression_signature_detects_missing_assets_dir() {
    let output = "assets/ui-dist: No such file or directory";
    assert!(output_contains_asset_regression_signature(output));
}

#[test]
fn test_output_contains_asset_regression_signature_ignores_unrelated_output() {
    let output = "All servers running";
    assert!(!output_contains_asset_regression_signature(output));
}

#[test]
fn test_output_contains_ready_marker_detects_expected_text() {
    let output = "...\nAll servers running\n...";
    assert!(output_contains_ready_marker(output));
}

#[test]
fn test_output_contains_ready_marker_ignores_unrelated_output() {
    let output = "Server starting";
    assert!(!output_contains_ready_marker(output));
}

#[test]
fn engine_identifiers_and_overrides() {
    assert_eq!(check_engine_identifiers("[package]\nname = \"x\"\n"), Err(IdentifierMismatch::PackageName));
    assert_eq!(check_engine_identifiers("[package]\nname = \"my_plugin\"\n"), Err(IdentifierMismatch::LibName));
    assert_eq!(check_engine_identifiers("[package]\nname = \"my_plugin\"\n[lib]\nname = \"my_plugin\"\n"), Ok(()));
    let once = git_source_overrides("[workspace]\n", "/a", "/b", "/c").expect("appended");
    assert_eq!(
        once,
        "[workspace]\n\n\n[patch.\"https://github.com/RonHouben/wavecraft\"]\nwavecraft-nih_plug = { path = \"/a\" }\nwavecraft-dsp = { path = \"/b\" }\nwavecraft-dev-server = { path = \"/c\" }\n"
    );
    assert!(git_source_overrides(&once, "/a", "/b", "/c").is_none());
    assert_eq!(expected_generated_files().len(), 5);
}

#[test]
fn generated_ui_package_points_at_workspace() {
    let content = b"{\"name\":\"x\",\"dependencies\":{\"@wavecraft/core\":\"^0.7.0\",\"react\":\"18\"}}";
    let text = normalized_ui_package(content, "/w/ui/packages/core", "/w/ui/packages/components").expect("normalized");
    let v: serde_json::Value = serde_json::from_str(&text).expect("json");
    assert_eq!(v["dependencies"]["@wavecraft/core"], "file:/w/ui/packages/core");
    assert_eq!(v["dependencies"]["@wavecraft/components"], "file:/w/ui/packages/components");
    assert_eq!(v["dependencies"]["react"], "18");
    assert!(text.ends_with("}\n"));
    assert_eq!(normalized_ui_package(b"{", "a", "b"), Err(NormalizeError::NotParsed));
    assert_eq!(normalized_ui_package(b"{\"name\":\"x\"}", "a", "b"), Err(NormalizeError::MissingDependencies));
}
