use xtask::toml_doc::TomlDependency;
use xtask::validate_cli_deps::{
    check_registry_body, crate_index_prefix, crate_manifest_from_text, crate_manifest_path, discover_wavecraft_deps,
    last_line, select_wavecraft_deps, validate_dependency, CliDependency, CrateManifest,
    DiscoverError, RegistryVerdict, ValidateCliDepsConfig,
};

#[test]
fn test_crate_index_prefix() {
    assert_eq!(crate_index_prefix("a"), "1/a");
    assert_eq!(crate_index_prefix("ab"), "2/ab");
    assert_eq!(crate_index_prefix("abc"), "3/a/abc");
    assert_eq!(crate_index_prefix("abcd"), "ab/cd/abcd");
    assert_eq!(crate_index_prefix("wavecraft-core"), "wa/ve/wavecraft-core");
    assert_eq!(crate_index_prefix("wavecraft-bridge"), "wa/ve/wavecraft-bridge");
}

#[test]
fn test_check_registry_config_default() {
    let config = ValidateCliDepsConfig::default();
    assert!(!config.check_registry, "check_registry should default to false");
    assert!(!config.verbose, "verbose should default to false");
}

#[test]
fn test_detect_missing_version() {
    let toml_content = r#"
[package]
name = "test-cli"
version = "0.1.0"

[dependencies]
wavecraft-foo = { path = "../engine/crates/wavecraft-foo" }
"#;

    let deps = discover_wavecraft_deps(toml_content).expect("should parse");
    assert_eq!(deps.len(), 1);
    assert!(!deps[0].has_version, "Should detect missing version");
    assert_eq!(deps[0].name, "wavecraft-foo");
}

#[test]
fn discovery_filters_sorts_and_reports_errors() {
    let content = "[dependencies]\nwavecraft-b = \"1.0\"\nserde = \"1\"\nwavecraft-a = { version = \"0.2\", path = \"../a\" }\n";
    let deps = discover_wavecraft_deps(content).expect("parses");
    let names: Vec<&str> = deps.iter().map(|d| d.name.as_str()).collect();
    assert_eq!(names, vec!["wavecraft-a", "wavecraft-b"]);
    assert_eq!(deps[0].version.as_deref(), Some("0.2"));
    assert_eq!(deps[0].path.as_deref(), Some("../a"));
    assert!(deps[1].has_version);
    assert_eq!(discover_wavecraft_deps("not = = toml").err(), Some(DiscoverError::ParseFailed));
    assert_eq!(discover_wavecraft_deps("[package]\nname = \"x\"\n").err(), Some(DiscoverError::NoDependenciesTable));
    let selected = select_wavecraft_deps(vec![
        ("wavecraft-z".to_string(), TomlDependency::Other),
        ("wavecraft-m".to_string(), TomlDependency::Version("1".to_string())),
    ]);
    assert_eq!(selected[0].name, "wavecraft-m");
    assert!(!selected[1].has_version);
}

#[test]
fn dependency_validation_messages() {
    let dep = CliDependency { name: "wavecraft-x".to_string(), has_version: false, version: None, path: None };
    assert_eq!(crate_manifest_path("/r", &dep), "/r/engine/crates/wavecraft-x/Cargo.toml");
    let errs = validate_dependency(&dep, &CrateManifest::Parsed { publish: Some(false) });
    let msgs: Vec<&str> = errs.iter().map(|e| e.message.as_str()).collect();
    assert_eq!(msgs, vec!["missing version field", "crate has publish = false"]);
    let ok = CliDependency { has_version: true, version: Some("1".to_string()), ..dep.clone() };
    assert!(validate_dependency(&ok, &CrateManifest::Parsed { publish: None }).is_empty());
    let missing = validate_dependency(&ok, &CrateManifest::NotFound { path: "/p".to_string() });
    assert_eq!(missing[0].message, "crate Cargo.toml not found at /p");
}

#[test]
fn registry_verdicts() {
    let body = "{\"name\":\"x\",\"vers\":\"0.10.0\"}\n{\"name\":\"x\",\"vers\":\"0.11.2\"}\n";
    assert_eq!(last_line(body).as_deref(), Some("{\"name\":\"x\",\"vers\":\"0.11.2\"}"));
    assert_eq!(last_line(""), None);
    assert_eq!(check_registry_body(Some("0.11.0"), body), RegistryVerdict::Available);
    assert_eq!(
        check_registry_body(Some("0.12.0"), body),
        RegistryVerdict::Incompatible { published: "0.11.2".to_string() }
    );
    assert_eq!(check_registry_body(None, body), RegistryVerdict::NoVersion);
    assert_eq!(check_registry_body(Some("1.0.0"), ""), RegistryVerdict::NotFound);
    assert_eq!(check_registry_body(Some("x.y"), body), RegistryVerdict::BadRequirement);
    assert_eq!(
        check_registry_body(Some("1.0.0"), "{\"vers\":\"nope\"}"),
        RegistryVerdict::BadPublishedVersion { published: "nope".to_string() }
    );
    // The requirement is parsed before the published version.
    assert_eq!(check_registry_body(Some("x.y"), "{\"vers\":\"nope\"}"), RegistryVerdict::BadRequirement);
}

#[test]
fn crate_manifest_text_is_read() {
    assert!(matches!(
        crate_manifest_from_text("[package]\npublish = false\n"),
        CrateManifest::Parsed { publish: Some(false) }
    ));
    assert!(matches!(crate_manifest_from_text("[package]\nname = \"x\"\n"), CrateManifest::Parsed { publish: None }));
    match crate_manifest_from_text("[package\n") {
        CrateManifest::ParseFailed { error } => assert!(!error.is_empty()),
        other => panic!("expected a parse failure, got {other:?}"),
    }
}

#[test]
fn discovery_reads_inline_and_section_tables() {
    let content = "[dependencies]\nwavecraft-x = { version = \"1.0\" }\n\n[dependencies.wavecraft-y]\npath = \"../y\"\nversion = \"2.0\"\n";
    let deps = discover_wavecraft_deps(content).expect("parses");
    assert_eq!(deps.len(), 2);
    assert_eq!(deps[0].name, "wavecraft-x");
    assert_eq!(deps[0].path, None);
    assert_eq!(deps[1].name, "wavecraft-y");
    assert_eq!(deps[1].path.as_deref(), Some("../y"));
    assert_eq!(deps[1].version.as_deref(), Some("2.0"));
}
