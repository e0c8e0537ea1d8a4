use xtask::scoped_json::{apply_scoped_string_update, decode_json_pointer, ScopedStringUpdate, ScopedUpdateError};
use xtask::sync_ui_versions::{
    check_mode_exit_code, classify_movement, load_state, movement_allowed, parse_caret_baseline,
    parse_semver, policy_error_message, run, verify_applied, write_scoped_string_updates,
    LoadError, Manifests, SyncError, SyncMode, SyncOutcome, SyncUiVersionsConfig, VersionMovement,
};
use xtask::test_support::{fixture_manifests, SyncUiFixtureVersions};

fn default_config(mode: SyncMode) -> SyncUiVersionsConfig {
    SyncUiVersionsConfig { mode, allow_minor: false, allow_major: false, verbose: false }
}

fn fixture(core: &str, components: &str, peer: &str, tcore: &str, tcomp: &str) -> Manifests {
    fixture_manifests(SyncUiFixtureVersions {
        core_version: core,
        components_version: components,
        components_peer_core: peer,
        template_core_dep: tcore,
        template_components_dep: tcomp,
    })
    .expect("fixture manifests")
}

/// Runs the command and, in apply mode, writes what it produced back into
/// the manifests; returns the exit code.
fn run_at(m: &mut Manifests, config: SyncUiVersionsConfig) -> Result<i32, SyncError> {
    match run(config, m)? {
        SyncOutcome::Checked { exit_code, .. } => Ok(exit_code),
        SyncOutcome::Applied { core, components, template } => {
            if let Some(c) = core {
                m.core = c;
            }
            if let Some(c) = components {
                m.components = c;
            }
            if let Some(c) = template {
                m.template = c;
            }
            verify_applied(config, m)?;
            Ok(0)
        }
    }
}

fn versions(m: &Manifests) -> Vec<String> {
    let s = load_state(m).expect("state").state;
    vec![
        s.core_version.to_string(),
        s.components_version.to_string(),
        s.components_peer_core.to_string(),
        s.template_dep_core.to_string(),
        s.template_dep_components.to_string(),
    ]
}

fn message(e: SyncError) -> String {
    match e {
        SyncError::PolicyBlocked(v) => policy_error_message(&v),
        other => format!("{:?}", other),
    }
}

#[test]
fn movement_classification_and_policy_gates() {
    let base = parse_semver("0.7.4").expect("valid semver expected");
    let patch = parse_semver("0.7.5").expect("valid semver expected");
    let minor = parse_semver("0.8.0").expect("valid semver expected");
    let major = parse_semver("1.0.0").expect("valid semver expected");

    assert_eq!(classify_movement(&base, &base), VersionMovement::Unchanged);
    assert_eq!(classify_movement(&base, &patch), VersionMovement::Patch);
    assert_eq!(classify_movement(&base, &minor), VersionMovement::Minor);
    assert_eq!(classify_movement(&base, &major), VersionMovement::Major);

    let strict = default_config(SyncMode::Check);
    assert!(movement_allowed(VersionMovement::Patch, strict));
    assert!(!movement_allowed(VersionMovement::Minor, strict));
    assert!(!movement_allowed(VersionMovement::Major, strict));

    let allow_minor = SyncUiVersionsConfig { allow_minor: true, ..strict };
    assert!(movement_allowed(VersionMovement::Minor, allow_minor));
    assert!(!movement_allowed(VersionMovement::Major, allow_minor));

    let allow_major = SyncUiVersionsConfig { allow_major: true, ..strict };
    assert!(movement_allowed(VersionMovement::Minor, allow_major));
    assert!(movement_allowed(VersionMovement::Major, allow_major));
}

#[test]
fn parser_errors_on_invalid_semver_in_scoped_key() {
    let mut m = fixture("not-a-version", "0.7.4", "^0.7.4", "^0.7.4", "^0.7.4");
    let err = run_at(&mut m, default_config(SyncMode::Check)).expect_err("expected invalid semver error");
    match err {
        SyncError::Load(LoadError::InvalidSemver { key, raw, .. }) => {
            assert_eq!(key, "version");
            assert_eq!(raw, "not-a-version");
        }
        other => panic!("unexpected error: {:?}", other),
    }
}

#[test]
fn parser_errors_when_required_key_is_missing() {
    let mut m = fixture("0.7.5", "0.7.5", "^0.7.5", "^0.7.5", "^0.7.5");
    m.components = b"{\n  \"name\": \"@wavecraft/components\",\n  \"peerDependencies\": {\n    \"react\": \"^18.0.0\"\n  },\n  \"version\": \"0.7.5\"\n}\n".to_vec();
    let err = run_at(&mut m, default_config(SyncMode::Check)).expect_err("expected missing key error");
    match err {
        SyncError::Load(LoadError::MissingKey { pointer, .. }) => {
            assert_eq!(pointer, "/peerDependencies/@wavecraft~1core")
        }
        other => panic!("unexpected error: {:?}", other),
    }
}

#[test]
fn check_mode_detects_patch_drift_without_mutation() {
    let mut m = fixture("0.7.5", "0.7.4", "^0.7.0", "^0.7.1", "^0.7.1");
    let before = (m.core.clone(), m.components.clone(), m.template.clone());
    let code = run_at(&mut m, default_config(SyncMode::Check)).expect("check mode should return drift code");
    assert_eq!(code, 1);
    assert_eq!(before, (m.core.clone(), m.components.clone(), m.template.clone()));
}

#[test]
fn apply_mode_is_idempotent_and_aligns_scoped_keys() {
    let mut m = fixture("0.7.5", "0.7.4", "^0.7.0", "^0.7.1", "^0.7.1");
    assert_eq!(run_at(&mut m, default_config(SyncMode::Apply)).expect("apply"), 0);
    assert_eq!(versions(&m), vec!["0.7.5"; 5]);

    let before_second = (m.core.clone(), m.components.clone(), m.template.clone());
    let outcome = run(default_config(SyncMode::Apply), &m).expect("second apply");
    match outcome {
        SyncOutcome::Applied { core, components, template } => {
            assert!(core.is_none() && components.is_none() && template.is_none())
        }
        _ => panic!("apply mode must apply"),
    }
    assert_eq!(before_second, (m.core.clone(), m.components.clone(), m.template.clone()));
    assert_eq!(run_at(&mut m, default_config(SyncMode::Check)).expect("check"), 0);
}

#[test]
fn default_policy_blocks_minor_movement() {
    let mut m = fixture("0.8.0", "0.7.5", "^0.7.5", "^0.7.5", "^0.7.5");
    let msg = message(run_at(&mut m, default_config(SyncMode::Check)).expect_err("expected policy error"));
    assert!(msg.contains("Semver policy blocked"));
    assert!(msg.contains("allow-minor"));
}

#[test]
fn allow_minor_permits_minor_alignment() {
    let mut m = fixture("0.8.0", "0.7.5", "^0.7.5", "^0.7.5", "^0.7.5");
    let config = SyncUiVersionsConfig { mode: SyncMode::Apply, allow_minor: true, allow_major: false, verbose: false };
    assert_eq!(run_at(&mut m, config).expect("apply with --allow-minor should pass"), 0);
    assert_eq!(versions(&m), vec!["0.8.0"; 5]);
}

#[test]
fn default_policy_blocks_major_movement() {
    let mut m = fixture("1.0.0", "0.7.5", "^0.7.5", "^0.7.5", "^0.7.5");
    let msg = message(run_at(&mut m, default_config(SyncMode::Check)).expect_err("expected policy error"));
    assert!(msg.contains("Semver policy blocked"));
    assert!(msg.contains("allow-major"));
}

#[test]
fn allow_major_permits_major_alignment() {
    let mut m = fixture("1.0.0", "0.7.5", "^0.7.5", "^0.7.5", "^0.7.5");
    let config = SyncUiVersionsConfig { mode: SyncMode::Apply, allow_minor: false, allow_major: true, verbose: false };
    assert_eq!(run_at(&mut m, config).expect("apply with --allow-major should pass"), 0);
    assert_eq!(versions(&m), vec!["1.0.0"; 5]);
}

#[test]
fn strict_scope_preserves_unrelated_keys() {
    let mut m = fixture("0.7.5", "0.7.4", "^0.7.0", "^0.7.1", "^0.7.1");
    m.components = b"{\n  \"customUnrelatedKey\": \"must-stay-unchanged\",\n  \"description\": \"fixture\",\n  \"name\": \"@wavecraft/components\",\n  \"peerDependencies\": {\n    \"@wavecraft/core\": \"^0.7.0\",\n    \"react\": \"^18.0.0\"\n  },\n  \"version\": \"0.7.4\"\n}\n".to_vec();
    assert_eq!(run_at(&mut m, default_config(SyncMode::Apply)).expect("apply"), 0);
    let text = String::from_utf8(m.components.clone()).expect("utf8");
    assert!(text.contains("\"customUnrelatedKey\": \"must-stay-unchanged\""));
}

#[test]
fn apply_mode_preserves_non_scoped_json_layout_with_scoped_replacements() {
    let mut m = Manifests {
        core: b"{\"name\":\"@wavecraft/core\",\"version\":\"0.7.5\",\"custom\":{\"a\":1,\"b\":2}}\n".to_vec(),
        components: b"{\"name\":\"@wavecraft/components\",\"version\":\"0.7.4\",\"peerDependencies\":{\"react\":\"^18.0.0\",\"@wavecraft/core\":\"^0.7.0\"},\"custom\":{\"keep\":true,\"arr\":[3,2,1]}}\n".to_vec(),
        template: b"{\"name\":\"fixture-template-ui\",\"private\":true,\"version\":\"0.1.0\",\"dependencies\":{\"react\":\"^18.3.1\",\"@wavecraft/core\":\"^0.7.1\",\"@wavecraft/components\":\"^0.7.1\"},\"z\":0}\n".to_vec(),
    };
    assert_eq!(run_at(&mut m, default_config(SyncMode::Apply)).expect("apply"), 0);
    assert_eq!(m.core, b"{\"name\":\"@wavecraft/core\",\"version\":\"0.7.5\",\"custom\":{\"a\":1,\"b\":2}}\n".to_vec());
    assert_eq!(
        String::from_utf8(m.components.clone()).unwrap(),
        "{\"name\":\"@wavecraft/components\",\"version\":\"0.7.5\",\"peerDependencies\":{\"react\":\"^18.0.0\",\"@wavecraft/core\":\"^0.7.5\"},\"custom\":{\"keep\":true,\"arr\":[3,2,1]}}\n"
    );
    assert_eq!(
        String::from_utf8(m.template.clone()).unwrap(),
        "{\"name\":\"fixture-template-ui\",\"private\":true,\"version\":\"0.1.0\",\"dependencies\":{\"react\":\"^18.3.1\",\"@wavecraft/core\":\"^0.7.5\",\"@wavecraft/components\":\"^0.7.5\"},\"z\":0}\n"
    );
}

#[test]
fn check_mode_returns_one_when_scoped_drift_exists() {
    let mut m = fixture("0.7.5", "0.7.5", "^0.7.4", "^0.7.5", "^0.7.5");
    assert_eq!(run_at(&mut m, default_config(SyncMode::Check)).expect("check"), 1);
}

#[test]
fn apply_then_check_is_zero_and_aligned() {
    let mut m = fixture("0.7.5", "0.7.4", "^0.7.0", "^0.7.1", "^0.7.1");
    assert_eq!(run_at(&mut m, default_config(SyncMode::Apply)).expect("apply"), 0);
    assert_eq!(run_at(&mut m, default_config(SyncMode::Check)).expect("check"), 0);
}

#[test]
fn policy_violation_returns_two() {
    let mut m = fixture("0.8.0", "0.7.5", "^0.7.5", "^0.7.5", "^0.7.5");
    assert!(matches!(run_at(&mut m, default_config(SyncMode::Check)), Err(SyncError::PolicyBlocked(_))));
}

#[test]
fn parse_errors_name_the_manifest() {
    let mut m = fixture("0.7.5", "0.7.5", "^0.7.5", "^0.7.5", "^0.7.5");
    m.template = b"{ not json".to_vec();
    match run(default_config(SyncMode::Check), &m) {
        Err(SyncError::Load(LoadError::ParseFailed { file })) => assert_eq!(file, "sdk-template/ui/package.json"),
        other => panic!("unexpected: {:?}", other.map(|_| ())),
    }
}

#[test]
fn caret_baselines_and_exit_codes() {
    assert!(parse_caret_baseline("0.7.1").is_none());
    assert_eq!(parse_caret_baseline("^0.7.1").expect("caret").to_string(), "0.7.1");
    assert!(parse_semver("0.7").is_none());
    assert_eq!(parse_semver("1.2.3-rc.1+b5").expect("semver").to_string(), "1.2.3-rc.1+b5");
    assert_eq!(check_mode_exit_code(&[]), 0);
}

#[test]
fn scoped_update_rewrites_only_the_value() {
    let mut doc = b"{ \"a\" : { \"b/c\": \"x\" }, \"d\": [1, {\"e\": 2}] }".to_vec();
    let update = ScopedStringUpdate {
        pointer: "/a/b~1c".to_string(),
        current: "x".to_string(),
        expected: "y\"z".to_string(),
    };
    apply_scoped_string_update(&mut doc, &update).expect("update");
    assert_eq!(String::from_utf8(doc.clone()).unwrap(), "{ \"a\" : { \"b/c\": \"y\\\"z\" }, \"d\": [1, {\"e\": 2}] }");
    let stale = ScopedStringUpdate { pointer: "/a/b~1c".to_string(), current: "x".to_string(), expected: "w".to_string() };
    match apply_scoped_string_update(&mut doc, &stale) {
        Err(ScopedUpdateError::CurrentMismatch { found }) => assert_eq!(found, "y\"z"),
        other => panic!("unexpected: {:?}", other),
    }
    assert_eq!(decode_json_pointer("/x~0y/~1").unwrap(), vec!["x~y".to_string(), "/".to_string()]);
    assert!(decode_json_pointer("x").is_err());
    assert_eq!(write_scoped_string_updates(b"{\"v\":\"1\"}", &[]).unwrap(), None);
}

#[test]
fn apply_falls_back_to_a_full_rewrite_when_scoped_replacement_is_refused() {
    // With a duplicated key the parsed document keeps the last value while the
    // scoped scanner finds the first, so the in-place replacement is refused
    // and the whole document is written pretty-printed instead.
    let mut m = fixture("0.7.5", "0.7.5", "^0.7.5", "^0.7.5", "^0.7.5");
    m.core = b"{\"version\":\"0.0.1\",\"version\":\"0.7.4\",\"name\":\"@wavecraft/core\"}".to_vec();
    assert_eq!(run_at(&mut m, default_config(SyncMode::Apply)).expect("apply"), 0);
    assert_eq!(
        String::from_utf8(m.core.clone()).unwrap(),
        "{\n  \"name\": \"@wavecraft/core\",\n  \"version\": \"0.7.5\"\n}\n"
    );
    assert_eq!(versions(&m), vec!["0.7.5"; 5]);
}

#[test]
fn load_errors_read_as_the_original_messages() {
    let semver = LoadError::InvalidSemver {
        file: "ui/packages/core/package.json".to_string(),
        key: "version".to_string(),
        raw: "not-a-version".to_string(),
    };
    let msg = xtask::sync_ui_versions::load_error_message("/w", &semver);
    assert_eq!(msg, "Invalid semver value for version in /w/ui/packages/core/package.json: 'not-a-version'");
    let missing = LoadError::MissingKey {
        file: "ui/packages/components/package.json".to_string(),
        pointer: "/peerDependencies/@wavecraft~1core".to_string(),
    };
    let msg = xtask::sync_ui_versions::sync_error_message("/w", &SyncError::Load(missing));
    assert!(msg.contains("Missing required string key"));
    assert!(msg.ends_with("in /w/ui/packages/components/package.json"));
}

#[test]
fn fixture_round_trips_through_load_state() {
    let versions = SyncUiFixtureVersions {
        core_version: "0.7.5",
        components_version: "0.7.4",
        components_peer_core: "^0.7.0",
        template_core_dep: "^0.7.1",
        template_components_dep: "^0.7.1",
    };
    let m = fixture_manifests(versions).expect("fixture builds");
    let loaded = load_state(&m).expect("fixture loads");
    assert_eq!(loaded.state.core_version.to_string(), "0.7.5");
    assert_eq!(loaded.state.components_version.to_string(), "0.7.4");
    assert_eq!(loaded.state.components_peer_core.to_string(), "0.7.0");
    assert_eq!(loaded.state.template_dep_core.to_string(), "0.7.1");
    assert_eq!(loaded.state.template_dep_components.to_string(), "0.7.1");
}
