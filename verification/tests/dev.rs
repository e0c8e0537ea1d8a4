use xtask::dev::{cache_dependency_paths, generated_types_to_remove, ui_package_input_paths};
use std::path::Path;
use std::time::{Duration, SystemTime, UNIX_EPOCH};
use xtask::dev::{
    cache_refresh_result, decide_refresh, latest_time, max_time, min_time, should_skip_dir,
    sidecar_cache_candidates, stale_sidecars, ui_refresh_step, RefreshReason,
};

fn nanos(t: SystemTime) -> u128 {
    t.duration_since(UNIX_EPOCH).expect("after epoch").as_nanos()
}

#[test]
fn decide_refresh_identifies_missing_outputs() {
    let now = nanos(SystemTime::now());
    assert_eq!(
        decide_refresh(Some(now), None),
        RefreshReason::MissingArtifact
    );
}

#[test]
fn decide_refresh_identifies_newer_inputs() {
    let output = SystemTime::now();
    let input = output + Duration::from_secs(1);
    assert_eq!(
        decide_refresh(Some(nanos(input)), Some(nanos(output))),
        RefreshReason::InputsNewer
    );
}

#[test]
fn decide_refresh_identifies_up_to_date_outputs() {
    let now = nanos(SystemTime::now());
    assert_eq!(
        decide_refresh(Some(now), Some(now)),
        RefreshReason::UpToDate
    );
}

#[test]
fn decide_refresh_identifies_missing_inputs() {
    assert_eq!(
        decide_refresh(None, Some(nanos(SystemTime::now()))),
        RefreshReason::NoInputs
    );
}

#[test]
fn sidecar_cache_candidates_cover_all_expected_locations() {
    let engine_dir = "/tmp/wavecraft/sdk-template/engine";
    let candidates = sidecar_cache_candidates(engine_dir, "wavecraft-params.json");

    assert_eq!(candidates.len(), 3);
    assert!(Path::new(&candidates[0]).ends_with("sdk-template/engine/target/debug/wavecraft-params.json"));
    assert!(Path::new(&candidates[1]).ends_with("sdk-template/target/debug/wavecraft-params.json"));
    assert!(Path::new(&candidates[2]).ends_with("target/debug/wavecraft-params.json"));
}

#[test]
fn sidecar_candidates_stop_at_the_root() {
    assert_eq!(
        sidecar_cache_candidates("/engine", "p.json"),
        vec!["/engine/target/debug/p.json".to_string(), "/target/debug/p.json".to_string()]
    );
    assert_eq!(sidecar_cache_candidates("/", "p.json"), vec!["/target/debug/p.json".to_string()]);
}

#[test]
fn times_combine_and_stale_caches_are_found() {
    assert_eq!(min_time(Some(3), Some(5)), Some(3));
    assert_eq!(min_time(Some(3), None), None);
    assert_eq!(max_time(None, Some(5)), Some(5));
    assert_eq!(latest_time(&[None, Some(4), Some(9), Some(2)]), Some(9));
    assert_eq!(latest_time(&[]), None);
    assert_eq!(stale_sidecars(Some(10), &[Some(5), Some(10), None, Some(1)]), vec![0, 3]);
    assert!(should_skip_dir("node_modules"));
    assert!(!should_skip_dir("src"));
    let (build, result) = ui_refresh_step(RefreshReason::InputsNewer);
    assert!(build && result.refreshed);
    assert_eq!(result.detail, "ui package sources changed since last build");
    assert_eq!(cache_refresh_result(0).detail, "up-to-date");
    let r = cache_refresh_result(2);
    assert!(r.refreshed);
    assert_eq!(r.detail, "invalidated 2 stale sidecar cache file(s)");
}

#[test]
fn preflight_paths_are_listed() {
    let deps = cache_dependency_paths("/r");
    assert_eq!(deps.len(), 13);
    assert_eq!(deps[0], "/r/sdk-template/engine/Cargo.toml");
    assert_eq!(deps[3], "/r/engine/crates/wavecraft-protocol/src");
    assert_eq!(deps[12], "/r/cli/src/project/ts_codegen.rs");
    assert!(generated_types_to_remove("/r/sdk-template/ui", 0).is_empty());
    assert_eq!(
        generated_types_to_remove("/r/sdk-template/ui", 2),
        vec![
            "/r/sdk-template/ui/src/generated/parameters.ts".to_string(),
            "/r/sdk-template/ui/src/generated/processors.ts".to_string()
        ]
    );
    let inputs = ui_package_input_paths("/r/ui");
    assert_eq!(inputs[0], "/r/ui/package.json");
    assert_eq!(inputs[6], "/r/ui/packages/components/src");
}
