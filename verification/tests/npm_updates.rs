use xtask::npm_updates::{
    classify_outdated_status, finalize_check_results, outdated_args_for_area,
    tracked_files_for_area, updates_detected_for_area, upgrade_area_success, upgrade_args_for_area,
    upgrade_summary_line, AreaSnapshot, CheckModeError, CheckModeSummary, FileSnapshot, NpmArea,
    OutdatedResult,
};

#[test]
fn classify_exit_code_zero_is_up_to_date() {
    assert_eq!(classify_outdated_status(Some(0)), OutdatedResult::UpToDate);
}

#[test]
fn classify_exit_code_one_is_outdated() {
    assert_eq!(classify_outdated_status(Some(1)), OutdatedResult::Outdated);
}

#[test]
fn classify_other_exit_codes_as_failed() {
    assert_eq!(classify_outdated_status(Some(2)), OutdatedResult::Failed);
    assert_eq!(classify_outdated_status(None), OutdatedResult::Failed);
}

#[test]
fn check_mode_fails_when_any_area_fails() {
    let result = finalize_check_results(OutdatedResult::UpToDate, OutdatedResult::Failed, true);
    assert!(result.is_err());
}

#[test]
fn check_mode_fails_when_outdated_and_strict() {
    let result = finalize_check_results(OutdatedResult::Outdated, OutdatedResult::UpToDate, true);
    assert!(result.is_err());
}

#[test]
fn check_mode_allows_outdated_when_not_strict() {
    let result = finalize_check_results(OutdatedResult::Outdated, OutdatedResult::UpToDate, false)
        .expect("non-strict check mode should allow outdated dependencies");
    assert_eq!(result, CheckModeSummary::UpdatesAllowed);
}

#[test]
fn check_mode_reports_no_updates_when_all_up_to_date() {
    let result = finalize_check_results(OutdatedResult::UpToDate, OutdatedResult::UpToDate, true)
        .expect("up-to-date dependencies should succeed");
    assert_eq!(result, CheckModeSummary::NoUpdates);
}

#[test]
fn ui_workspace_uses_workspace_aware_outdated_args() {
    assert_eq!(
        outdated_args_for_area(NpmArea::UiWorkspace),
        &["outdated", "--workspaces", "--include-workspace-root"]
    );
}

#[test]
fn sdk_template_uses_standard_outdated_args() {
    assert_eq!(outdated_args_for_area(NpmArea::SdkTemplateUi), &["outdated"]);
}

#[test]
fn ui_workspace_uses_workspace_aware_upgrade_args() {
    assert_eq!(
        upgrade_args_for_area(NpmArea::UiWorkspace),
        &["update", "--workspaces", "--include-workspace-root"]
    );
}

#[test]
fn ui_components_uses_workspace_scoped_upgrade_args() {
    assert_eq!(
        upgrade_args_for_area(NpmArea::UiComponents),
        &["update", "--workspace", "@wavecraft/components"]
    );
}

#[test]
fn ui_core_uses_workspace_scoped_upgrade_args() {
    assert_eq!(
        upgrade_args_for_area(NpmArea::UiCore),
        &["update", "--workspace", "@wavecraft/core"]
    );
}

#[test]
fn sdk_template_uses_standard_upgrade_args() {
    assert_eq!(upgrade_args_for_area(NpmArea::SdkTemplateUi), &["update"]);
}

#[test]
fn update_detection_reports_no_changes_for_identical_snapshots() {
    let snapshot = AreaSnapshot {
        files: vec![FileSnapshot {
            path: "ui/package-lock.json".to_string(),
            contents: Some(vec![1, 2, 3]),
        }],
    };

    assert!(!updates_detected_for_area(&snapshot, &snapshot));
}

#[test]
fn update_detection_reports_changes_when_contents_differ() {
    let before = AreaSnapshot {
        files: vec![FileSnapshot {
            path: "ui/package-lock.json".to_string(),
            contents: Some(vec![1, 2, 3]),
        }],
    };

    let after = AreaSnapshot {
        files: vec![FileSnapshot {
            path: "ui/package-lock.json".to_string(),
            contents: Some(vec![9, 9, 9]),
        }],
    };

    assert!(updates_detected_for_area(&before, &after));
}

#[test]
fn update_detection_sees_created_files() {
    let before = AreaSnapshot {
        files: vec![FileSnapshot { path: "ui/package-lock.json".to_string(), contents: None }],
    };
    let after = AreaSnapshot {
        files: vec![FileSnapshot { path: "ui/package-lock.json".to_string(), contents: Some(vec![]) }],
    };
    assert!(updates_detected_for_area(&before, &after));
}

#[test]
fn check_errors_and_tracked_files() {
    assert_eq!(
        finalize_check_results(OutdatedResult::Failed, OutdatedResult::Outdated, false),
        Err(CheckModeError::CheckFailed)
    );
    assert_eq!(
        finalize_check_results(OutdatedResult::UpToDate, OutdatedResult::Outdated, true),
        Err(CheckModeError::UpdatesFound)
    );
    assert_eq!(
        tracked_files_for_area(NpmArea::UiCore, "/repo"),
        vec!["/repo/ui/package-lock.json".to_string(), "/repo/ui/packages/core/package.json".to_string()]
    );
    let s = upgrade_area_success(false);
    assert!(!s.install_ran);
    assert_eq!(upgrade_summary_line("ui/", upgrade_area_success(true)), "ui/: update ok, updates detected, install ran");
}
