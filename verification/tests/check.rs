use std::time::Duration;
use xtask::check::{plan_phases, summary_entries, CheckConfig, CheckResults, PhaseAction, PhaseReport};

#[test]
fn test_check_results_all_passed() {
    let mut results = CheckResults::new();
    assert!(results.all_passed(), "Empty results should pass");

    results.lint = Some(Ok(Duration::from_secs(1)));
    assert!(results.all_passed(), "Passing lint should pass");

    results.test = Some(Ok(Duration::from_secs(2)));
    assert!(results.all_passed(), "Passing tests should pass");
}

#[test]
fn test_check_results_failure() {
    let mut results = CheckResults::new();
    results.lint = Some(Err("lint failed".to_string()));
    assert!(!results.all_passed(), "Failed lint should fail");
}

#[test]
fn check_test_default_config() {
    let config = CheckConfig::default();
    assert!(!config.fix);
    assert!(!config.skip_docs);
    assert!(!config.skip_lint);
    assert!(!config.skip_tests);
    assert!(!config.full);
    assert!(!config.skip_template);
    assert!(!config.skip_cd);
}

#[test]
fn full_phases_only_run_with_full() {
    let plan = plan_phases(&CheckConfig::default());
    assert_eq!(plan.docs, PhaseAction::Run);
    assert_eq!(plan.template, PhaseAction::Omit);
    assert_eq!(plan.cd_dry_run, PhaseAction::Omit);
    let full = CheckConfig {
        full: true,
        skip_cd: true,
        skip_lint: true,
        ..CheckConfig::default()
    };
    let plan = plan_phases(&full);
    assert_eq!(plan.lint, PhaseAction::AnnounceSkip);
    assert_eq!(plan.template, PhaseAction::Run);
    assert_eq!(plan.cd_dry_run, PhaseAction::AnnounceSkip);
}

#[test]
fn summary_lists_run_phases_and_full_only_phases() {
    let mut results = CheckResults::new();
    results.docs = Some(Ok(Duration::from_millis(1500)));
    results.lint = Some(Err("clippy failed".to_string()));
    let short = summary_entries(&results, false);
    let labels: Vec<&str> = short.iter().map(|e| e.label).collect();
    assert_eq!(labels, vec!["Documentation", "Linting", "Automated Tests"]);
    assert!(matches!(short[0].report, PhaseReport::Passed(d) if d == Duration::from_millis(1500)));
    assert!(matches!(&short[1].report, PhaseReport::Failed(e) if e == "clippy failed"));
    assert!(matches!(short[2].report, PhaseReport::Skipped));
    let full = summary_entries(&results, true);
    assert_eq!(full.len(), 5);
    assert_eq!(full[3].label, "Template Validation");
    assert_eq!(full[4].label, "CD Dry-Run");
    results.cd_dry_run = Some(Ok(Duration::from_secs(2)));
    let with_cd = summary_entries(&results, false);
    assert_eq!(with_cd.len(), 4);
    assert_eq!(with_cd[3].label, "CD Dry-Run");
}
