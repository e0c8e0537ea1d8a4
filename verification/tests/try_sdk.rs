use xtask::test_runner::tests_passed;
use xtask::try_sdk::{create_command_args, exit_code_text, step_label, try_sdk_next, try_sdk_start, try_sdk_steps, TrySdkNext, TrySdkStep, DEFAULT_OUTPUT_RELATIVE, DEFAULT_PROJECT_NAME};

#[test]
fn defaults_match_requested_values() {
    assert_eq!(DEFAULT_PROJECT_NAME, "TestPlugin");
    assert_eq!(DEFAULT_OUTPUT_RELATIVE, "target/tmp/test-plugin");
}

#[test]
fn create_command_and_exit_text() {
    assert_eq!(
        create_command_args(DEFAULT_OUTPUT_RELATIVE),
        vec!["run", "--manifest-path", "cli/Cargo.toml", "--", "create", "TestPlugin", "--output", "target/tmp/test-plugin"]
    );
    assert_eq!(exit_code_text(Some(-3)), "-3");
    assert_eq!(exit_code_text(Some(127)), "127");
    assert_eq!(exit_code_text(None), "terminated by signal");
}

#[test]
fn try_sdk_steps_run_in_order() {
    let steps = try_sdk_steps();
    assert_eq!(steps, vec![TrySdkStep::RefreshUiArtifacts, TrySdkStep::CreateProject, TrySdkStep::OpenInEditor]);
    assert_eq!(step_label(steps[1]), "Step 2/3: Creating test plugin project...");
}

#[test]
fn test_results_aggregate_over_suites_that_ran() {
    assert!(tests_passed(Some(true), None));
    assert!(!tests_passed(Some(false), Some(true)));
    assert!(!tests_passed(None, Some(false)));
    assert!(tests_passed(None, None));
}

#[test]
fn try_sdk_stops_at_the_first_failure() {
    assert_eq!(try_sdk_start(), TrySdkNext::Run(TrySdkStep::RefreshUiArtifacts));
    assert_eq!(try_sdk_next(TrySdkStep::RefreshUiArtifacts, true), TrySdkNext::Run(TrySdkStep::CreateProject));
    assert_eq!(try_sdk_next(TrySdkStep::CreateProject, true), TrySdkNext::Run(TrySdkStep::OpenInEditor));
    assert_eq!(try_sdk_next(TrySdkStep::OpenInEditor, true), TrySdkNext::Done);
    assert_eq!(try_sdk_next(TrySdkStep::CreateProject, false), TrySdkNext::Fail);
}
