//! The commands of `try-sdk`, which generates and opens a local test plugin.

use vstd::prelude::*;

verus! {

pub const DEFAULT_PROJECT_NAME: &'static str = "TestPlugin";
pub const DEFAULT_OUTPUT_RELATIVE: &'static str = "target/tmp/test-plugin";

/// The `cargo` arguments that generate the test plugin at `output_rel`.
pub fn create_command_args(output_rel: &str) -> (args: Vec<String>)
    ensures
        args@.map_values(|s: String| s@) == seq![
            "run"@,
            "--manifest-path"@,
            "cli/Cargo.toml"@,
            "--"@,
            "create"@,
            DEFAULT_PROJECT_NAME@,
            "--output"@,
            output_rel@,
        ],
{
    let args = vec![
        "run".to_string(),
        "--manifest-path".to_string(),
        "cli/Cargo.toml".to_string(),
        "--".to_string(),
        "create".to_string(),
        DEFAULT_PROJECT_NAME.to_string(),
        "--output".to_string(),
        output_rel.to_string(),
    ];
    assert(args@.map_values(|s: String| s@) =~= seq![
        "run"@,
        "--manifest-path"@,
        "cli/Cargo.toml"@,
        "--"@,
        "create"@,
        DEFAULT_PROJECT_NAME@,
        "--output"@,
        output_rel@,
    ]);
    args
}

/// How a failed `npm run build:lib` is described: its exit code, or a note
/// that a signal ended it.
pub fn exit_code_text(code: Option<i32>) -> (s: String)
    ensures
        code is None ==> s@ == "terminated by signal"@,
        code matches Some(c) ==> s@ == crate::text::signed_decimal(c as int),
{
    match code {
        Some(c) => crate::text::i32_to_string(c),
        None => "terminated by signal".to_string(),
    }
}

/// Why the `try-sdk` preflight refuses to go ahead.
#[derive(Debug, Clone, Copy, PartialEq, Eq, Structural)]
pub enum TrySdkError {
    /// There is no `ui/` workspace at the project root.
    UiWorkspaceMissing,
    /// `npm` is not on `PATH`.
    NpmMissing,
}

/// The preflight of `try-sdk`, before the UI packages are built: the UI
/// workspace must exist, then npm must be available.
pub fn run(ui_dir_exists: bool, npm_available: bool) -> (r: Result<(), TrySdkError>)
    ensures
        !ui_dir_exists ==> r == Err::<(), TrySdkError>(TrySdkError::UiWorkspaceMissing),
        ui_dir_exists && !npm_available ==> r == Err::<(), TrySdkError>(TrySdkError::NpmMissing),
        r is Ok <==> ui_dir_exists && npm_available,
{
    if !ui_dir_exists {
        return Err(TrySdkError::UiWorkspaceMissing);
    }
    if !npm_available {
        return Err(TrySdkError::NpmMissing);
    }
    Ok(())
}

/// The steps of `try-sdk`, after its preflight.
#[derive(Debug, Clone, Copy, PartialEq, Eq, Structural)]
pub enum TrySdkStep {
    /// Rebuild the UI package artifacts (`npm run build:lib` in `ui/`).
    RefreshUiArtifacts,
    /// Generate the test plugin project with the CLI.
    CreateProject,
    /// Open the generated project in VS Code.
    OpenInEditor,
}

/// The steps of `try-sdk` in the order they run; the first failure stops
/// the command.
pub fn try_sdk_steps() -> (steps: Vec<TrySdkStep>)
    ensures
        steps@ == seq![TrySdkStep::RefreshUiArtifacts, TrySdkStep::CreateProject, TrySdkStep::OpenInEditor],
{
    let mut steps: Vec<TrySdkStep> = Vec::new();
    steps.push(TrySdkStep::RefreshUiArtifacts);
    steps.push(TrySdkStep::CreateProject);
    steps.push(TrySdkStep::OpenInEditor);
    assert(steps@ =~= seq![TrySdkStep::RefreshUiArtifacts, TrySdkStep::CreateProject, TrySdkStep::OpenInEditor]);
    steps
}

/// The announcement of a step.
pub fn step_label(step: TrySdkStep) -> (label: &'static str)
    ensures
        step == TrySdkStep::RefreshUiArtifacts ==> label@ == "Step 1/3: Refreshing local UI package artifacts..."@,
        step == TrySdkStep::CreateProject ==> label@ == "Step 2/3: Creating test plugin project..."@,
        step == TrySdkStep::OpenInEditor ==> label@ == "Step 3/3: Opening project in VS Code..."@,
{
    match step {
        TrySdkStep::RefreshUiArtifacts => "Step 1/3: Refreshing local UI package artifacts...",
        TrySdkStep::CreateProject => "Step 2/3: Creating test plugin project...",
        TrySdkStep::OpenInEditor => "Step 3/3: Opening project in VS Code...",
    }
}

/// What `try-sdk` does next.
#[derive(Debug, Clone, Copy, PartialEq, Eq, Structural)]
pub enum TrySdkNext {
    /// Run this step.
    Run(TrySdkStep),
    /// A step failed: stop with its error; no later step runs.
    Fail,
    /// All three steps succeeded.
    Done,
}

/// The first thing `try-sdk` does once its preflight passed.
pub fn try_sdk_start() -> (n: TrySdkNext)
    ensures
        n == TrySdkNext::Run(TrySdkStep::RefreshUiArtifacts),
{
    TrySdkNext::Run(TrySdkStep::RefreshUiArtifacts)
}

/// What follows a step: the next step in order when it succeeded, the end
/// after the last one, and a stop at the first failure.
pub fn try_sdk_next(step: TrySdkStep, succeeded: bool) -> (n: TrySdkNext)
    ensures
        !succeeded ==> n == TrySdkNext::Fail,
        succeeded && step == TrySdkStep::RefreshUiArtifacts ==> n == TrySdkNext::Run(TrySdkStep::CreateProject),
        succeeded && step == TrySdkStep::CreateProject ==> n == TrySdkNext::Run(TrySdkStep::OpenInEditor),
        succeeded && step == TrySdkStep::OpenInEditor ==> n == TrySdkNext::Done,
{
    if !succeeded {
        return TrySdkNext::Fail;
    }
    match step {
        TrySdkStep::RefreshUiArtifacts => TrySdkNext::Run(TrySdkStep::CreateProject),
        TrySdkStep::CreateProject => TrySdkNext::Run(TrySdkStep::OpenInEditor),
        TrySdkStep::OpenInEditor => TrySdkNext::Done,
    }
}

} // verus!
