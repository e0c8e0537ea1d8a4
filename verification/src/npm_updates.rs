//! Decisions of the npm update check: how `npm outdated` exit codes read,
//! which arguments each npm area gets, and when an upgrade changed files.

use vstd::prelude::*;

use crate::paths::{join, join_path};

verus! {

/// Configuration for npm update checks.
#[derive(Debug, Clone)]
pub struct NpmUpdatesConfig {
    /// When true, return a non-zero exit code if updates are found.
    pub strict: bool,
    /// When true, run `npm update` across all npm areas.
    pub upgrade: bool,
    /// Show verbose command output.
    pub verbose: bool,
}

/// What one `npm outdated` run reported.
#[derive(Debug, Clone, Copy, PartialEq, Eq, Structural)]
pub enum OutdatedResult {
    UpToDate,
    Outdated,
    Failed,
}

/// The npm projects of the repository.
#[derive(Debug, Clone, Copy, PartialEq, Eq, Structural)]
pub enum NpmArea {
    UiWorkspace,
    UiComponents,
    UiCore,
    SdkTemplateUi,
}

/// The contents of one tracked file (`None` when it does not exist).
#[derive(Debug, Clone, PartialEq, Eq)]
pub struct FileSnapshot {
    pub path: String,
    pub contents: Option<Vec<u8>>,
}

/// The tracked files of an npm area at one moment.
#[derive(Debug, Clone, PartialEq, Eq)]
pub struct AreaSnapshot {
    pub files: Vec<FileSnapshot>,
}

/// What a successful upgrade of one area did.
#[derive(Debug, Clone, Copy, PartialEq, Eq, Structural)]
pub struct UpgradeAreaSuccess {
    pub updates_detected: bool,
    pub install_ran: bool,
}

/// The outcome of check mode when it succeeds.
#[derive(Debug, Clone, Copy, PartialEq, Eq, Structural)]
pub enum CheckModeSummary {
    NoUpdates,
    UpdatesAllowed,
}

/// Why check mode fails.
#[derive(Debug, Clone, Copy, PartialEq, Eq, Structural)]
pub enum CheckModeError {
    /// An `npm outdated` run failed.
    CheckFailed,
    /// Updates were found and strict mode refuses them.
    UpdatesFound,
}

impl CheckModeError {
    /// The error text of each failure.
    pub fn message(&self) -> (m: &'static str)
        ensures
            m@ == (match self {
                CheckModeError::CheckFailed => "One or more npm outdated checks failed to run"@,
                CheckModeError::UpdatesFound =>
                    "Outdated npm packages found. Re-run with '--allow-updates' for informational mode."@,
            }),
    {
        match self {
            CheckModeError::CheckFailed => "One or more npm outdated checks failed to run",
            CheckModeError::UpdatesFound =>
                "Outdated npm packages found. Re-run with '--allow-updates' for informational mode.",
        }
    }
}

/// How an `npm outdated` exit code reads: 0 up to date, 1 outdated,
/// anything else (or no code) a failure.
pub open spec fn outdated_status(code: Option<i32>) -> OutdatedResult {
    match code {
        Some(c) => if c == 0 {
            OutdatedResult::UpToDate
        } else if c == 1 {
            OutdatedResult::Outdated
        } else {
            OutdatedResult::Failed
        },
        None => OutdatedResult::Failed,
    }
}

/// Classifies the exit code of `npm outdated`.
pub fn classify_outdated_status(code: Option<i32>) -> (r: OutdatedResult)
    ensures
        r == outdated_status(code),
{
    match code {
        Some(0) => OutdatedResult::UpToDate,
        Some(1) => OutdatedResult::Outdated,
        _ => OutdatedResult::Failed,
    }
}

/// The arguments of `npm outdated` for each area, as text.
pub open spec fn outdated_args(area: NpmArea) -> Seq<Seq<char>> {
    match area {
        NpmArea::UiWorkspace => seq!["outdated"@, "--workspaces"@, "--include-workspace-root"@],
        NpmArea::UiComponents => seq!["outdated"@, "--workspace"@, "@wavecraft/components"@],
        NpmArea::UiCore => seq!["outdated"@, "--workspace"@, "@wavecraft/core"@],
        NpmArea::SdkTemplateUi => seq!["outdated"@],
    }
}

/// The arguments of `npm update` for each area, as text.
pub open spec fn upgrade_args(area: NpmArea) -> Seq<Seq<char>> {
    match area {
        NpmArea::UiWorkspace => seq!["update"@, "--workspaces"@, "--include-workspace-root"@],
        NpmArea::UiComponents => seq!["update"@, "--workspace"@, "@wavecraft/components"@],
        NpmArea::UiCore => seq!["update"@, "--workspace"@, "@wavecraft/core"@],
        NpmArea::SdkTemplateUi => seq!["update"@],
    }
}

/// The character view of a list of string slices.
pub open spec fn strs_view(v: Seq<&'static str>) -> Seq<Seq<char>> {
    v.map_values(|s: &'static str| s@)
}

/// The arguments of `npm outdated` for an area: workspace-aware for the UI
/// workspace, scoped to one workspace for a UI package, plain otherwise.
pub fn outdated_args_for_area(area: NpmArea) -> (args: Vec<&'static str>)
    ensures
        strs_view(args@) == outdated_args(area),
{
    let args = match area {
        NpmArea::UiWorkspace => vec!["outdated", "--workspaces", "--include-workspace-root"],
        NpmArea::UiComponents => vec!["outdated", "--workspace", "@wavecraft/components"],
        NpmArea::UiCore => vec!["outdated", "--workspace", "@wavecraft/core"],
        NpmArea::SdkTemplateUi => vec!["outdated"],
    };
    assert(strs_view(args@) =~= outdated_args(area));
    args
}

/// The arguments of `npm update` for an area.
pub fn upgrade_args_for_area(area: NpmArea) -> (args: Vec<&'static str>)
    ensures
        strs_view(args@) == upgrade_args(area),
{
    let args = match area {
        NpmArea::UiWorkspace => vec!["update", "--workspaces", "--include-workspace-root"],
        NpmArea::UiComponents => vec!["update", "--workspace", "@wavecraft/components"],
        NpmArea::UiCore => vec!["update", "--workspace", "@wavecraft/core"],
        NpmArea::SdkTemplateUi => vec!["update"],
    };
    assert(strs_view(args@) =~= upgrade_args(area));
    args
}

/// The outcome of check mode from the two `npm outdated` results: a failed
/// run fails; updates fail in strict mode and are reported otherwise.
pub open spec fn check_outcome(
    ui_result: OutdatedResult,
    sdk_template_result: OutdatedResult,
    strict: bool,
) -> Result<CheckModeSummary, CheckModeError> {
    if ui_result == OutdatedResult::Failed || sdk_template_result == OutdatedResult::Failed {
        Err(CheckModeError::CheckFailed)
    } else if ui_result == OutdatedResult::Outdated || sdk_template_result
        == OutdatedResult::Outdated {
        if strict {
            Err(CheckModeError::UpdatesFound)
        } else {
            Ok(CheckModeSummary::UpdatesAllowed)
        }
    } else {
        Ok(CheckModeSummary::NoUpdates)
    }
}

/// Combines the results of the two `npm outdated` runs.
pub fn finalize_check_results(
    ui_result: OutdatedResult,
    sdk_template_result: OutdatedResult,
    strict: bool,
) -> (r: Result<CheckModeSummary, CheckModeError>)
    ensures
        r == check_outcome(ui_result, sdk_template_result, strict),
{
    if ui_result == OutdatedResult::Failed || sdk_template_result == OutdatedResult::Failed {
        return Err(CheckModeError::CheckFailed);
    }
    let updates_found = ui_result == OutdatedResult::Outdated || sdk_template_result
        == OutdatedResult::Outdated;
    if updates_found && strict {
        return Err(CheckModeError::UpdatesFound);
    }
    if updates_found {
        return Ok(CheckModeSummary::UpdatesAllowed);
    }
    Ok(CheckModeSummary::NoUpdates)
}

/// The plain content of a file snapshot.
pub open spec fn file_view(f: FileSnapshot) -> (Seq<char>, Option<Seq<u8>>) {
    (
        f.path@,
        match f.contents {
            Some(c) => Some(c@),
            None => None,
        },
    )
}

/// The plain content of an area snapshot.
pub open spec fn area_view(a: &AreaSnapshot) -> Seq<(Seq<char>, Option<Seq<u8>>)> {
    a.files@.map_values(|f: FileSnapshot| file_view(f))
}

fn same_file(a: &FileSnapshot, b: &FileSnapshot) -> (r: bool)
    ensures
        r == (file_view(*a) == file_view(*b)),
{
    if !crate::text::str_eq(a.path.as_str(), b.path.as_str()) {
        return false;
    }
    match (&a.contents, &b.contents) {
        (Some(x), Some(y)) => crate::text::bytes_eq(x.as_slice(), y.as_slice()),
        (None, None) => true,
        _ => false,
    }
}

/// Whether an upgrade changed any tracked file of an area: the snapshots
/// before and after differ.
pub fn updates_detected_for_area(before: &AreaSnapshot, after: &AreaSnapshot) -> (r: bool)
    ensures
        r == (area_view(before) != area_view(after)),
{
    if before.files.len() != after.files.len() {
        assert(area_view(before).len() != area_view(after).len());
        return true;
    }
    let mut i: usize = 0;
    while i < before.files.len()
        invariant
            i <= before.files@.len(),
            before.files@.len() == after.files@.len(),
            forall|j: int| 0 <= j < i ==> area_view(before)[j] == area_view(after)[j],
        decreases before.files@.len() - i,
    {
        if !same_file(&before.files[i], &after.files[i]) {
            assert(area_view(before)[i as int] != area_view(after)[i as int]);
            return true;
        }
        i += 1;
    }
    assert(area_view(before) =~= area_view(after));
    false
}

/// The files whose change tells that an upgrade of an area did something,
/// below the project root.
pub open spec fn tracked_files(area: NpmArea, root: Seq<char>) -> Seq<Seq<char>> {
    let ui = join(root, "ui"@);
    let sdk = join(root, "sdk-template/ui"@);
    match area {
        NpmArea::UiWorkspace => seq![join(ui, "package-lock.json"@), join(ui, "package.json"@)],
        NpmArea::UiComponents => seq![
            join(ui, "package-lock.json"@),
            join(ui, "packages/components/package.json"@),
        ],
        NpmArea::UiCore => seq![
            join(ui, "package-lock.json"@),
            join(ui, "packages/core/package.json"@),
        ],
        NpmArea::SdkTemplateUi => seq![
            join(sdk, "package-lock.json"@),
            join(sdk, "package.json"@),
        ],
    }
}

/// The files tracked for an area.
pub fn tracked_files_for_area(area: NpmArea, project_root: &str) -> (files: Vec<String>)
    ensures
        files@.map_values(|s: String| s@) == tracked_files(area, project_root@),
{
    let ui = join_path(project_root, "ui");
    let sdk = join_path(project_root, "sdk-template/ui");
    let files = match area {
        NpmArea::UiWorkspace => vec![
            join_path(ui.as_str(), "package-lock.json"),
            join_path(ui.as_str(), "package.json"),
        ],
        NpmArea::UiComponents => vec![
            join_path(ui.as_str(), "package-lock.json"),
            join_path(ui.as_str(), "packages/components/package.json"),
        ],
        NpmArea::UiCore => vec![
            join_path(ui.as_str(), "package-lock.json"),
            join_path(ui.as_str(), "packages/core/package.json"),
        ],
        NpmArea::SdkTemplateUi => vec![
            join_path(sdk.as_str(), "package-lock.json"),
            join_path(sdk.as_str(), "package.json"),
        ],
    };
    assert(files@.map_values(|s: String| s@) =~= tracked_files(area, project_root@));
    files
}

/// The SDK template's upgrade is detected through the lock file and the
/// manifest of `sdk-template/ui` below the project root, whatever the root.
pub proof fn law_sdk_template_tracks_its_ui_files(root: Seq<char>)
    ensures
        tracked_files(NpmArea::SdkTemplateUi, root) == seq![
            join(root, "sdk-template/ui/package-lock.json"@),
            join(root, "sdk-template/ui/package.json"@),
        ],
{
    reveal_strlit("sdk-template/ui");
    reveal_strlit("package-lock.json");
    reveal_strlit("package.json");
    reveal_strlit("sdk-template/ui/package-lock.json");
    reveal_strlit("sdk-template/ui/package.json");
    crate::paths::lemma_join_nested(root, "sdk-template/ui"@, "package-lock.json"@);
    crate::paths::lemma_join_nested(root, "sdk-template/ui"@, "package.json"@);
    assert("sdk-template/ui"@ + seq!['/'] + "package-lock.json"@ =~= "sdk-template/ui/package-lock.json"@);
    assert("sdk-template/ui"@ + seq!['/'] + "package.json"@ =~= "sdk-template/ui/package.json"@);
    assert(tracked_files(NpmArea::SdkTemplateUi, root) =~= seq![
        join(root, "sdk-template/ui/package-lock.json"@),
        join(root, "sdk-template/ui/package.json"@),
    ]);
}

/// The UI areas are detected through the workspace lock file in `ui/` and
/// the manifest of the package that was upgraded: the workspace root's, the
/// components package's or the core package's.
pub proof fn law_ui_areas_track_their_manifests(root: Seq<char>)
    ensures
        tracked_files(NpmArea::UiWorkspace, root) == seq![
            join(root, "ui/package-lock.json"@),
            join(root, "ui/package.json"@),
        ],
        tracked_files(NpmArea::UiComponents, root) == seq![
            join(root, "ui/package-lock.json"@),
            join(root, "ui/packages/components/package.json"@),
        ],
        tracked_files(NpmArea::UiCore, root) == seq![
            join(root, "ui/package-lock.json"@),
            join(root, "ui/packages/core/package.json"@),
        ],
{
    reveal_strlit("ui");
    reveal_strlit("package-lock.json");
    reveal_strlit("package.json");
    reveal_strlit("packages/components/package.json");
    reveal_strlit("packages/core/package.json");
    reveal_strlit("ui/package-lock.json");
    reveal_strlit("ui/package.json");
    reveal_strlit("ui/packages/components/package.json");
    reveal_strlit("ui/packages/core/package.json");
    crate::paths::lemma_join_nested(root, "ui"@, "package-lock.json"@);
    crate::paths::lemma_join_nested(root, "ui"@, "package.json"@);
    crate::paths::lemma_join_nested(root, "ui"@, "packages/components/package.json"@);
    crate::paths::lemma_join_nested(root, "ui"@, "packages/core/package.json"@);
    assert("ui"@ + seq!['/'] + "package-lock.json"@ =~= "ui/package-lock.json"@);
    assert("ui"@ + seq!['/'] + "package.json"@ =~= "ui/package.json"@);
    assert("ui"@ + seq!['/'] + "packages/components/package.json"@
        =~= "ui/packages/components/package.json"@);
    assert("ui"@ + seq!['/'] + "packages/core/package.json"@ =~= "ui/packages/core/package.json"@);
    assert(tracked_files(NpmArea::UiWorkspace, root) =~= seq![
        join(root, "ui/package-lock.json"@),
        join(root, "ui/package.json"@),
    ]);
    assert(tracked_files(NpmArea::UiComponents, root) =~= seq![
        join(root, "ui/package-lock.json"@),
        join(root, "ui/packages/components/package.json"@),
    ]);
    assert(tracked_files(NpmArea::UiCore, root) =~= seq![
        join(root, "ui/package-lock.json"@),
        join(root, "ui/packages/core/package.json"@),
    ]);
}

/// An upgrade runs `npm install` exactly when it detected updates.
pub fn upgrade_area_success(updates_detected: bool) -> (r: UpgradeAreaSuccess)
    ensures
        r.updates_detected == updates_detected,
        r.install_ran == updates_detected,
{
    UpgradeAreaSuccess { updates_detected, install_ran: updates_detected }
}

/// The summary line of an upgraded area.
pub fn upgrade_summary_line(area: &str, success: UpgradeAreaSuccess) -> (line: String)
    ensures
        line@ == area@ + ": update ok, "@ + (if success.updates_detected {
            "updates detected"@
        } else {
            "no updates detected"@
        }) + ", "@ + (if success.install_ran {
            "install ran"@
        } else {
            "install skipped"@
        }),
{
    let mut line = area.to_string();
    crate::text::push_str(&mut line, ": update ok, ");
    crate::text::push_str(
        &mut line,
        if success.updates_detected {
            "updates detected"
        } else {
            "no updates detected"
        },
    );
    crate::text::push_str(&mut line, ", ");
    crate::text::push_str(
        &mut line,
        if success.install_ran {
            "install ran"
        } else {
            "install skipped"
        },
    );
    line
}

/// Strict check mode never succeeds while updates are available.
pub proof fn law_strict_check_refuses_updates(ui_result: OutdatedResult, sdk_template_result: OutdatedResult)
    requires
        ui_result == OutdatedResult::Outdated || sdk_template_result == OutdatedResult::Outdated,
    ensures
        check_outcome(ui_result, sdk_template_result, true) is Err,
{
}

/// A failed `npm outdated` run fails check mode, strict or not.
pub proof fn law_failed_check_always_fails(other: OutdatedResult, strict: bool)
    ensures
        check_outcome(OutdatedResult::Failed, other, strict) == Err::<CheckModeSummary, CheckModeError>(
            CheckModeError::CheckFailed,
        ),
        check_outcome(other, OutdatedResult::Failed, strict) == Err::<CheckModeSummary, CheckModeError>(
            CheckModeError::CheckFailed,
        ),
{
}

/// The mode a run of the npm update command takes.
#[derive(Debug, Clone, Copy, PartialEq, Eq, Structural)]
pub enum NpmRunMode {
    /// Report outdated packages.
    Check,
    /// Update every npm area.
    Upgrade,
}

/// Why the npm update command cannot run.
#[derive(Debug, Clone, Copy, PartialEq, Eq, Structural)]
pub enum NpmRunError {
    /// `npm` is not installed or not on `PATH`.
    NpmMissing,
}

/// Decides how the npm update command runs: it needs npm, and upgrades
/// only when asked.
pub fn run(config: &NpmUpdatesConfig, npm_available: bool) -> (r: Result<NpmRunMode, NpmRunError>)
    ensures
        !npm_available ==> r == Err::<NpmRunMode, NpmRunError>(NpmRunError::NpmMissing),
        npm_available && config.upgrade ==> r == Ok::<NpmRunMode, NpmRunError>(NpmRunMode::Upgrade),
        npm_available && !config.upgrade ==> r == Ok::<NpmRunMode, NpmRunError>(NpmRunMode::Check),
{
    if !npm_available {
        return Err(NpmRunError::NpmMissing);
    }
    if config.upgrade {
        Ok(NpmRunMode::Upgrade)
    } else {
        Ok(NpmRunMode::Check)
    }
}

/// Whether an upgrade run succeeded: every area's update succeeded.
pub fn upgrade_mode_succeeded(area_ok: &[bool]) -> (r: bool)
    ensures
        r == forall|i: int| 0 <= i < area_ok@.len() ==> area_ok@[i],
{
    let mut i: usize = 0;
    while i < area_ok.len()
        invariant
            i <= area_ok@.len(),
            forall|k: int| 0 <= k < i ==> area_ok@[k],
        decreases area_ok@.len() - i,
    {
        if !area_ok[i] {
            return false;
        }
        i += 1;
    }
    true
}

} // verus!
