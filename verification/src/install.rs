//! Decisions of plugin installation and of the full build pipeline: where
//! each plugin format installs, which built bundles are installed, and the
//! steps of `cargo xtask all`.

use vstd::prelude::*;

use crate::build_mode::{Platform, PLUGIN_DISPLAY_NAME, PLUGIN_NAME};
use crate::clean::InstallDir;
use crate::paths::{join, join_path};

verus! {

/// Where a plugin format installs: under the home directory on macOS
/// (`Library/Audio/Plug-Ins/VST3`, `CLAP`, `Components`) and on Linux
/// (`.vst3`, `.clap`); the common files folder on Windows. AU installs on
/// macOS only.
pub open spec fn install_dir_of(platform: Platform, kind: InstallDir, home: Seq<char>) -> Option<Seq<char>> {
    match (platform, kind) {
        (Platform::MacOS, InstallDir::Vst3) => Some(join(home, "Library/Audio/Plug-Ins/VST3"@)),
        (Platform::MacOS, InstallDir::Clap) => Some(join(home, "Library/Audio/Plug-Ins/CLAP"@)),
        (Platform::MacOS, InstallDir::Au) => Some(join(home, "Library/Audio/Plug-Ins/Components"@)),
        (Platform::Windows, InstallDir::Vst3) => Some("C:\\Program Files\\Common Files\\VST3"@),
        (Platform::Windows, InstallDir::Clap) => Some("C:\\Program Files\\Common Files\\CLAP"@),
        (Platform::Linux, InstallDir::Vst3) => Some(join(home, ".vst3"@)),
        (Platform::Linux, InstallDir::Clap) => Some(join(home, ".clap"@)),
        (_, InstallDir::Au) => None,
    }
}

/// The install directory of a plugin format on a platform.
pub fn install_dir(platform: Platform, kind: InstallDir, home: &str) -> (r: Option<String>)
    ensures
        match r {
            Some(s) => install_dir_of(platform, kind, home@) == Some(s@),
            None => install_dir_of(platform, kind, home@) is None,
        },
{
    match (platform, kind) {
        (Platform::MacOS, InstallDir::Vst3) => Some(join_path(home, "Library/Audio/Plug-Ins/VST3")),
        (Platform::MacOS, InstallDir::Clap) => Some(join_path(home, "Library/Audio/Plug-Ins/CLAP")),
        (Platform::MacOS, InstallDir::Au) => Some(join_path(home, "Library/Audio/Plug-Ins/Components")),
        (Platform::Windows, InstallDir::Vst3) => Some("C:\\Program Files\\Common Files\\VST3".to_string()),
        (Platform::Windows, InstallDir::Clap) => Some("C:\\Program Files\\Common Files\\CLAP".to_string()),
        (Platform::Linux, InstallDir::Vst3) => Some(join_path(home, ".vst3")),
        (Platform::Linux, InstallDir::Clap) => Some(join_path(home, ".clap")),
        (_, InstallDir::Au) => None,
    }
}

/// On macOS each format installs into its own folder of
/// `~/Library/Audio/Plug-Ins`: VST3 into `VST3`, CLAP into `CLAP`, AU into
/// `Components`.
pub proof fn law_macos_plugin_folders(home: Seq<char>)
    ensures
        install_dir_of(Platform::MacOS, InstallDir::Vst3, home) == Some(
            join(home, "Library/Audio/Plug-Ins/VST3"@),
        ),
        install_dir_of(Platform::MacOS, InstallDir::Clap, home) == Some(
            join(home, "Library/Audio/Plug-Ins/CLAP"@),
        ),
        install_dir_of(Platform::MacOS, InstallDir::Au, home) == Some(
            join(home, "Library/Audio/Plug-Ins/Components"@),
        ),
{
}

/// On Linux VST3 installs into `~/.vst3` and CLAP into `~/.clap`; AU does
/// not install there.
pub proof fn law_linux_plugin_folders(home: Seq<char>)
    ensures
        install_dir_of(Platform::Linux, InstallDir::Vst3, home) == Some(join(home, ".vst3"@)),
        install_dir_of(Platform::Linux, InstallDir::Clap, home) == Some(join(home, ".clap"@)),
        install_dir_of(Platform::Linux, InstallDir::Au, home) is None,
{
}

/// On Windows VST3 and CLAP install into their folders under
/// `C:\Program Files\Common Files`, whatever the home directory; AU does
/// not install there.
pub proof fn law_windows_plugin_folders(home: Seq<char>)
    ensures
        install_dir_of(Platform::Windows, InstallDir::Vst3, home) == Some(
            "C:\\Program Files\\Common Files\\VST3"@,
        ),
        install_dir_of(Platform::Windows, InstallDir::Clap, home) == Some(
            "C:\\Program Files\\Common Files\\CLAP"@,
        ),
        install_dir_of(Platform::Windows, InstallDir::Au, home) is None,
{
}

/// Two different plugin formats never install into the same directory: a
/// host that scans one format's folder does not find the other's bundles.
pub proof fn law_formats_install_apart(platform: Platform, a: InstallDir, b: InstallDir, home: Seq<char>)
    requires
        a != b,
        install_dir_of(platform, a, home) is Some,
        install_dir_of(platform, b, home) is Some,
    ensures
        install_dir_of(platform, a, home) != install_dir_of(platform, b, home),
{
    reveal_strlit("Library/Audio/Plug-Ins/VST3");
    reveal_strlit("Library/Audio/Plug-Ins/CLAP");
    reveal_strlit("Library/Audio/Plug-Ins/Components");
    reveal_strlit("C:\\Program Files\\Common Files\\VST3");
    reveal_strlit("C:\\Program Files\\Common Files\\CLAP");
    reveal_strlit(".vst3");
    reveal_strlit(".clap");
    crate::paths::lemma_join_last(home, "Library/Audio/Plug-Ins/VST3"@);
    crate::paths::lemma_join_last(home, "Library/Audio/Plug-Ins/CLAP"@);
    crate::paths::lemma_join_last(home, "Library/Audio/Plug-Ins/Components"@);
    crate::paths::lemma_join_last(home, ".vst3"@);
    crate::paths::lemma_join_last(home, ".clap"@);
    let da = install_dir_of(platform, a, home)->0;
    let db = install_dir_of(platform, b, home)->0;
    assert(da.last() != db.last());
}

/// One bundle to install: its format and its bundle name.
#[derive(Debug, Clone, PartialEq, Eq)]
pub struct InstallItem {
    pub kind: InstallDir,
    pub bundle: String,
}

/// The bundles an install copies, in order: the VST3 and CLAP bundles when
/// they were built, and on macOS the AU component when it was built.
pub open spec fn install_items(platform: Platform, vst3_found: bool, clap_found: bool, au_found: bool) -> Seq<
    (InstallDir, Seq<char>),
> {
    (if vst3_found {
        seq![(InstallDir::Vst3, PLUGIN_NAME@ + ".vst3"@)]
    } else {
        seq![]
    }) + (if clap_found {
        seq![(InstallDir::Clap, PLUGIN_NAME@ + ".clap"@)]
    } else {
        seq![]
    }) + (if platform == Platform::MacOS && au_found {
        seq![(InstallDir::Au, PLUGIN_DISPLAY_NAME@ + ".component"@)]
    } else {
        seq![]
    })
}

fn bundle_name(base: &str, suffix: &str) -> (s: String)
    ensures
        s@ == base@ + suffix@,
{
    let mut s = base.to_string();
    crate::text::push_str(&mut s, suffix);
    s
}

/// Which built bundles the install command copies.
pub fn install_plan(platform: Platform, vst3_found: bool, clap_found: bool, au_found: bool) -> (p: Vec<
    InstallItem,
>)
    ensures
        p@.map_values(|i: InstallItem| (i.kind, i.bundle@)) == install_items(
            platform,
            vst3_found,
            clap_found,
            au_found,
        ),
{
    let mut p: Vec<InstallItem> = Vec::new();
    if vst3_found {
        p.push(InstallItem { kind: InstallDir::Vst3, bundle: bundle_name(PLUGIN_NAME, ".vst3") });
    }
    if clap_found {
        p.push(InstallItem { kind: InstallDir::Clap, bundle: bundle_name(PLUGIN_NAME, ".clap") });
    }
    if platform == Platform::MacOS && au_found {
        p.push(InstallItem { kind: InstallDir::Au, bundle: bundle_name(PLUGIN_DISPLAY_NAME, ".component") });
    }
    assert(p@.map_values(|i: InstallItem| (i.kind, i.bundle@)) =~= install_items(
        platform,
        vst3_found,
        clap_found,
        au_found,
    ));
    p
}

/// A step of the full build pipeline.
#[derive(Debug, Clone, Copy, PartialEq, Eq, Structural)]
pub enum PipelineStep {
    Tests,
    Bundle,
    Au,
    Install,
}

/// What happens to a pipeline step.
#[derive(Debug, Clone, Copy, PartialEq, Eq, Structural)]
pub enum StepAction {
    /// The step runs.
    Run,
    /// A dry run only says what the step would do.
    Preview,
    /// Skipped on request (`--skip-tests`, `--skip-au`).
    SkippedByFlag,
    /// The AU build is skipped off macOS.
    SkippedOffMacos,
}

/// The steps of `cargo xtask all`, in order: the tests (unless skipped),
/// the bundle, the AU build (on macOS unless skipped), and the install; in a
/// dry run every step that is not skipped is only previewed. The first
/// failing step stops the pipeline.
pub open spec fn pipeline_of(skip_tests: bool, skip_au: bool, is_macos: bool, dry_run: bool) -> Seq<
    (PipelineStep, StepAction),
> {
    let go = if dry_run {
        StepAction::Preview
    } else {
        StepAction::Run
    };
    seq![
        (PipelineStep::Tests, if skip_tests {
            StepAction::SkippedByFlag
        } else {
            go
        }),
        (PipelineStep::Bundle, go),
        (PipelineStep::Au, if is_macos && !skip_au {
            go
        } else if skip_au {
            StepAction::SkippedByFlag
        } else {
            StepAction::SkippedOffMacos
        }),
        (PipelineStep::Install, go),
    ]
}

/// The steps of the full build pipeline.
pub fn pipeline_steps(skip_tests: bool, skip_au: bool, is_macos: bool, dry_run: bool) -> (s: Vec<
    (PipelineStep, StepAction),
>)
    ensures
        s@ == pipeline_of(skip_tests, skip_au, is_macos, dry_run),
{
    let go = if dry_run {
        StepAction::Preview
    } else {
        StepAction::Run
    };
    let tests = if skip_tests {
        StepAction::SkippedByFlag
    } else {
        go
    };
    let au = if is_macos && !skip_au {
        go
    } else if skip_au {
        StepAction::SkippedByFlag
    } else {
        StepAction::SkippedOffMacos
    };
    let mut s: Vec<(PipelineStep, StepAction)> = Vec::new();
    s.push((PipelineStep::Tests, tests));
    s.push((PipelineStep::Bundle, go));
    s.push((PipelineStep::Au, au));
    s.push((PipelineStep::Install, go));
    assert(s@ =~= pipeline_of(skip_tests, skip_au, is_macos, dry_run));
    s
}

/// What the AU command does before building.
#[derive(Debug, Clone, Copy, PartialEq, Eq, Structural)]
pub enum AuDecision {
    /// Off macOS there is nothing to build.
    SkipOffMacos,
    /// CMake is required and missing.
    CmakeMissing,
    /// The AU wrapper sources are missing.
    WrapperMissing,
    /// Configure and build the wrapper.
    Build,
}

/// The AU command's checks, in order: the platform, CMake, the wrapper.
pub fn au_decision(platform: Platform, cmake_found: bool, wrapper_exists: bool) -> (d: AuDecision)
    ensures
        platform != Platform::MacOS ==> d == AuDecision::SkipOffMacos,
        platform == Platform::MacOS && !cmake_found ==> d == AuDecision::CmakeMissing,
        platform == Platform::MacOS && cmake_found && !wrapper_exists ==> d == AuDecision::WrapperMissing,
        platform == Platform::MacOS && cmake_found && wrapper_exists ==> d == AuDecision::Build,
{
    if platform != Platform::MacOS {
        AuDecision::SkipOffMacos
    } else if !cmake_found {
        AuDecision::CmakeMissing
    } else if !wrapper_exists {
        AuDecision::WrapperMissing
    } else {
        AuDecision::Build
    }
}

/// The cargo arguments that build the desktop application.
pub fn desktop_build_args(release: bool) -> (args: Vec<&'static str>)
    ensures
        args@ == (if release {
            seq!["build", "-p", "desktop", "--release"]
        } else {
            seq!["build", "-p", "desktop"]
        }),
{
    let mut args: Vec<&'static str> = Vec::new();
    args.push("build");
    args.push("-p");
    args.push("desktop");
    if release {
        args.push("--release");
    }
    assert(args@ =~= (if release {
        seq!["build", "-p", "desktop", "--release"]
    } else {
        seq!["build", "-p", "desktop"]
    }));
    args
}

} // verus!
