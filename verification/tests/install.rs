use xtask::build_mode::Platform;
use xtask::clean::InstallDir;
use xtask::install::{au_decision, desktop_build_args, install_dir, install_plan, pipeline_steps, AuDecision, InstallItem, PipelineStep, StepAction};

#[test]
fn install_directories_follow_the_platform() {
    assert_eq!(install_dir(Platform::MacOS, InstallDir::Vst3, "/Users/me").as_deref(), Some("/Users/me/Library/Audio/Plug-Ins/VST3"));
    assert_eq!(install_dir(Platform::MacOS, InstallDir::Au, "/Users/me").as_deref(), Some("/Users/me/Library/Audio/Plug-Ins/Components"));
    assert_eq!(install_dir(Platform::Windows, InstallDir::Clap, "C:\\Users\\me").as_deref(), Some("C:\\Program Files\\Common Files\\CLAP"));
    assert_eq!(install_dir(Platform::Linux, InstallDir::Vst3, "/home/me").as_deref(), Some("/home/me/.vst3"));
    assert_eq!(install_dir(Platform::Linux, InstallDir::Au, "/home/me"), None);
}

#[test]
fn install_plan_keeps_built_bundles_in_order() {
    let plan = install_plan(Platform::MacOS, true, false, true);
    assert_eq!(plan, vec![
        InstallItem { kind: InstallDir::Vst3, bundle: "vstkit.vst3".to_string() },
        InstallItem { kind: InstallDir::Au, bundle: "VstKit.component".to_string() },
    ]);
    assert_eq!(install_plan(Platform::Linux, true, true, true).len(), 2);
    assert!(install_plan(Platform::Windows, false, false, false).is_empty());
}

#[test]
fn pipeline_steps_follow_flags() {
    let steps = pipeline_steps(false, false, true, false);
    assert_eq!(steps, vec![
        (PipelineStep::Tests, StepAction::Run),
        (PipelineStep::Bundle, StepAction::Run),
        (PipelineStep::Au, StepAction::Run),
        (PipelineStep::Install, StepAction::Run),
    ]);
    let dry = pipeline_steps(true, false, false, true);
    assert_eq!(dry[0], (PipelineStep::Tests, StepAction::SkippedByFlag));
    assert_eq!(dry[1], (PipelineStep::Bundle, StepAction::Preview));
    assert_eq!(dry[2], (PipelineStep::Au, StepAction::SkippedOffMacos));
    assert_eq!(pipeline_steps(false, true, true, false)[2], (PipelineStep::Au, StepAction::SkippedByFlag));
    assert_eq!(au_decision(Platform::Linux, false, false), AuDecision::SkipOffMacos);
    assert_eq!(au_decision(Platform::MacOS, false, true), AuDecision::CmakeMissing);
    assert_eq!(au_decision(Platform::MacOS, true, false), AuDecision::WrapperMissing);
    assert_eq!(au_decision(Platform::MacOS, true, true), AuDecision::Build);
    assert_eq!(desktop_build_args(true), vec!["build", "-p", "desktop", "--release"]);
}
