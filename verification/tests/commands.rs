use xtask::npm_updates::{run as npm_run, upgrade_mode_succeeded, NpmRunError, NpmRunMode, NpmUpdatesConfig};
use xtask::try_sdk::{run as try_run, TrySdkError};
use xtask::build_mode::{BuildMode, Platform};
use xtask::bundle::{
    bundle_candidates, discover_bundleable_packages, resolve_bundle_package, run, run_with_features,
    BundleDecision, BundleError, CrateManifestInfo,
};
use xtask::lint::{cargo_clippy_args, cargo_fmt_args, ui_lint_scripts, LintTargets};
use xtask::notarize::{classify_status, notarytool_args, poll_step, NotarizeAction, NotarizeConfig, NotarizeError, NotaryStatus, PollStep};
use xtask::ordering::{sort_by_key, str_lt};
use xtask::release::{run as release_steps, ReleaseStep};
use xtask::sign::{codesign_args, diagnose_signing_error, run_verify, validate_signature_properties, SignError, SignatureProblem, SigningConfig};
use xtask::test_runner::run as test_plan;

#[test]
fn bundle_package_resolution() {
    let manifests = vec![
        CrateManifestInfo { name: Some("zeta".to_string()), crate_types: Some(vec!["cdylib".to_string()]), publish: None },
        CrateManifestInfo { name: Some("lib-only".to_string()), crate_types: Some(vec!["lib".to_string()]), publish: None },
        CrateManifestInfo { name: Some("private".to_string()), crate_types: Some(vec!["cdylib".to_string()]), publish: Some(false) },
        CrateManifestInfo { name: Some("alpha".to_string()), crate_types: Some(vec!["rlib".to_string(), "cdylib".to_string()]), publish: Some(true) },
    ];
    let found = discover_bundleable_packages(manifests);
    assert_eq!(found, vec!["alpha".to_string(), "zeta".to_string()]);
    assert_eq!(
        resolve_bundle_package(None, &found),
        Err(BundleError::MultipleBundleablePackages(found.clone()))
    );
    assert_eq!(resolve_bundle_package(Some("mine"), &found), Ok("mine".to_string()));
    assert_eq!(resolve_bundle_package(None, &[]), Err(BundleError::NoBundleablePackage));
    assert!(matches!(run(BuildMode::Release, None, &[]), Ok(BundleDecision::Skip)));
    match run_with_features(BuildMode::ReleaseDebug, None, &["a", "b"], &["only".to_string()]) {
        Ok(BundleDecision::Build(plan)) => {
            assert_eq!(plan.package_name, "only");
            assert_eq!(plan.build_args, vec!["build", "-p", "only", "--profile=release-debug", "--features", "a,b"]);
            assert_eq!(plan.bundler_args, vec!["bundle", "only", "--profile=release-debug", "--features", "a,b"]);
        }
        _ => panic!("expected a build"),
    }
    match run(BuildMode::Debug, Some("p"), &[]) {
        Ok(BundleDecision::Build(plan)) => assert_eq!(plan.build_args, vec!["build", "-p", "p"]),
        _ => panic!("expected a build"),
    }
    let (a, b, c, d) = bundle_candidates("pkg");
    assert_eq!((a.as_str(), b.as_str(), c.as_str(), d.as_str()), ("vstkit.vst3", "pkg.vst3", "vstkit.clap", "pkg.clap"));
}

#[test]
fn lint_and_test_commands() {
    assert_eq!(LintTargets::default(), LintTargets { ui: true, engine: true, fix: false });
    assert_eq!(cargo_fmt_args(false), vec!["fmt", "--check"]);
    assert_eq!(cargo_clippy_args(true).len(), 8);
    assert_eq!(ui_lint_scripts(true), vec!["lint:fix", "format", "typecheck"]);
    let plan = test_plan(None, false, false, false);
    assert!(plan.run_engine && plan.run_ui);
    assert_eq!(plan.engine_args, vec!["test", "-p", "dsp", "-p", "protocol"]);
    let plan = test_plan(Some(vec!["x".to_string()]), false, true, false);
    assert!(!plan.run_engine && plan.run_ui);
    assert_eq!(plan.engine_args, vec!["test", "-p", "x"]);
    assert_eq!(test_plan(None, true, false, true).engine_args, vec!["test", "--workspace"]);
}

#[test]
fn signing_and_notarization_decisions() {
    assert!(matches!(SigningConfig::from_values(None, None), Err(SignError::MissingIdentity)));
    let config = SigningConfig::from_values(Some("ID".to_string()), None).ok().expect("config");
    assert_eq!(
        codesign_args(&config, Some("/e.plist".to_string()), "/b.vst3"),
        vec!["--deep", "--force", "--options", "runtime", "--timestamp", "--entitlements", "/e.plist", "--sign", "ID", "/b.vst3"]
    );
    assert_eq!(run_verify(Platform::Linux, 3), Err(SignError::NotMacOS));
    assert_eq!(run_verify(Platform::MacOS, 0), Err(SignError::NoBundles));
    assert_eq!(validate_signature_properties("flags=runtime", ""), Ok(()));
    assert_eq!(validate_signature_properties("flags=none", ""), Err(SignatureProblem::MissingHardenedRuntime));
    assert_eq!(validate_signature_properties("runtime", "<plist/>"), Err(SignatureProblem::MissingJitEntitlement));
    assert_eq!(diagnose_signing_error(3), "Bundle is malformed or has invalid structure.");

    let n = NotarizeConfig::from_values(Some("a@b".to_string()), Some("T".to_string()), None).ok().expect("config");
    assert_eq!(n.password, "@keychain:AC_PASSWORD");
    assert!(matches!(NotarizeConfig::from_values(Some("a".to_string()), None, None), Err(NotarizeError::MissingTeamId)));
    assert_eq!(xtask::notarize::run(NotarizeAction::Staple, Platform::Linux), Err(NotarizeError::NotMacOS));
    assert_eq!(classify_status("Rejected"), NotaryStatus::Failed);
    assert_eq!(classify_status("weird"), NotaryStatus::Unknown);
    assert_eq!(poll_step(60, NotaryStatus::InProgress), PollStep::TimedOut);
    assert_eq!(poll_step(3, NotaryStatus::InProgress), PollStep::Wait);
    assert_eq!(poll_step(60, NotaryStatus::Accepted), PollStep::Staple);
    assert_eq!(notarytool_args("info", "id1", &n, true).len(), 11);
    assert_eq!(release_steps(true), vec![ReleaseStep::Bundle, ReleaseStep::Sign]);
    assert_eq!(release_steps(false).len(), 3);
}

#[test]
fn text_order_and_sorting() {
    assert!(str_lt("abc", "abd"));
    assert!(str_lt("ab", "abc"));
    assert!(!str_lt("b", "abc"));
    assert!(!str_lt("x", "x"));
    let sorted = sort_by_key(vec!["pear".to_string(), "apple".to_string(), "fig".to_string(), "apple".to_string()]);
    assert_eq!(sorted, vec!["apple", "apple", "fig", "pear"]);
}

#[test]
fn npm_and_try_sdk_preflights() {
    let config = NpmUpdatesConfig { strict: true, upgrade: true, verbose: false };
    assert_eq!(npm_run(&config, false), Err(NpmRunError::NpmMissing));
    assert_eq!(npm_run(&config, true), Ok(NpmRunMode::Upgrade));
    assert_eq!(npm_run(&NpmUpdatesConfig { upgrade: false, ..config }, true), Ok(NpmRunMode::Check));
    assert!(upgrade_mode_succeeded(&[true, true]));
    assert!(!upgrade_mode_succeeded(&[true, false, true]));
    assert_eq!(try_run(false, true), Err(TrySdkError::UiWorkspaceMissing));
    assert_eq!(try_run(true, false), Err(TrySdkError::NpmMissing));
    assert_eq!(try_run(true, true), Ok(()));
}
