use xtask::bundle::{bundle_error_message, crate_manifest_info, discover_bundleable_packages, located_bundles, resolve_bundle_package, BundleError};

#[test]
fn manifest_info_reads_name_types_and_publish() {
    let text = "[package]\nname = \"wavecraft-nih_plug\"\n\n[lib]\ncrate-type = [\"cdylib\", 3, \"rlib\"]\n";
    let info = crate_manifest_info(text).expect("parses");
    assert_eq!(info.name.as_deref(), Some("wavecraft-nih_plug"));
    assert_eq!(info.crate_types, Some(vec!["cdylib".to_string(), "rlib".to_string()]));
    assert_eq!(info.publish, None);
    let internal = crate_manifest_info("[package]\nname = \"internal-plugin\"\npublish = false\n[lib]\ncrate-type = [\"cdylib\"]\n").expect("parses");
    assert_eq!(internal.publish, Some(false));
    let core = crate_manifest_info("[package]\nname = \"wavecraft-core\"\n[lib]\ncrate-type = [\"rlib\"]\n").expect("parses");
    assert!(crate_manifest_info("[package").is_none());
    let names = discover_bundleable_packages(vec![info, internal, core]);
    assert_eq!(names, vec!["wavecraft-nih_plug".to_string()]);
}

#[test]
fn located_bundles_prefers_plugin_name() {
    let found = located_bundles("my-plugin", false, true, true, true).expect("some bundle");
    assert_eq!(found.vst3.as_deref(), Some("my-plugin.vst3"));
    assert_eq!(found.clap.as_deref(), Some("vstkit.clap"));
    assert!(located_bundles("my-plugin", false, false, false, false).is_none());
}

#[test]
fn bundle_resolution_errors_read_as_the_original() {
    assert_eq!(resolve_bundle_package(Some("custom-plugin"), &[]), Ok("custom-plugin".to_string()));
    let none = resolve_bundle_package(None, &[]).unwrap_err();
    let msg = bundle_error_message(&none);
    assert!(msg.contains("No bundleable plugin crate found in engine workspace"));
    assert!(msg.contains("wavecraft bundle"));
    let many = resolve_bundle_package(None, &["plugin-a".to_string(), "plugin-b".to_string()]).unwrap_err();
    assert_eq!(many, BundleError::MultipleBundleablePackages(vec!["plugin-a".to_string(), "plugin-b".to_string()]));
    let msg = bundle_error_message(&many);
    assert!(msg.starts_with("Multiple bundleable plugin crates detected: plugin-a, plugin-b."));
    assert!(msg.contains("--package"));
}
