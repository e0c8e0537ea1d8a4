use std::path::Path;
use xtask::build_mode::{BuildMode, Platform, PLUGIN_NAME};
use xtask::paths::{au_wrapper_dir, bundled_dir, engine_dir, join_path, parent_path, ui_dir};

#[test]
fn test_build_mode_default_is_release() {
    let mode = BuildMode::default();
    assert_eq!(mode, BuildMode::Release);
}

#[test]
fn test_build_mode_cargo_flags() {
    assert_eq!(BuildMode::Debug.cargo_flag(), None);
    assert_eq!(BuildMode::Release.cargo_flag(), Some("--release"));
    assert_eq!(BuildMode::ReleaseDebug.cargo_flag(), Some("--profile=release-debug"));
}

#[test]
fn test_build_mode_target_dirs() {
    assert_eq!(BuildMode::Debug.target_dir(), "debug");
    assert_eq!(BuildMode::Release.target_dir(), "release");
    assert_eq!(BuildMode::ReleaseDebug.target_dir(), "release-debug");
}

#[test]
fn test_platform_current_returns_valid() {
    let platform = Platform::current("linux");
    assert!(matches!(platform, Platform::MacOS | Platform::Windows | Platform::Linux));
}

#[test]
fn test_platform_is_macos() {
    assert!(Platform::MacOS.is_macos());
    assert!(!Platform::Windows.is_macos());
    assert!(!Platform::Linux.is_macos());
}

#[test]
fn test_plugin_name_is_defined() {
    assert!(!PLUGIN_NAME.is_empty());
    assert_eq!(PLUGIN_NAME, "vstkit");
}

#[test]
fn test_bundled_dir_is_in_target() {
    let bundled = bundled_dir("/work/project");
    assert!(bundled.contains("target"));
    assert!(Path::new(&bundled).ends_with("bundled"));
}

#[test]
fn test_au_wrapper_dir_macos_only() {
    let au_dir = au_wrapper_dir("/work/project");
    assert!(au_dir.contains("au-wrapper"));
}

#[test]
fn platform_names_and_directories() {
    assert_eq!(Platform::current("macos"), Platform::MacOS);
    assert_eq!(Platform::current("windows"), Platform::Windows);
    assert_eq!(Platform::current("freebsd"), Platform::Linux);
    assert_eq!(engine_dir("/p"), "/p/engine");
    assert_eq!(ui_dir("/p/"), "/p/ui");
    assert_eq!(bundled_dir("/p"), "/p/engine/target/bundled");
    assert_eq!(au_wrapper_dir("/p"), "/p/packaging/macos/au-wrapper");
    assert_eq!(join_path("", "x"), "x");
    assert_eq!(parent_path("/a/b//").as_deref(), Some("/a"));
    assert_eq!(parent_path("a").as_deref(), Some(""));
    assert_eq!(parent_path("/a").as_deref(), Some("/"));
    assert_eq!(parent_path("/"), None);
    assert_eq!(parent_path(""), None);
}
