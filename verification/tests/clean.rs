use xtask::clean::{clean_plan, InstallDir};
use xtask::clean::{format_size, installed_removal_allowed, total_size, CleanedItem};

#[test]
fn test_format_size() {
    assert_eq!(format_size(0), "0 bytes");
    assert_eq!(format_size(500), "500 bytes");
    assert_eq!(format_size(1024), "1 KB");
    assert_eq!(format_size(1536), "2 KB"); // Rounds to nearest KB
    assert_eq!(format_size(1024 * 1024), "1 MB");
    assert_eq!(format_size(1536 * 1024), "2 MB"); // Rounds to nearest MB
    assert_eq!(format_size(1024 * 1024 * 1024), "1.00 GB");
    assert_eq!(format_size(1536 * 1024 * 1024), "1.50 GB");
}

#[test]
fn format_size_rounds_ties_to_even_like_float_formatting() {
    assert_eq!(format_size(2560), "2 KB");
    assert_eq!(format_size(3584), "4 KB");
    assert_eq!(format_size(1023), "1023 bytes");
    assert_eq!(format_size(1024 * 1024 - 1), "1024 KB");
    let gb = 1024u64 * 1024 * 1024;
    assert_eq!(format_size(gb * 10 + gb / 8), "10.12 GB");
    assert_eq!(format_size(u64::MAX), format!("{:.2} GB", u64::MAX as f64 / gb as f64));
}

#[test]
fn total_and_removal_policy() {
    let items = vec![
        CleanedItem { path: "a".to_string(), size_bytes: 10 },
        CleanedItem { path: "b".to_string(), size_bytes: 32 },
    ];
    assert_eq!(total_size(&items), 42);
    assert!(!installed_removal_allowed(false, false));
    assert!(installed_removal_allowed(true, false));
    assert!(installed_removal_allowed(false, true));
}

#[test]
fn clean_plan_follows_dry_run_and_force() {
    let dry = clean_plan("/p", false, true, false, true);
    assert!(dry.dry_run && !dry.cargo_clean && dry.remove_dirs.is_empty() && !dry.force_warning);
    assert_eq!(dry.preview_dirs.len(), 5);
    assert_eq!(dry.preview_dirs[4], ("/p/engine/target/bundled".to_string(), "engine/target/bundled".to_string()));
    assert_eq!(dry.preview_installed.len(), 2);
    let unforced = clean_plan("/p", true, true, false, false);
    assert!(unforced.force_warning && unforced.cargo_clean && unforced.remove_installed.is_empty());
    assert_eq!(unforced.remove_dirs.len(), 6);
    assert_eq!(unforced.remove_dirs[5].1, "packaging/macos/au-wrapper/build");
    let forced = clean_plan("/p", true, true, true, false);
    assert!(!forced.force_warning);
    assert_eq!(forced.remove_installed[0], (InstallDir::Vst3, "vstkit.vst3".to_string()));
    assert_eq!(forced.remove_installed[2], (InstallDir::Au, "VstKit.component".to_string()));
    let plain = clean_plan("/p", false, false, false, false);
    assert!(!plain.force_warning && plain.remove_installed.is_empty() && plain.preview_installed.is_empty());
}
