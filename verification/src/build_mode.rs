//! Build modes, platform detection and plugin names.

use vstd::prelude::*;

verus! {

/// Build mode for compilation.
#[derive(Debug, Clone, Copy, PartialEq, Eq, Structural)]
pub enum BuildMode {
    /// Debug build (faster compile, no optimizations)
    Debug,
    /// Release build (optimized)
    Release,
    /// Release build with debug symbols (for profiling)
    ReleaseDebug,
}

impl BuildMode {
    /// The cargo profile flag of each mode, as text.
    pub open spec fn spec_cargo_flag(self) -> Option<Seq<char>> {
        match self {
            BuildMode::Debug => None,
            BuildMode::Release => Some("--release"@),
            BuildMode::ReleaseDebug => Some("--profile=release-debug"@),
        }
    }

    /// The target directory name of each mode, as text.
    pub open spec fn spec_target_dir(self) -> Seq<char> {
        match self {
            BuildMode::Debug => "debug"@,
            BuildMode::Release => "release"@,
            BuildMode::ReleaseDebug => "release-debug"@,
        }
    }

    /// Returns the target directory name for this build mode.
    pub fn target_dir(&self) -> (dir: &'static str)
        ensures
            dir@ == self.spec_target_dir(),
    {
        match self {
            BuildMode::Debug => "debug",
            BuildMode::Release => "release",
            BuildMode::ReleaseDebug => "release-debug",
        }
    }

    /// Returns the cargo profile flag for this build mode.
    pub fn cargo_flag(&self) -> (flag: Option<&'static str>)
        ensures
            flag.is_some() == self.spec_cargo_flag().is_some(),
            flag.is_some() ==> flag.unwrap()@ == self.spec_cargo_flag().unwrap(),
    {
        match self {
            BuildMode::Debug => None,
            BuildMode::Release => Some("--release"),
            BuildMode::ReleaseDebug => Some("--profile=release-debug"),
        }
    }
}

impl Default for BuildMode {
    fn default() -> (mode: Self)
        ensures
            mode == BuildMode::Release,
    {
        BuildMode::Release
    }
}

/// Detected operating system platform.
#[derive(Debug, Clone, Copy, PartialEq, Eq, Structural)]
pub enum Platform {
    MacOS,
    Windows,
    Linux,
}

/// The platform of an operating system name as `std::env::consts::OS`
/// gives it: `macos` and `windows` are recognised, anything else counts as
/// Linux.
pub open spec fn platform_of(os: Seq<char>) -> Platform {
    if os == "macos"@ {
        Platform::MacOS
    } else if os == "windows"@ {
        Platform::Windows
    } else {
        Platform::Linux
    }
}

impl Platform {
    /// The platform of the operating system named `os` (the value of
    /// `std::env::consts::OS` on the running machine).
    pub fn current(os: &str) -> (p: Self)
        ensures
            p == platform_of(os@),
    {
        if crate::text::str_eq(os, "macos") {
            Platform::MacOS
        } else if crate::text::str_eq(os, "windows") {
            Platform::Windows
        } else {
            Platform::Linux
        }
    }

    /// Returns true if running on macOS.
    pub fn is_macos(&self) -> (r: bool)
        ensures
            r == (*self == Platform::MacOS),
    {
        match self {
            Platform::MacOS => true,
            _ => false,
        }
    }
}

/// Plugin name constants.
pub const PLUGIN_NAME: &'static str = "vstkit";
pub const PLUGIN_DISPLAY_NAME: &'static str = "VstKit";

} // verus!
