//! Verified core of the Wavecraft build tooling.

pub mod build_mode;
pub mod json_codec;
pub mod json_scan;
pub mod text;
pub mod scoped_json;
pub mod version;
pub mod sync_ui_versions;
pub mod cd_dry_run;
pub mod check;
pub mod clean;
pub mod install;
pub mod paths;
pub mod dev;
pub mod npm_updates;
pub mod validate_template;
pub mod ordering;
pub mod bundle;
pub mod lint;
pub mod test_runner;
pub mod sign;
pub mod notarize;
pub mod release;
pub mod try_sdk;
pub mod protocol;
pub mod processors;
pub mod test_support;
pub mod toml_doc;
pub mod validate_cli_deps;
