//! Decisions of the template validation: the `wavecraft create` arguments,
//! what the generated project must contain, and how the start-up smoke test
//! reads the CLI's output.

use vstd::prelude::*;

use vstd::utf8::encode_utf8;

use crate::json_codec::{
    insert_string_member,
    json_document_parses,
    json_object_at,
    json_pointer_string,
    json_strings,
    parse_json_document,
    pretty_json,
    string_in,
};
use crate::scoped_json::{lemma_segments_diverge_at, pointer_segments};
use crate::sync_ui_versions::{lemma_dependency_pointer_segments, TEMPLATE_DEP_COMPONENTS_PTR, TEMPLATE_DEP_CORE_PTR};
use crate::text::{contains_str, has_substring, push_str};

verus! {

pub const TEST_PLUGIN_INPUT_NAME: &'static str = "myPlugin";
pub const TEST_PLUGIN_INTERNAL_ID: &'static str = "my_plugin";
pub const START_SMOKE_TIMEOUT_SECS: u64 = 180;
pub const START_SMOKE_WS_PORT: u16 = 39091;
pub const START_SMOKE_UI_PORT: u16 = 39092;
pub const START_SMOKE_KILL_GRACE_MS: u64 = 2000;
pub const START_SMOKE_POST_EXIT_DRAIN_ATTEMPTS: usize = 5;
pub const START_SMOKE_POST_EXIT_DRAIN_SLEEP_MS: u64 = 25;

/// Template validation configuration.
#[derive(Debug, Clone)]
pub struct ValidateTemplateConfig {
    /// Show verbose output
    pub verbose: bool,
    /// Keep the generated test project (don't clean up)
    pub keep: bool,
}

impl Default for ValidateTemplateConfig {
    fn default() -> (config: Self)
        ensures
            !config.verbose,
            !config.keep,
    {
        ValidateTemplateConfig { verbose: false, keep: false }
    }
}

/// The arguments of `wavecraft create` for the test plugin.
pub open spec fn create_args(output_dir: Seq<char>, local_sdk: bool) -> Seq<Seq<char>> {
    let base = seq![
        "create"@,
        "myPlugin"@,
        "--vendor"@,
        "Test Vendor"@,
        "--email"@,
        "test@example.com"@,
        "--url"@,
        "https://example.com"@,
        "--no-git"@,
        "--output"@,
        output_dir,
    ];
    if local_sdk {
        base.push("--local-sdk"@)
    } else {
        base
    }
}

/// The arguments that generate the test plugin into `output_dir`, from the
/// local SDK when `local_sdk` is set.
pub fn create_test_plugin_args(output_dir: &str, local_sdk: bool) -> (args: Vec<String>)
    ensures
        args@.map_values(|s: String| s@) == create_args(output_dir@, local_sdk),
{
    let mut args: Vec<String> = vec![
        "create".to_string(),
        TEST_PLUGIN_INPUT_NAME.to_string(),
        "--vendor".to_string(),
        "Test Vendor".to_string(),
        "--email".to_string(),
        "test@example.com".to_string(),
        "--url".to_string(),
        "https://example.com".to_string(),
        "--no-git".to_string(),
        "--output".to_string(),
        output_dir.to_string(),
    ];
    if local_sdk {
        args.push("--local-sdk".to_string());
    }
    assert(args@.map_values(|s: String| s@) =~= create_args(output_dir@, local_sdk));
    args
}

/// Whether CLI output shows the embedded-UI-assets regression: the
/// `include_dir!` path of the assets, or a missing assets directory.
pub open spec fn asset_regression(output: Seq<char>) -> bool {
    has_substring(output, "include_dir!(\"$CARGO_MANIFEST_DIR/assets/ui-dist\")"@) || (
    has_substring(output, "assets/ui-dist"@) && has_substring(
        output,
        "No such file or directory"@,
    ))
}

/// Detects the embedded-UI-assets regression in CLI output.
pub fn output_contains_asset_regression_signature(output: &str) -> (r: bool)
    ensures
        r == asset_regression(output@),
{
    contains_str(output, "include_dir!(\"$CARGO_MANIFEST_DIR/assets/ui-dist\")") || (contains_str(
        output,
        "assets/ui-dist",
    ) && contains_str(output, "No such file or directory"))
}

/// Detects that the dev servers reported readiness.
pub fn output_contains_ready_marker(output: &str) -> (r: bool)
    ensures
        r == has_substring(output@, "All servers running"@),
{
    contains_str(output, "All servers running")
}

/// The files every generated project holds, relative to its root.
pub open spec fn expected_files() -> Seq<Seq<char>> {
    seq![
        "engine/Cargo.toml"@,
        "engine/src/lib.rs"@,
        "ui/package.json"@,
        "ui/src/App.tsx"@,
        "README.md"@,
    ]
}

/// The files every generated project must hold.
pub fn expected_generated_files() -> (files: Vec<&'static str>)
    ensures
        files@.map_values(|s: &'static str| s@) == expected_files(),
{
    let files = vec!["engine/Cargo.toml", "engine/src/lib.rs", "ui/package.json", "ui/src/App.tsx", "README.md"];
    assert(files@.map_values(|s: &'static str| s@) =~= expected_files());
    files
}

/// Why the generated engine manifest does not name the plugin as expected.
#[derive(Debug, Clone, Copy, PartialEq, Eq, Structural)]
pub enum IdentifierMismatch {
    PackageName,
    LibName,
}

/// `name = "my_plugin"`.
pub open spec fn name_line() -> Seq<char> {
    "name = \""@ + "my_plugin"@ + "\""@
}

/// Checks that the generated engine manifest names the package and the
/// library after the plugin's internal id.
pub fn check_engine_identifiers(cargo_contents: &str) -> (r: Result<(), IdentifierMismatch>)
    ensures
        !has_substring(cargo_contents@, name_line()) ==> r == Err::<(), IdentifierMismatch>(
            IdentifierMismatch::PackageName,
        ),
        has_substring(cargo_contents@, name_line()) && !has_substring(cargo_contents@, "[lib]"@)
            ==> r == Err::<(), IdentifierMismatch>(IdentifierMismatch::LibName),
        r is Ok <==> has_substring(cargo_contents@, name_line()) && has_substring(
            cargo_contents@,
            "[lib]"@,
        ),
{
    let mut line = String::new();
    push_str(&mut line, "name = \"");
    push_str(&mut line, TEST_PLUGIN_INTERNAL_ID);
    push_str(&mut line, "\"");
    if !contains_str(cargo_contents, line.as_str()) {
        return Err(IdentifierMismatch::PackageName);
    }
    if !contains_str(cargo_contents, "[lib]") || !contains_str(cargo_contents, line.as_str()) {
        return Err(IdentifierMismatch::LibName);
    }
    Ok(())
}

/// The header of the patch section that points git sources at the workspace.
pub open spec fn patch_header() -> Seq<char> {
    "[patch.\"https://github.com/RonHouben/wavecraft\"]"@
}

/// The patch section for git-source validation, pointing the three crates
/// at their workspace paths.
pub open spec fn patch_block(nih_plug: Seq<char>, dsp: Seq<char>, dev_server: Seq<char>) -> Seq<
    char,
> {
    "\n\n"@ + patch_header() + "\nwavecraft-nih_plug = { path = \""@ + nih_plug
        + "\" }\nwavecraft-dsp = { path = \""@ + dsp + "\" }\nwavecraft-dev-server = { path = \""@
        + dev_server + "\" }\n"@
}

/// The workspace manifest with the git-source patch section appended, or
/// `None` when it already holds one.
pub fn git_source_overrides(cargo_contents: &str, nih_plug: &str, dsp: &str, dev_server: &str) -> (r:
    Option<String>)
    ensures
        has_substring(cargo_contents@, patch_header()) ==> r is None,
        !has_substring(cargo_contents@, patch_header()) ==> (r matches Some(s) && s@
            == cargo_contents@ + patch_block(nih_plug@, dsp@, dev_server@)),
{
    if contains_str(cargo_contents, "[patch.\"https://github.com/RonHouben/wavecraft\"]") {
        return None;
    }
    let mut s = cargo_contents.to_string();
    push_str(&mut s, "\n\n");
    push_str(&mut s, "[patch.\"https://github.com/RonHouben/wavecraft\"]");
    push_str(&mut s, "\nwavecraft-nih_plug = { path = \"");
    push_str(&mut s, nih_plug);
    push_str(&mut s, "\" }\nwavecraft-dsp = { path = \"");
    push_str(&mut s, dsp);
    push_str(&mut s, "\" }\nwavecraft-dev-server = { path = \"");
    push_str(&mut s, dev_server);
    push_str(&mut s, "\" }\n");
    assert(s@ =~= cargo_contents@ + patch_block(nih_plug@, dsp@, dev_server@));
    Some(s)
}

/// Applying the overrides twice changes nothing the second time.
pub proof fn law_git_source_overrides_idempotent(
    cargo_contents: Seq<char>,
    nih_plug: Seq<char>,
    dsp: Seq<char>,
    dev_server: Seq<char>,
)
    ensures
        has_substring(cargo_contents + patch_block(nih_plug, dsp, dev_server), patch_header()),
{
    reveal_strlit("\n\n");
    let s = cargo_contents + patch_block(nih_plug, dsp, dev_server);
    let i: int = cargo_contents.len() as int + 2;
    assert(s.subrange(i, i + patch_header().len()) =~= patch_header());
    assert(crate::text::occurs_at(s, patch_header(), i));
}

/// Why the bounded start-up smoke test failed.
#[derive(Debug, Clone, Copy, PartialEq, Eq, Structural)]
pub enum SmokeFailure {
    /// `wavecraft start` exited with a failure status.
    ExitedEarly,
    /// The output shows the embedded-UI-assets regression.
    AssetRegression,
    /// `wavecraft start` exited without reporting readiness.
    NoReadyMarker,
    /// The time limit passed before readiness was reported.
    TimedOut,
}

/// What the smoke loop does after reading the output of a running process.
#[derive(Debug, Clone, Copy, PartialEq, Eq, Structural)]
pub enum SmokePoll {
    /// Readiness was reported: stop the process and check its output.
    Ready,
    /// The time limit passed: stop the process and check its output.
    Timeout,
    /// Keep waiting.
    Continue,
}

/// Decides the next step of the smoke loop while the process runs.
pub fn smoke_poll(combined_output: &str, elapsed_secs: u64) -> (r: SmokePoll)
    ensures
        has_substring(combined_output@, "All servers running"@) ==> r == SmokePoll::Ready,
        !has_substring(combined_output@, "All servers running"@) && elapsed_secs
            >= START_SMOKE_TIMEOUT_SECS ==> r == SmokePoll::Timeout,
        !has_substring(combined_output@, "All servers running"@) && elapsed_secs
            < START_SMOKE_TIMEOUT_SECS ==> r == SmokePoll::Continue,
{
    if output_contains_ready_marker(combined_output) {
        SmokePoll::Ready
    } else if elapsed_secs >= START_SMOKE_TIMEOUT_SECS {
        SmokePoll::Timeout
    } else {
        SmokePoll::Continue
    }
}

/// The verdict once the process exited on its own: it must have succeeded,
/// show no asset regression, and have reported readiness.
pub fn smoke_verdict_after_exit(success: bool, combined_output: &str) -> (r: Result<(), SmokeFailure>)
    ensures
        !success ==> r == Err::<(), SmokeFailure>(SmokeFailure::ExitedEarly),
        success && asset_regression(combined_output@) ==> r == Err::<(), SmokeFailure>(
            SmokeFailure::AssetRegression,
        ),
        success && !asset_regression(combined_output@) && !has_substring(
            combined_output@,
            "All servers running"@,
        ) ==> r == Err::<(), SmokeFailure>(SmokeFailure::NoReadyMarker),
        r is Ok <==> success && !asset_regression(combined_output@) && has_substring(
            combined_output@,
            "All servers running"@,
        ),
{
    if !success {
        return Err(SmokeFailure::ExitedEarly);
    }
    if output_contains_asset_regression_signature(combined_output) {
        return Err(SmokeFailure::AssetRegression);
    }
    if !output_contains_ready_marker(combined_output) {
        return Err(SmokeFailure::NoReadyMarker);
    }
    Ok(())
}

/// The verdict once the process was stopped, after readiness (`timed_out`
/// false) or after the time limit (`timed_out` true).
pub fn smoke_verdict_after_stop(timed_out: bool, combined_output: &str) -> (r: Result<(), SmokeFailure>)
    ensures
        asset_regression(combined_output@) ==> r == Err::<(), SmokeFailure>(
            SmokeFailure::AssetRegression,
        ),
        !asset_regression(combined_output@) && timed_out && !has_substring(
            combined_output@,
            "All servers running"@,
        ) ==> r == Err::<(), SmokeFailure>(SmokeFailure::TimedOut),
        r is Ok <==> !asset_regression(combined_output@) && (!timed_out || has_substring(
            combined_output@,
            "All servers running"@,
        )),
{
    if output_contains_asset_regression_signature(combined_output) {
        return Err(SmokeFailure::AssetRegression);
    }
    if timed_out && !output_contains_ready_marker(combined_output) {
        return Err(SmokeFailure::TimedOut);
    }
    Ok(())
}

/// A generated plugin root holds `engine/Cargo.toml` and no `sdk-template`.
pub fn is_generated_plugin_root(engine_cargo_is_file: bool, sdk_template_is_dir: bool) -> (r: bool)
    ensures
        r == (engine_cargo_is_file && !sdk_template_is_dir),
{
    engine_cargo_is_file && !sdk_template_is_dir
}

/// Why the generated UI package could not be pointed at the workspace.
#[derive(Debug, Clone, Copy, PartialEq, Eq, Structural)]
pub enum NormalizeError {
    /// `ui/package.json` is not JSON.
    NotParsed,
    /// It has no `dependencies` object.
    MissingDependencies,
}

/// The pointer of the generated UI package's dependencies object.
pub const UI_DEPENDENCIES_PTR: &'static str = "/dependencies";

/// A `file:` dependency on a local package directory.
pub open spec fn file_dependency(dir: Seq<char>) -> Seq<char> {
    "file:"@ + dir
}

fn file_dependency_text(dir: &str) -> (s: String)
    ensures
        s@ == file_dependency(dir@),
{
    let mut s = "file:".to_string();
    push_str(&mut s, dir);
    s
}

/// Points the generated UI package's `@wavecraft/core` and
/// `@wavecraft/components` dependencies at the workspace's package
/// directories, and gives the rewritten file text (pretty-printed, with a
/// final newline).
pub fn normalized_ui_package(content: &[u8], core_dir: &str, components_dir: &str) -> (r: Result<
    String,
    NormalizeError,
>)
    ensures
        !json_document_parses(content@) ==> r == Err::<String, NormalizeError>(NormalizeError::NotParsed),
        json_document_parses(content@) && !json_object_at(content@, UI_DEPENDENCIES_PTR@) ==> r == Err::<
            String,
            NormalizeError,
        >(NormalizeError::MissingDependencies),
        json_document_parses(content@) && json_object_at(content@, UI_DEPENDENCIES_PTR@) ==> (r matches Ok(
            t,
        ) && json_pointer_string(encode_utf8(t@), TEMPLATE_DEP_CORE_PTR@) == Some(
            file_dependency(core_dir@),
        ) && json_pointer_string(encode_utf8(t@), TEMPLATE_DEP_COMPONENTS_PTR@) == Some(
            file_dependency(components_dir@),
        )),
{
    let mut doc = match parse_json_document(content) {
        Some(d) => d,
        None => {
            return Err(NormalizeError::NotParsed);
        },
    };
    let core_value = file_dependency_text(core_dir);
    let components_value = file_dependency_text(components_dir);
    proof {
        lemma_dependency_pointer_segments();
    }
    if !insert_string_member(&mut doc, UI_DEPENDENCIES_PTR, "@wavecraft/core", core_value.as_str()) {
        return Err(NormalizeError::MissingDependencies);
    }
    let ghost after_core = doc;
    assert(UI_DEPENDENCIES_PTR@ == "/dependencies"@);
    assert(seq!["dependencies"@].push("@wavecraft/core"@) =~= seq!["dependencies"@, "@wavecraft/core"@]);
    assert(pointer_segments(TEMPLATE_DEP_CORE_PTR@) == Some(
        pointer_segments(UI_DEPENDENCIES_PTR@).unwrap().push("@wavecraft/core"@),
    ));
    assert(string_in(json_strings(after_core), TEMPLATE_DEP_CORE_PTR@) == Some(core_value@));
    let inserted = insert_string_member(
        &mut doc,
        UI_DEPENDENCIES_PTR,
        "@wavecraft/components",
        components_value.as_str(),
    );
    assert(inserted);
    proof {
        let member = seq!["dependencies"@, "@wavecraft/components"@];
        let core_segs = seq!["dependencies"@, "@wavecraft/core"@];
        reveal_strlit("@wavecraft/core");
        reveal_strlit("@wavecraft/components");
        assert(member[1].len() != core_segs[1].len());
        lemma_segments_diverge_at(member, core_segs, 1);
        assert(pointer_segments(UI_DEPENDENCIES_PTR@).unwrap().push("@wavecraft/components"@) =~= member);
        assert(pointer_segments(TEMPLATE_DEP_COMPONENTS_PTR@) == Some(member));
        assert(pointer_segments(TEMPLATE_DEP_CORE_PTR@) == Some(core_segs));
    }
    let pretty = pretty_json(&doc);
    let mut text = match pretty {
        Some(t) => t,
        None => {
            return Err(NormalizeError::NotParsed);
        },
    };
    text.push('\n');
    Ok(text)
}

} // verus!
