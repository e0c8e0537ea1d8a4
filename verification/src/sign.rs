//! Decisions of macOS code signing: the `codesign` arguments, which bundles
//! are signed and verified, and what a valid signature must show.

use vstd::prelude::*;

use crate::build_mode::Platform;
use crate::paths::{join, join_path};
use crate::text::{contains_str, has_substring};

verus! {

/// Configuration for code signing.
pub struct SigningConfig {
    /// Developer ID identity (e.g., "Developer ID Application: Name (TEAM_ID)")
    pub identity: String,
    /// Path to entitlements file
    pub entitlements: Option<String>,
    /// Enable verbose output
    pub verbose: bool,
}

/// Why signing cannot go ahead.
#[derive(Debug, Clone, Copy, PartialEq, Eq, Structural)]
pub enum SignError {
    /// `APPLE_SIGNING_IDENTITY` is not set.
    MissingIdentity,
    /// Signing runs on macOS only.
    NotMacOS,
    /// No plugin bundle was found to verify.
    NoBundles,
}

impl SigningConfig {
    /// The configuration from the values of `APPLE_SIGNING_IDENTITY` and
    /// `APPLE_ENTITLEMENTS`; the identity is required.
    pub fn from_values(identity: Option<String>, entitlements: Option<String>) -> (r: Result<
        Self,
        SignError,
    >)
        ensures
            identity is None ==> r == Err::<Self, SignError>(SignError::MissingIdentity),
            identity matches Some(id) ==> (r matches Ok(c) && c.identity == id && c.entitlements
                == entitlements && !c.verbose),
    {
        match identity {
            Some(identity) => Ok(SigningConfig { identity, entitlements, verbose: false }),
            None => Err(SignError::MissingIdentity),
        }
    }
}

/// The bundles that are signed, with their format names.
pub open spec fn signed_bundles() -> Seq<(Seq<char>, Seq<char>)> {
    seq![("vstkit.vst3"@, "VST3"@), ("vstkit.clap"@, "CLAP"@), ("vstkit.component"@, "AU"@)]
}

/// The bundle file names and their formats, in signing order.
pub fn bundles() -> (b: Vec<(&'static str, &'static str)>)
    ensures
        b@.map_values(|p: (&'static str, &'static str)| (p.0@, p.1@)) == signed_bundles(),
{
    let b = vec![("vstkit.vst3", "VST3"), ("vstkit.clap", "CLAP"), ("vstkit.component", "AU")];
    assert(b@.map_values(|p: (&'static str, &'static str)| (p.0@, p.1@)) =~= signed_bundles());
    b
}

/// The `codesign` arguments that sign a bundle with hardened runtime and a
/// secure timestamp, with the configured entitlements or else the default
/// ones when they exist.
pub open spec fn sign_args(
    identity: Seq<char>,
    entitlements: Option<Seq<char>>,
    default_entitlements: Option<Seq<char>>,
    bundle_path: Seq<char>,
) -> Seq<Seq<char>> {
    let base = seq!["--deep"@, "--force"@, "--options"@, "runtime"@, "--timestamp"@];
    let with_entitlements = match entitlements {
        Some(e) => base + seq!["--entitlements"@, e],
        None => match default_entitlements {
            Some(d) => base + seq!["--entitlements"@, d],
            None => base,
        },
    };
    with_entitlements + seq!["--sign"@, identity, bundle_path]
}

/// The character view of an optional string.
pub open spec fn opt_view(o: Option<String>) -> Option<Seq<char>> {
    match o {
        Some(s) => Some(s@),
        None => None,
    }
}

/// The `codesign` arguments for one bundle; `default_entitlements` is the
/// default entitlements file when it exists.
pub fn codesign_args(config: &SigningConfig, default_entitlements: Option<String>, bundle_path: &str) -> (args:
    Vec<String>)
    ensures
        args@.map_values(|s: String| s@) == sign_args(
            config.identity@,
            opt_view(config.entitlements),
            opt_view(default_entitlements),
            bundle_path@,
        ),
{
    let mut args: Vec<String> = vec![
        "--deep".to_string(),
        "--force".to_string(),
        "--options".to_string(),
        "runtime".to_string(),
        "--timestamp".to_string(),
    ];
    match &config.entitlements {
        Some(e) => {
            args.push("--entitlements".to_string());
            args.push(e.clone());
        },
        None => match default_entitlements {
            Some(d) => {
                args.push("--entitlements".to_string());
                args.push(d);
            },
            None => {},
        },
    }
    args.push("--sign".to_string());
    args.push(config.identity.clone());
    args.push(bundle_path.to_string());
    assert(args@.map_values(|s: String| s@) =~= sign_args(
        config.identity@,
        opt_view(config.entitlements),
        opt_view(default_entitlements),
        bundle_path@,
    ));
    args
}

/// `engine/signing/entitlements.plist` below the engine directory.
pub fn default_entitlements_path(engine_dir: &str) -> (p: String)
    ensures
        p@ == join(join(engine_dir@, "signing"@), "entitlements.plist"@),
{
    let s = join_path(engine_dir, "signing");
    join_path(s.as_str(), "entitlements.plist")
}

/// Signing and verification run on macOS only.
pub fn run(platform: Platform) -> (r: Result<(), SignError>)
    ensures
        r is Ok <==> platform == Platform::MacOS,
        r is Err ==> r == Err::<(), SignError>(SignError::NotMacOS),
{
    if platform != Platform::MacOS {
        return Err(SignError::NotMacOS);
    }
    Ok(())
}

/// Verification needs macOS and at least one bundle found.
pub fn run_verify(platform: Platform, verified_count: usize) -> (r: Result<(), SignError>)
    ensures
        platform != Platform::MacOS ==> r == Err::<(), SignError>(SignError::NotMacOS),
        platform == Platform::MacOS && verified_count == 0 ==> r == Err::<(), SignError>(
            SignError::NoBundles,
        ),
        r is Ok <==> platform == Platform::MacOS && verified_count > 0,
{
    if platform != Platform::MacOS {
        return Err(SignError::NotMacOS);
    }
    if verified_count == 0 {
        return Err(SignError::NoBundles);
    }
    Ok(())
}

/// What is wrong with a signature.
#[derive(Debug, Clone, Copy, PartialEq, Eq, Structural)]
pub enum SignatureProblem {
    /// The signature lacks the hardened runtime flag.
    MissingHardenedRuntime,
    /// The entitlements lack the JIT entitlement the WebView needs.
    MissingJitEntitlement,
}

/// Checks the `codesign -d` report of a bundle: hardened runtime must be on,
/// and entitlements, when there are any, must allow JIT.
pub fn validate_signature_properties(info: &str, entitlements_output: &str) -> (r: Result<
    (),
    SignatureProblem,
>)
    ensures
        !has_substring(info@, "runtime"@) ==> r == Err::<(), SignatureProblem>(
            SignatureProblem::MissingHardenedRuntime,
        ),
        has_substring(info@, "runtime"@) && entitlements_output@.len() > 0 && !has_substring(
            entitlements_output@,
            "com.apple.security.cs.allow-jit"@,
        ) ==> r == Err::<(), SignatureProblem>(SignatureProblem::MissingJitEntitlement),
        r is Ok <==> has_substring(info@, "runtime"@) && (entitlements_output@.len() == 0
            || has_substring(entitlements_output@, "com.apple.security.cs.allow-jit"@)),
{
    if !contains_str(info, "runtime") {
        return Err(SignatureProblem::MissingHardenedRuntime);
    }
    if !entitlements_output.is_empty() && !contains_str(
        entitlements_output,
        "com.apple.security.cs.allow-jit",
    ) {
        return Err(SignatureProblem::MissingJitEntitlement);
    }
    Ok(())
}

/// User-friendly error messages for common signing issues.
pub fn diagnose_signing_error(code: i32) -> (m: &'static str)
    ensures
        m@ == (if code == 1 {
            "Invalid identity or certificate not found. Run 'security find-identity -v -p codesigning' to list available identities."@
        } else if code == 3 {
            "Bundle is malformed or has invalid structure."@
        } else {
            "Unknown error. Run with --verbose for details."@
        }),
{
    if code == 1 {
        "Invalid identity or certificate not found. Run 'security find-identity -v -p codesigning' to list available identities."
    } else if code == 3 {
        "Bundle is malformed or has invalid structure."
    } else {
        "Unknown error. Run with --verbose for details."
    }
}

} // verus!
