//! Decisions of the bundle command: which plugin crate to bundle and the
//! arguments of the build and of the bundler.

use vstd::prelude::*;

use crate::build_mode::{BuildMode, PLUGIN_NAME};
use crate::ordering::{sort_by_key, sorted_by_key};
use crate::text::push_str;
use crate::toml_doc::{
    key_path,
    opt_text,
    toml_array_at,
    toml_array_at_path,
    toml_bool_at,
    toml_bool_at_path,
    toml_document_parses,
    toml_parse_error,
    toml_string_at,
    toml_string_at_path,
};

verus! {

/// What a crate manifest under `engine/crates/` says about bundling.
#[derive(Debug, Clone)]
pub struct CrateManifestInfo {
    /// `package.name`, when it is a string.
    pub name: Option<String>,
    /// The string entries of `lib.crate-type`, when that is an array.
    pub crate_types: Option<Vec<String>>,
    /// `package.publish`, when it is a boolean.
    pub publish: Option<bool>,
}

/// The string entries of a list, in order.
pub open spec fn present_strings(v: Seq<Option<Seq<char>>>) -> Seq<Seq<char>>
    decreases v.len(),
{
    if v.len() == 0 {
        seq![]
    } else {
        let prev = present_strings(v.drop_last());
        match v.last() {
            Some(t) => prev.push(t),
            None => prev,
        }
    }
}

fn keep_strings(v: Vec<Option<String>>) -> (out: Vec<String>)
    ensures
        out@.map_values(|s: String| s@) == present_strings(crate::toml_doc::opt_texts(v@)),
{
    let ghost ov = crate::toml_doc::opt_texts(v@);
    let mut out: Vec<String> = Vec::new();
    let mut i: usize = 0;
    let n = v.len();
    let mut rest = v;
    let ghost orig = rest@;
    while i < n
        invariant
            n == orig.len(),
            i <= n,
            ov == crate::toml_doc::opt_texts(orig),
            rest@ == orig.subrange(i as int, n as int),
            out@.map_values(|s: String| s@) == present_strings(ov.take(i as int)),
        decreases n - i,
    {
        let item = rest.remove(0);
        assert(item == orig[i as int]);
        assert(ov.take(i + 1).drop_last() =~= ov.take(i as int));
        assert(ov.take(i + 1).last() == opt_text(item));
        let ghost before = out@;
        match item {
            Some(t) => {
                out.push(t);
                assert(out@.map_values(|s: String| s@) =~= before.map_values(|s: String| s@).push(t@));
            },
            None => {},
        }
        i += 1;
        assert(rest@ =~= orig.subrange(i as int, n as int));
    }
    assert(ov.take(n as int) =~= ov);
    out
}

/// What a crate manifest's text says about bundling: its `package.name`,
/// the string entries of its `lib.crate-type` and its `package.publish`;
/// `None` when the text is not TOML.
pub fn crate_manifest_info(text: &str) -> (r: Option<CrateManifestInfo>)
    ensures
        r is Some <==> toml_document_parses(text@),
        r matches Some(m) ==> {
            &&& opt_text(m.name) == toml_string_at_path(text@, seq!["package"@, "name"@])
            &&& m.publish == toml_bool_at_path(text@, seq!["package"@, "publish"@])
            &&& match toml_array_at_path(text@, seq!["lib"@, "crate-type"@]) {
                Some(entries) => m.crate_types matches Some(types) && types@.map_values(
                    |s: String| s@,
                ) == present_strings(entries),
                None => m.crate_types is None,
            }
        },
{
    if toml_parse_error(text).is_some() {
        return None;
    }
    let name_keys: [&str; 2] = ["package", "name"];
    let publish_keys: [&str; 2] = ["package", "publish"];
    let type_keys: [&str; 2] = ["lib", "crate-type"];
    assert(key_path(name_keys@) =~= seq!["package"@, "name"@]);
    assert(key_path(publish_keys@) =~= seq!["package"@, "publish"@]);
    assert(key_path(type_keys@) =~= seq!["lib"@, "crate-type"@]);
    let name = toml_string_at(text, name_keys.as_slice());
    let publish = toml_bool_at(text, publish_keys.as_slice());
    let crate_types = match toml_array_at(text, type_keys.as_slice()) {
        Some(v) => Some(keep_strings(v)),
        None => None,
    };
    Some(CrateManifestInfo { name, crate_types, publish })
}

/// A crate can be bundled when its library builds a `cdylib` and it is not
/// marked unpublishable.
pub open spec fn bundleable(m: CrateManifestInfo) -> bool {
    &&& m.crate_types matches Some(types) && exists|i: int|
        0 <= i < types@.len() && (#[trigger] types@[i])@ == "cdylib"@
    &&& m.publish != Some(false)
}

fn has_cdylib(types: &Vec<String>) -> (r: bool)
    ensures
        r == exists|i: int| 0 <= i < types@.len() && (#[trigger] types@[i])@ == "cdylib"@,
{
    let mut i: usize = 0;
    while i < types.len()
        invariant
            i <= types@.len(),
            forall|k: int| 0 <= k < i ==> (#[trigger] types@[k])@ != "cdylib"@,
        decreases types@.len() - i,
    {
        if crate::text::str_eq(types[i].as_str(), "cdylib") {
            return true;
        }
        i += 1;
    }
    false
}

/// The names of the bundleable crates among the first `n` manifests.
pub open spec fn bundleable_names(ms: Seq<CrateManifestInfo>, n: int) -> Seq<Seq<char>>
    decreases n,
{
    if n <= 0 {
        seq![]
    } else {
        let prev = bundleable_names(ms, n - 1);
        let m = ms[n - 1];
        if bundleable(m) && m.name is Some {
            prev.push(m.name.unwrap()@)
        } else {
            prev
        }
    }
}

/// The bundleable packages of the engine workspace, sorted by name.
pub fn discover_bundleable_packages(manifests: Vec<CrateManifestInfo>) -> (names: Vec<String>)
    ensures
        names@.map_values(|s: String| s@).to_multiset() == bundleable_names(
            manifests@,
            manifests@.len() as int,
        ).to_multiset(),
        sorted_by_key(names@),
{
    broadcast use vstd::seq_lib::group_to_multiset_ensures;

    let ghost ms = manifests@;
    let mut found: Vec<String> = Vec::new();
    let mut i: usize = 0;
    while i < manifests.len()
        invariant
            i <= manifests@.len(),
            ms == manifests@,
            found@.map_values(|s: String| s@) == bundleable_names(ms, i as int),
        decreases manifests@.len() - i,
    {
        let m = &manifests[i];
        let ok = match &m.crate_types {
            Some(types) => has_cdylib(types),
            None => false,
        } && !matches!(m.publish, Some(false));
        if ok {
            match &m.name {
                Some(name) => {
                    found.push(name.clone());
                    assert(found@.map_values(|s: String| s@) =~= bundleable_names(ms, i + 1));
                },
                None => {},
            }
        }
        i += 1;
    }
    let sorted = sort_by_key(found);
    proof {
        lemma_map_view_multiset(found@, sorted@);
    }
    sorted
}

/// Two sequences with the same multiset have views with the same multiset.
proof fn lemma_map_view_multiset(a: Seq<String>, b: Seq<String>)
    requires
        a.to_multiset() == b.to_multiset(),
    ensures
        a.map_values(|s: String| s@).to_multiset() == b.map_values(|s: String| s@).to_multiset(),
    decreases a.len(),
{
    broadcast use vstd::seq_lib::group_to_multiset_ensures;

    if a.len() == 0 {
        assert(b.to_multiset().len() == 0);
        assert(b.len() == 0);
        assert(a.map_values(|s: String| s@) =~= Seq::<Seq<char>>::empty());
        assert(b.map_values(|s: String| s@) =~= Seq::<Seq<char>>::empty());
    } else {
        let x = a.last();
        assert(b.to_multiset().count(x) > 0);
        assert(b.contains(x));
        let k = choose|k: int| 0 <= k < b.len() && b[k] == x;
        let a2 = a.drop_last();
        let b2 = b.remove(k);
        assert(a =~= a2.push(x));
        vstd::seq_lib::to_multiset_build(a2, x);
        vstd::seq_lib::to_multiset_remove(b, k);
        assert(a2.to_multiset() =~= b2.to_multiset());
        lemma_map_view_multiset(a2, b2);
        let f = |s: String| s@;
        assert(a.map_values(f) =~= a2.map_values(f).push(x@));
        vstd::seq_lib::to_multiset_build(a2.map_values(f), x@);
        assert(b.map_values(f) =~= b2.map_values(f).insert(k, x@));
        vstd::seq_lib::to_multiset_insert(b2.map_values(f), k, x@);
    }
}

/// Why no package could be chosen.
#[derive(Debug, Clone, PartialEq, Eq)]
pub enum BundleError {
    /// The workspace holds no bundleable crate.
    NoBundleablePackage,
    /// More than one crate could be bundled; the names are listed.
    MultipleBundleablePackages(Vec<String>),
}

/// The package to bundle: the requested one, else the only bundleable
/// crate of the workspace.
pub fn resolve_bundle_package(requested_package: Option<&str>, bundleable_packages: &[String]) -> (r:
    Result<String, BundleError>)
    ensures
        requested_package matches Some(p) ==> (r matches Ok(name) && name@ == p@),
        requested_package is None && bundleable_packages@.len() == 0 ==> (r matches Err(
            BundleError::NoBundleablePackage,
        )),
        requested_package is None && bundleable_packages@.len() > 1 ==> (r matches Err(
            BundleError::MultipleBundleablePackages(names),
        ) && names@.map_values(|s: String| s@) == bundleable_packages@.map_values(
            |s: String| s@,
        )),
        requested_package is None && bundleable_packages@.len() == 1 ==> (r matches Ok(name)
            && name@ == bundleable_packages@[0]@),
{
    if let Some(package) = requested_package {
        return Ok(package.to_string());
    }
    if bundleable_packages.len() == 0 {
        return Err(BundleError::NoBundleablePackage);
    }
    if bundleable_packages.len() > 1 {
        let mut names: Vec<String> = Vec::new();
        let mut i: usize = 0;
        while i < bundleable_packages.len()
            invariant
                i <= bundleable_packages@.len(),
                names@.map_values(|s: String| s@) == bundleable_packages@.take(i as int).map_values(
                    |s: String| s@,
                ),
            decreases bundleable_packages@.len() - i,
        {
            let ghost before = names@;
            names.push(bundleable_packages[i].clone());
            assert(names@ == before.push(bundleable_packages@[i as int]));
            assert(bundleable_packages@.take(i + 1) =~= bundleable_packages@.take(i as int).push(
                bundleable_packages@[i as int],
            ));
            assert(names@.map_values(|s: String| s@) =~= before.map_values(|s: String| s@).push(
                bundleable_packages@[i as int]@,
            ));
            assert(bundleable_packages@.take(i + 1).map_values(|s: String| s@) =~= bundleable_packages@.take(i as int).map_values(|s: String| s@).push(
                bundleable_packages@[i as int]@,
            ));
            i += 1;
        }
        assert(bundleable_packages@.take(bundleable_packages@.len() as int) =~= bundleable_packages@);
        return Err(BundleError::MultipleBundleablePackages(names));
    }
    Ok(bundleable_packages[0].clone())
}

/// The features joined with commas.
pub open spec fn joined(features: Seq<Seq<char>>) -> Seq<char>
    decreases features.len(),
{
    if features.len() == 0 {
        seq![]
    } else if features.len() == 1 {
        features[0]
    } else {
        joined(features.drop_last()) + ","@ + features.last()
    }
}

/// Joins features with commas.
pub fn join_features(features: &[&str]) -> (s: String)
    ensures
        s@ == joined(features@.map_values(|f: &str| f@)),
{
    let ghost fs = features@.map_values(|f: &str| f@);
    let mut s = String::new();
    let mut i: usize = 0;
    while i < features.len()
        invariant
            i <= features@.len(),
            fs == features@.map_values(|f: &str| f@),
            s@ == joined(fs.take(i as int)),
        decreases features@.len() - i,
    {
        assert(fs.take(i + 1).drop_last() =~= fs.take(i as int));
        if i > 0 {
            push_str(&mut s, ",");
        }
        push_str(&mut s, features[i]);
        i += 1;
    }
    assert(fs.take(features@.len() as int) =~= fs);
    s
}

/// The arguments of `cargo` that build the package.
pub open spec fn build_args(package: Seq<char>, mode: BuildMode, features: Seq<Seq<char>>) -> Seq<
    Seq<char>,
> {
    let base = seq!["build"@, "-p"@, package];
    let with_mode = match mode.spec_cargo_flag() {
        Some(flag) => base.push(flag),
        None => base,
    };
    if features.len() == 0 {
        with_mode
    } else {
        with_mode.push("--features"@).push(joined(features))
    }
}

/// The arguments handed to the plugin bundler.
pub open spec fn bundler_args(package: Seq<char>, mode: BuildMode, features: Seq<Seq<char>>) -> Seq<
    Seq<char>,
> {
    let base = seq!["bundle"@, package];
    let with_mode = match mode.spec_cargo_flag() {
        Some(flag) => base.push(flag),
        None => base,
    };
    if features.len() == 0 {
        with_mode
    } else {
        with_mode.push("--features"@).push(joined(features))
    }
}

fn args_with_mode_and_features(first: &str, package: &str, mode: BuildMode, features: &[&str]) -> (args:
    Vec<String>)
    ensures
        first@ == "build"@ ==> args@.map_values(|s: String| s@) == build_args(
            package@,
            mode,
            features@.map_values(|f: &str| f@),
        ),
        first@ == "bundle"@ ==> args@.map_values(|s: String| s@) == bundler_args(
            package@,
            mode,
            features@.map_values(|f: &str| f@),
        ),
{
    proof {
        reveal_strlit("build");
        reveal_strlit("bundle");
    }
    let ghost fs = features@.map_values(|f: &str| f@);
    let is_build = crate::text::str_eq(first, "build");
    let mut args: Vec<String> = Vec::new();
    args.push(first.to_string());
    if is_build {
        args.push("-p".to_string());
    }
    args.push(package.to_string());
    let ghost base = args@.map_values(|s: String| s@);
    assert(is_build ==> base =~= seq!["build"@, "-p"@, package@]) by {
        if is_build {
            assert(first@ == "build"@);
        }
    }
    assert(first@ == "bundle"@ ==> base =~= seq!["bundle"@, package@]) by {
        if first@ == "bundle"@ {
            assert(first@.len() != "build"@.len());
        }
    }
    match mode.cargo_flag() {
        Some(flag) => args.push(flag.to_string()),
        None => {},
    }
    let ghost with_mode = args@.map_values(|s: String| s@);
    assert(with_mode =~= match mode.spec_cargo_flag() {
        Some(flag) => base.push(flag),
        None => base,
    });
    if features.len() > 0 {
        args.push("--features".to_string());
        args.push(join_features(features));
        assert(args@.map_values(|s: String| s@) =~= with_mode.push("--features"@).push(joined(fs)));
    }
    args
}

/// What the bundle command does once its package is known.
#[derive(Debug, Clone)]
pub struct BundlePlan {
    pub package_name: String,
    pub build_args: Vec<String>,
    pub bundler_args: Vec<String>,
}

/// What the bundle command decides before it builds anything.
#[derive(Debug, Clone)]
pub enum BundleDecision {
    /// Build and bundle the package.
    Build(BundlePlan),
    /// No package was requested and none can be bundled: skip with a warning.
    Skip,
}

/// Decides what to bundle, with which features, from the requested package
/// and the bundleable crates found in the workspace.
pub fn run_with_features(
    mode: BuildMode,
    package: Option<&str>,
    features: &[&str],
    bundleable_packages: &[String],
) -> (r: Result<BundleDecision, BundleError>)
    ensures
        package is None && bundleable_packages@.len() == 0 ==> (r matches Ok(BundleDecision::Skip)),
        package is None && bundleable_packages@.len() > 1 ==> (r matches Err(
            BundleError::MultipleBundleablePackages(_),
        )),
        r matches Ok(BundleDecision::Build(plan)) ==> {
            let name = plan.package_name@;
            &&& (package matches Some(p) ==> name == p@)
            &&& (package is None ==> bundleable_packages@.len() == 1 && name
                == bundleable_packages@[0]@)
            &&& plan.build_args@.map_values(|s: String| s@) == build_args(
                name,
                mode,
                features@.map_values(|f: &str| f@),
            )
            &&& plan.bundler_args@.map_values(|s: String| s@) == bundler_args(
                name,
                mode,
                features@.map_values(|f: &str| f@),
            )
        },
        package is Some || bundleable_packages@.len() == 1 ==> (r matches Ok(BundleDecision::Build(_))),
{
    let package_name = match resolve_bundle_package(package, bundleable_packages) {
        Ok(name) => name,
        Err(BundleError::NoBundleablePackage) => {
            return Ok(BundleDecision::Skip);
        },
        Err(e) => {
            return Err(e);
        },
    };
    proof {
        reveal_strlit("build");
        reveal_strlit("bundle");
    }
    let build = args_with_mode_and_features("build", package_name.as_str(), mode, features);
    let bundler = args_with_mode_and_features("bundle", package_name.as_str(), mode, features);
    Ok(
        BundleDecision::Build(
            BundlePlan { package_name, build_args: build, bundler_args: bundler },
        ),
    )
}

/// Decides what to bundle, without extra features.
pub fn run(mode: BuildMode, package: Option<&str>, bundleable_packages: &[String]) -> (r: Result<
    BundleDecision,
    BundleError,
>)
    ensures
        package is None && bundleable_packages@.len() == 0 ==> (r matches Ok(BundleDecision::Skip)),
        package is None && bundleable_packages@.len() > 1 ==> (r matches Err(
            BundleError::MultipleBundleablePackages(_),
        )),
        r matches Ok(BundleDecision::Build(plan)) ==> {
            let name = plan.package_name@;
            &&& (package matches Some(p) ==> name == p@)
            &&& (package is None ==> bundleable_packages@.len() == 1 && name
                == bundleable_packages@[0]@)
            &&& plan.build_args@.map_values(|s: String| s@) == build_args(name, mode, seq![])
            &&& plan.bundler_args@.map_values(|s: String| s@) == bundler_args(name, mode, seq![])
        },
        package is Some || bundleable_packages@.len() == 1 ==> (r matches Ok(BundleDecision::Build(_))),
{
    let no_features: Vec<&str> = Vec::new();
    let r = run_with_features(mode, package, no_features.as_slice(), bundleable_packages);
    assert(no_features@.map_values(|f: &str| f@) =~= Seq::<Seq<char>>::empty());
    r
}

/// The bundles to look for after bundling: the plugin's own name first, the
/// package name as fallback.
pub fn bundle_candidates(package_name: &str) -> (r: (String, String, String, String))
    ensures
        r.0@ == PLUGIN_NAME@ + ".vst3"@,
        r.1@ == package_name@ + ".vst3"@,
        r.2@ == PLUGIN_NAME@ + ".clap"@,
        r.3@ == package_name@ + ".clap"@,
{
    let mut a = PLUGIN_NAME.to_string();
    push_str(&mut a, ".vst3");
    let mut b = package_name.to_string();
    push_str(&mut b, ".vst3");
    let mut c = PLUGIN_NAME.to_string();
    push_str(&mut c, ".clap");
    let mut d = package_name.to_string();
    push_str(&mut d, ".clap");
    (a, b, c, d)
}

/// The bundle reported for one format: the plugin's own bundle when it
/// exists, else the package-named one when that exists.
pub open spec fn reported_bundle(own: Seq<char>, own_exists: bool, fallback: Seq<char>, fallback_exists: bool) -> Option<
    Seq<char>,
> {
    if own_exists {
        Some(own)
    } else if fallback_exists {
        Some(fallback)
    } else {
        None
    }
}

/// The bundles found after bundling, by format.
#[derive(Debug)]
pub struct BundleOutputs {
    pub vst3: Option<String>,
    pub clap: Option<String>,
}

/// The bundles to report after bundling, given which of the candidate
/// bundles exist; `None` when no bundle was produced, which fails the
/// command.
pub fn located_bundles(
    package_name: &str,
    vst3_exists: bool,
    vst3_fallback_exists: bool,
    clap_exists: bool,
    clap_fallback_exists: bool,
) -> (r: Option<BundleOutputs>)
    ensures
        r is None <==> !(vst3_exists || vst3_fallback_exists || clap_exists || clap_fallback_exists),
        r matches Some(o) ==> {
            &&& opt_text(o.vst3) == reported_bundle(
                PLUGIN_NAME@ + ".vst3"@,
                vst3_exists,
                package_name@ + ".vst3"@,
                vst3_fallback_exists,
            )
            &&& opt_text(o.clap) == reported_bundle(
                PLUGIN_NAME@ + ".clap"@,
                clap_exists,
                package_name@ + ".clap"@,
                clap_fallback_exists,
            )
        },
{
    let (a, b, c, d) = bundle_candidates(package_name);
    let vst3 = if vst3_exists {
        Some(a)
    } else if vst3_fallback_exists {
        Some(b)
    } else {
        None
    };
    let clap = if clap_exists {
        Some(c)
    } else if clap_fallback_exists {
        Some(d)
    } else {
        None
    };
    if vst3.is_none() && clap.is_none() {
        None
    } else {
        Some(BundleOutputs { vst3, clap })
    }
}

/// Names listed with `, ` between them.
pub open spec fn comma_list(names: Seq<Seq<char>>) -> Seq<char>
    decreases names.len(),
{
    if names.len() == 0 {
        seq![]
    } else if names.len() == 1 {
        names[0]
    } else {
        comma_list(names.drop_last()) + ", "@ + names.last()
    }
}

/// The message when the workspace holds no bundleable crate.
pub open spec fn no_bundleable_text() -> Seq<char> {
    "No bundleable plugin crate found in engine workspace.\n\nExpected at least one crate under engine/crates/ with [lib] crate-type including \"cdylib\".\n\nActionable help:\n  - Add a plugin crate with crate-type = [\"cdylib\", ...]\n  - Or pass an explicit package once available: cargo xtask bundle --package <plugin-crate>\n  - For generated plugin projects, use: wavecraft bundle"@
}

/// The message of a package resolution error.
pub open spec fn bundle_error_text(e: BundleError) -> Seq<char> {
    match e {
        BundleError::NoBundleablePackage => no_bundleable_text(),
        BundleError::MultipleBundleablePackages(names) => "Multiple bundleable plugin crates detected: "@
            + comma_list(names@.map_values(|n: String| n@))
            + ".\nPlease specify one explicitly: cargo xtask bundle --package <plugin-crate>"@,
    }
}

fn comma_joined(names: &Vec<String>) -> (s: String)
    ensures
        s@ == comma_list(names@.map_values(|n: String| n@)),
{
    let ghost v = names@.map_values(|n: String| n@);
    let mut s = String::new();
    let mut i: usize = 0;
    assert(v.take(0) =~= Seq::<Seq<char>>::empty());
    while i < names.len()
        invariant
            i <= names@.len(),
            v == names@.map_values(|n: String| n@),
            s@ == comma_list(v.take(i as int)),
        decreases names@.len() - i,
    {
        assert(v.take(i + 1).drop_last() =~= v.take(i as int));
        assert(v.take(i + 1).last() == names@[i as int]@);
        if i > 0 {
            push_str(&mut s, ", ");
        } else {
            assert(s@ =~= Seq::<char>::empty());
        }
        push_str(&mut s, names[i].as_str());
        i += 1;
        if i == 1 {
            assert(s@ =~= comma_list(v.take(1)));
        }
    }
    assert(v.take(names@.len() as int) =~= v);
    s
}

/// The message of a package resolution error.
pub fn bundle_error_message(e: &BundleError) -> (s: String)
    ensures
        s@ == bundle_error_text(*e),
{
    match e {
        BundleError::NoBundleablePackage => "No bundleable plugin crate found in engine workspace.\n\nExpected at least one crate under engine/crates/ with [lib] crate-type including \"cdylib\".\n\nActionable help:\n  - Add a plugin crate with crate-type = [\"cdylib\", ...]\n  - Or pass an explicit package once available: cargo xtask bundle --package <plugin-crate>\n  - For generated plugin projects, use: wavecraft bundle".to_string(),
        BundleError::MultipleBundleablePackages(names) => {
            let mut s = "Multiple bundleable plugin crates detected: ".to_string();
            let list = comma_joined(names);
            push_str(&mut s, list.as_str());
            push_str(&mut s, ".\nPlease specify one explicitly: cargo xtask bundle --package <plugin-crate>");
            s
        },
    }
}

} // verus!
