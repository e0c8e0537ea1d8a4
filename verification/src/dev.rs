//! Decisions of the development server's preflight: when build artifacts
//! and parameter caches are stale.

use vstd::prelude::*;

use crate::paths::{join, join_path, parent, parent_path};

verus! {

/// Why an artifact is or is not refreshed.
#[derive(Debug, Clone, Copy, PartialEq, Eq, Structural)]
pub enum RefreshReason {
    MissingArtifact,
    InputsNewer,
    UpToDate,
    NoInputs,
}

/// Whether an artifact must be rebuilt, from the latest modification time of
/// its inputs and of its outputs (nanoseconds since the Unix epoch; `None`
/// when there are none).
pub open spec fn refresh_reason(inputs_latest: Option<u128>, outputs_latest: Option<u128>) -> RefreshReason {
    match (inputs_latest, outputs_latest) {
        (_, None) => RefreshReason::MissingArtifact,
        (None, Some(_)) => RefreshReason::NoInputs,
        (Some(input), Some(output)) => if input > output {
            RefreshReason::InputsNewer
        } else {
            RefreshReason::UpToDate
        },
    }
}

/// Decides whether an artifact must be rebuilt.
pub fn decide_refresh(inputs_latest: Option<u128>, outputs_latest: Option<u128>) -> (r: RefreshReason)
    ensures
        r == refresh_reason(inputs_latest, outputs_latest),
{
    match (inputs_latest, outputs_latest) {
        (_, None) => RefreshReason::MissingArtifact,
        (None, Some(_)) => RefreshReason::NoInputs,
        (Some(input), Some(output)) => if input > output {
            RefreshReason::InputsNewer
        } else {
            RefreshReason::UpToDate
        },
    }
}

/// The earlier of two times; `None` when either is missing.
pub fn min_time(a: Option<u128>, b: Option<u128>) -> (r: Option<u128>)
    ensures
        r == (match (a, b) {
            (Some(x), Some(y)) => Some(if x <= y {
                x
            } else {
                y
            }),
            _ => None,
        }),
{
    match (a, b) {
        (Some(x), Some(y)) => Some(if x <= y {
            x
        } else {
            y
        }),
        _ => None,
    }
}

/// The later of two times; a missing time is ignored.
pub fn max_time(a: Option<u128>, b: Option<u128>) -> (r: Option<u128>)
    ensures
        r == (match (a, b) {
            (Some(x), Some(y)) => Some(if x >= y {
                x
            } else {
                y
            }),
            (Some(x), None) => Some(x),
            (None, Some(y)) => Some(y),
            (None, None) => None,
        }),
{
    match (a, b) {
        (Some(x), Some(y)) => Some(if x >= y {
            x
        } else {
            y
        }),
        (Some(x), None) => Some(x),
        (None, Some(y)) => Some(y),
        (None, None) => None,
    }
}

/// The latest of a list of times, missing ones ignored.
pub open spec fn latest_of(ts: Seq<Option<u128>>) -> Option<u128>
    decreases ts.len(),
{
    if ts.len() == 0 {
        None
    } else {
        match (latest_of(ts.drop_last()), ts.last()) {
            (Some(x), Some(y)) => Some(if x >= y {
                x
            } else {
                y
            }),
            (Some(x), None) => Some(x),
            (None, Some(y)) => Some(y),
            (None, None) => None,
        }
    }
}

/// The latest of a list of modification times.
pub fn latest_time(times: &[Option<u128>]) -> (r: Option<u128>)
    ensures
        r == latest_of(times@),
{
    let mut latest: Option<u128> = None;
    let mut i: usize = 0;
    while i < times.len()
        invariant
            i <= times@.len(),
            latest == latest_of(times@.take(i as int)),
        decreases times@.len() - i,
    {
        assert(times@.take(i + 1).drop_last() =~= times@.take(i as int));
        latest = max_time(latest, times[i]);
        i += 1;
    }
    assert(times@.take(times@.len() as int) =~= times@);
    latest
}

/// Directory names that a modification-time scan never enters.
pub open spec fn skipped_dir_name(name: Seq<char>) -> bool {
    name == "target"@ || name == "node_modules"@ || name == "dist"@ || name == ".git"@ || name
        == ".idea"@ || name == ".vscode"@
}

/// Whether a modification-time scan skips a directory, by its name.
pub fn should_skip_dir(name: &str) -> (r: bool)
    ensures
        r == skipped_dir_name(name@),
{
    crate::text::str_eq(name, "target") || crate::text::str_eq(name, "node_modules")
        || crate::text::str_eq(name, "dist") || crate::text::str_eq(name, ".git")
        || crate::text::str_eq(name, ".idea") || crate::text::str_eq(name, ".vscode")
}

/// The outcome of one preflight step.
#[derive(Debug, Clone, PartialEq, Eq)]
pub struct PreflightResult {
    pub refreshed: bool,
    pub detail: String,
}

impl PreflightResult {
    /// A step that refreshed something.
    pub fn refreshed(detail: &str) -> (r: Self)
        ensures
            r.refreshed,
            r.detail@ == detail@,
    {
        PreflightResult { refreshed: true, detail: detail.to_string() }
    }

    /// A step that left everything as it was.
    pub fn skipped(detail: &str) -> (r: Self)
        ensures
            !r.refreshed,
            r.detail@ == detail@,
    {
        PreflightResult { refreshed: false, detail: detail.to_string() }
    }
}

/// What the UI package preflight does for a refresh decision: whether to run
/// `npm run build:lib`, and the result to report once it has.
pub fn ui_refresh_step(reason: RefreshReason) -> (r: (bool, PreflightResult))
    ensures
        r.0 == (reason == RefreshReason::MissingArtifact || reason == RefreshReason::InputsNewer),
        r.1.refreshed == r.0,
        r.1.detail@ == (match reason {
            RefreshReason::MissingArtifact => "at least one package dist artifact is missing"@,
            RefreshReason::InputsNewer => "ui package sources changed since last build"@,
            RefreshReason::UpToDate => "up-to-date"@,
            RefreshReason::NoInputs => "no package source inputs found"@,
        }),
{
    match reason {
        RefreshReason::MissingArtifact => (
            true,
            PreflightResult::refreshed("at least one package dist artifact is missing"),
        ),
        RefreshReason::InputsNewer => (
            true,
            PreflightResult::refreshed("ui package sources changed since last build"),
        ),
        RefreshReason::UpToDate => (false, PreflightResult::skipped("up-to-date")),
        RefreshReason::NoInputs => (false, PreflightResult::skipped("no package source inputs found")),
    }
}

/// `dir/target/debug/file`.
pub open spec fn debug_cache(dir: Seq<char>, file_name: Seq<char>) -> Seq<char> {
    join(join(join(dir, "target"@), "debug"@), file_name)
}

fn debug_cache_exec(dir: &str, file_name: &str) -> (r: String)
    ensures
        r@ == debug_cache(dir@, file_name@),
{
    let t = join_path(dir, "target");
    let d = join_path(t.as_str(), "debug");
    join_path(d.as_str(), file_name)
}

/// Where a sidecar cache may lie: the debug target directory of the engine,
/// of its parent and of its grandparent, as far as those exist.
pub open spec fn sidecar_candidates(engine_dir: Seq<char>, file_name: Seq<char>) -> Seq<Seq<char>> {
    let own = seq![debug_cache(engine_dir, file_name)];
    match parent(engine_dir) {
        None => own,
        Some(p) => match parent(p) {
            None => own.push(debug_cache(p, file_name)),
            Some(g) => own.push(debug_cache(p, file_name)).push(debug_cache(g, file_name)),
        },
    }
}

/// The candidate locations of a sidecar cache file.
pub fn sidecar_cache_candidates(engine_dir: &str, file_name: &str) -> (caches: Vec<String>)
    ensures
        caches@.map_values(|s: String| s@) == sidecar_candidates(engine_dir@, file_name@),
{
    let mut caches: Vec<String> = Vec::new();
    caches.push(debug_cache_exec(engine_dir, file_name));
    match parent_path(engine_dir) {
        None => {},
        Some(p) => {
            caches.push(debug_cache_exec(p.as_str(), file_name));
            match parent_path(p.as_str()) {
                None => {},
                Some(g) => {
                    caches.push(debug_cache_exec(g.as_str(), file_name));
                },
            }
        },
    }
    assert(caches@.map_values(|s: String| s@) =~= sidecar_candidates(engine_dir@, file_name@));
    caches
}

/// The indices of the sidecar caches older than their dependencies.
pub open spec fn stale_indices(deps_latest: Option<u128>, sidecars: Seq<Option<u128>>, n: int) -> Seq<usize>
    decreases n,
{
    if n <= 0 {
        seq![]
    } else {
        let prev = stale_indices(deps_latest, sidecars, n - 1);
        if refresh_reason(deps_latest, sidecars[n - 1]) == RefreshReason::InputsNewer {
            prev.push((n - 1) as usize)
        } else {
            prev
        }
    }
}

/// Which sidecar caches are stale: those whose dependencies changed after
/// them.
pub fn stale_sidecars(deps_latest: Option<u128>, sidecar_mtimes: &[Option<u128>]) -> (stale: Vec<usize>)
    ensures
        stale@ == stale_indices(deps_latest, sidecar_mtimes@, sidecar_mtimes@.len() as int),
{
    let mut stale: Vec<usize> = Vec::new();
    let mut i: usize = 0;
    while i < sidecar_mtimes.len()
        invariant
            i <= sidecar_mtimes@.len(),
            stale@ == stale_indices(deps_latest, sidecar_mtimes@, i as int),
        decreases sidecar_mtimes@.len() - i,
    {
        match decide_refresh(deps_latest, sidecar_mtimes[i]) {
            RefreshReason::InputsNewer => {
                stale.push(i);
            },
            _ => {},
        }
        i += 1;
    }
    stale
}

/// The result of the cache preflight once `removed` stale caches were
/// deleted.
pub fn cache_refresh_result(removed: usize) -> (r: PreflightResult)
    ensures
        removed == 0 ==> !r.refreshed && r.detail@ == "up-to-date"@,
        removed > 0 ==> r.refreshed && r.detail@ == "invalidated "@ + crate::text::decimal(
            removed as nat,
        ) + " stale sidecar cache file(s)"@,
{
    if removed == 0 {
        return PreflightResult::skipped("up-to-date");
    }
    let mut detail = String::new();
    crate::text::push_str(&mut detail, "invalidated ");
    crate::text::push_decimal(&mut detail, removed as u64);
    crate::text::push_str(&mut detail, " stale sidecar cache file(s)");
    PreflightResult { refreshed: true, detail }
}

/// A path made by joining each part in turn onto `base`.
pub open spec fn join_all(base: Seq<char>, parts: Seq<Seq<char>>) -> Seq<char>
    decreases parts.len(),
{
    if parts.len() == 0 {
        base
    } else {
        join_all(join(base, parts[0]), parts.drop_first())
    }
}

/// The plain text of a list of path parts.
pub open spec fn parts_view(parts: Seq<&str>) -> Seq<Seq<char>> {
    parts.map_values(|p: &str| p@)
}

/// Joins each part in turn onto `base`.
pub fn join_parts(base: &str, parts: &[&str]) -> (r: String)
    ensures
        r@ == join_all(base@, parts_view(parts@)),
{
    let mut acc = String::new();
    crate::text::push_str(&mut acc, base);
    assert(acc@ =~= base@);
    assert(parts_view(parts@).subrange(0, parts@.len() as int) =~= parts_view(parts@));
    let mut i: usize = 0;
    while i < parts.len()
        invariant
            i <= parts@.len(),
            join_all(base@, parts_view(parts@)) == join_all(acc@, parts_view(parts@).subrange(
                i as int,
                parts@.len() as int,
            )),
        decreases parts@.len() - i,
    {
        let ghost rest = parts_view(parts@).subrange(i as int, parts@.len() as int);
        assert(rest[0] == parts@[i as int]@);
        assert(rest.drop_first() =~= parts_view(parts@).subrange(i + 1, parts@.len() as int));
        acc = join_path(acc.as_str(), parts[i]);
        i += 1;
    }
    assert(parts_view(parts@).subrange(parts@.len() as int, parts@.len() as int) =~= Seq::<Seq<char>>::empty());
    acc
}

/// The inputs of the SDK template's parameter sidecar caches, under the
/// project root: the template engine's manifest, build script and sources,
/// the protocol, bridge and macros crates' sources, and the CLI files that
/// extract parameters and generate the TypeScript types.
pub open spec fn cache_dependencies(root: Seq<char>) -> Seq<Seq<char>> {
    seq![
        join_all(root, seq!["sdk-template"@, "engine"@, "Cargo.toml"@]),
        join_all(root, seq!["sdk-template"@, "engine"@, "build.rs"@]),
        join_all(root, seq!["sdk-template"@, "engine"@, "src"@]),
        join_all(root, seq!["engine"@, "crates"@, "wavecraft-protocol"@, "src"@]),
        join_all(root, seq!["engine"@, "crates"@, "wavecraft-bridge"@, "src"@]),
        join_all(root, seq!["engine"@, "crates"@, "wavecraft-macros"@, "src"@]),
        join_all(root, seq!["cli"@, "Cargo.toml"@]),
        join_all(root, seq!["cli"@, "src"@, "commands"@, "start.rs"@]),
        join_all(root, seq!["cli"@, "src"@, "commands"@, "extract_params.rs"@]),
        join_all(root, seq!["cli"@, "src"@, "project"@, "detection.rs"@]),
        join_all(root, seq!["cli"@, "src"@, "project"@, "dylib.rs"@]),
        join_all(root, seq!["cli"@, "src"@, "project"@, "param_extract.rs"@]),
        join_all(root, seq!["cli"@, "src"@, "project"@, "ts_codegen.rs"@]),
    ]
}

fn push_joined(out: &mut Vec<String>, base: &str, parts: &[&str])
    ensures
        final(out)@.len() == old(out)@.len() + 1,
        forall|i: int| 0 <= i < old(out)@.len() ==> final(out)@[i] == old(out)@[i],
        final(out)@[old(out)@.len() as int]@ == join_all(base@, parts_view(parts@)),
{
    out.push(join_parts(base, parts));
}

/// The paths whose latest change the sidecar caches must not predate.
pub fn cache_dependency_paths(project_root: &str) -> (paths: Vec<String>)
    ensures
        paths@.map_values(|p: String| p@) == cache_dependencies(project_root@),
{
    let mut v: Vec<String> = Vec::new();
    let a: [&str; 3] = ["sdk-template", "engine", "Cargo.toml"];
    let b: [&str; 3] = ["sdk-template", "engine", "build.rs"];
    let c: [&str; 3] = ["sdk-template", "engine", "src"];
    let d: [&str; 4] = ["engine", "crates", "wavecraft-protocol", "src"];
    let e: [&str; 4] = ["engine", "crates", "wavecraft-bridge", "src"];
    let f: [&str; 4] = ["engine", "crates", "wavecraft-macros", "src"];
    let g: [&str; 2] = ["cli", "Cargo.toml"];
    let h: [&str; 4] = ["cli", "src", "commands", "start.rs"];
    let i: [&str; 4] = ["cli", "src", "commands", "extract_params.rs"];
    let j: [&str; 4] = ["cli", "src", "project", "detection.rs"];
    let k: [&str; 4] = ["cli", "src", "project", "dylib.rs"];
    let l: [&str; 4] = ["cli", "src", "project", "param_extract.rs"];
    let m: [&str; 4] = ["cli", "src", "project", "ts_codegen.rs"];
    push_joined(&mut v, project_root, a.as_slice());
    push_joined(&mut v, project_root, b.as_slice());
    push_joined(&mut v, project_root, c.as_slice());
    push_joined(&mut v, project_root, d.as_slice());
    push_joined(&mut v, project_root, e.as_slice());
    push_joined(&mut v, project_root, f.as_slice());
    push_joined(&mut v, project_root, g.as_slice());
    push_joined(&mut v, project_root, h.as_slice());
    push_joined(&mut v, project_root, i.as_slice());
    push_joined(&mut v, project_root, j.as_slice());
    push_joined(&mut v, project_root, k.as_slice());
    push_joined(&mut v, project_root, l.as_slice());
    push_joined(&mut v, project_root, m.as_slice());
    assert(parts_view(a@) =~= seq!["sdk-template"@, "engine"@, "Cargo.toml"@]);
    assert(parts_view(b@) =~= seq!["sdk-template"@, "engine"@, "build.rs"@]);
    assert(parts_view(c@) =~= seq!["sdk-template"@, "engine"@, "src"@]);
    assert(parts_view(d@) =~= seq!["engine"@, "crates"@, "wavecraft-protocol"@, "src"@]);
    assert(parts_view(e@) =~= seq!["engine"@, "crates"@, "wavecraft-bridge"@, "src"@]);
    assert(parts_view(f@) =~= seq!["engine"@, "crates"@, "wavecraft-macros"@, "src"@]);
    assert(parts_view(g@) =~= seq!["cli"@, "Cargo.toml"@]);
    assert(parts_view(h@) =~= seq!["cli"@, "src"@, "commands"@, "start.rs"@]);
    assert(parts_view(i@) =~= seq!["cli"@, "src"@, "commands"@, "extract_params.rs"@]);
    assert(parts_view(j@) =~= seq!["cli"@, "src"@, "project"@, "detection.rs"@]);
    assert(parts_view(k@) =~= seq!["cli"@, "src"@, "project"@, "dylib.rs"@]);
    assert(parts_view(l@) =~= seq!["cli"@, "src"@, "project"@, "param_extract.rs"@]);
    assert(parts_view(m@) =~= seq!["cli"@, "src"@, "project"@, "ts_codegen.rs"@]);
    assert(v@.map_values(|p: String| p@) =~= cache_dependencies(project_root@));
    v
}

/// The generated TypeScript types that go with removed sidecar caches:
/// none when no cache was stale, else the template UI's generated
/// `parameters.ts` and `processors.ts`.
pub open spec fn stale_generated_types(sdk_ui_dir: Seq<char>, removed: nat) -> Seq<Seq<char>> {
    if removed == 0 {
        seq![]
    } else {
        seq![
            join_all(sdk_ui_dir, seq!["src"@, "generated"@, "parameters.ts"@]),
            join_all(sdk_ui_dir, seq!["src"@, "generated"@, "processors.ts"@]),
        ]
    }
}

/// The generated TypeScript files to remove (those that exist) after
/// `removed` stale sidecar caches were removed.
pub fn generated_types_to_remove(sdk_ui_dir: &str, removed: usize) -> (paths: Vec<String>)
    ensures
        paths@.map_values(|p: String| p@) == stale_generated_types(sdk_ui_dir@, removed as nat),
{
    let mut v: Vec<String> = Vec::new();
    if removed > 0 {
        let a: [&str; 3] = ["src", "generated", "parameters.ts"];
        let b: [&str; 3] = ["src", "generated", "processors.ts"];
        push_joined(&mut v, sdk_ui_dir, a.as_slice());
        push_joined(&mut v, sdk_ui_dir, b.as_slice());
        assert(parts_view(a@) =~= seq!["src"@, "generated"@, "parameters.ts"@]);
        assert(parts_view(b@) =~= seq!["src"@, "generated"@, "processors.ts"@]);
    }
    assert(v@.map_values(|p: String| p@) =~= stale_generated_types(sdk_ui_dir@, removed as nat));
    v
}

/// The inputs of the UI package artifacts, under the UI workspace: its
/// manifest, and each package's manifest, library build config and
/// sources.
pub open spec fn ui_package_inputs(ui: Seq<char>) -> Seq<Seq<char>> {
    seq![
        join_all(ui, seq!["package.json"@]),
        join_all(ui, seq!["packages"@, "core"@, "package.json"@]),
        join_all(ui, seq!["packages"@, "core"@, "vite.lib.config.ts"@]),
        join_all(ui, seq!["packages"@, "core"@, "src"@]),
        join_all(ui, seq!["packages"@, "components"@, "package.json"@]),
        join_all(ui, seq!["packages"@, "components"@, "vite.lib.config.ts"@]),
        join_all(ui, seq!["packages"@, "components"@, "src"@]),
    ]
}

/// The paths whose latest change the UI package artifacts must not predate.
pub fn ui_package_input_paths(ui_dir: &str) -> (paths: Vec<String>)
    ensures
        paths@.map_values(|p: String| p@) == ui_package_inputs(ui_dir@),
{
    let mut v: Vec<String> = Vec::new();
    let a: [&str; 1] = ["package.json"];
    let b: [&str; 3] = ["packages", "core", "package.json"];
    let c: [&str; 3] = ["packages", "core", "vite.lib.config.ts"];
    let d: [&str; 3] = ["packages", "core", "src"];
    let e: [&str; 3] = ["packages", "components", "package.json"];
    let f: [&str; 3] = ["packages", "components", "vite.lib.config.ts"];
    let g: [&str; 3] = ["packages", "components", "src"];
    push_joined(&mut v, ui_dir, a.as_slice());
    push_joined(&mut v, ui_dir, b.as_slice());
    push_joined(&mut v, ui_dir, c.as_slice());
    push_joined(&mut v, ui_dir, d.as_slice());
    push_joined(&mut v, ui_dir, e.as_slice());
    push_joined(&mut v, ui_dir, f.as_slice());
    push_joined(&mut v, ui_dir, g.as_slice());
    assert(parts_view(a@) =~= seq!["package.json"@]);
    assert(parts_view(b@) =~= seq!["packages"@, "core"@, "package.json"@]);
    assert(parts_view(c@) =~= seq!["packages"@, "core"@, "vite.lib.config.ts"@]);
    assert(parts_view(d@) =~= seq!["packages"@, "core"@, "src"@]);
    assert(parts_view(e@) =~= seq!["packages"@, "components"@, "package.json"@]);
    assert(parts_view(f@) =~= seq!["packages"@, "components"@, "vite.lib.config.ts"@]);
    assert(parts_view(g@) =~= seq!["packages"@, "components"@, "src"@]);
    assert(v@.map_values(|p: String| p@) =~= ui_package_inputs(ui_dir@));
    v
}

} // verus!
