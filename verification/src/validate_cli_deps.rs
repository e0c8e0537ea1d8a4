//! Checks on the CLI's `wavecraft-*` dependencies: each needs a version
//! (for `cargo publish`), its crate must be publishable, and, optionally,
//! crates.io must hold a version the CLI accepts.

use vstd::prelude::*;

use crate::json_codec::{json_field_string, json_string_field};
use crate::ordering::{sort_by_key, sorted_by_key, Keyed};
use crate::paths::{join, join_path};
use crate::text::{chars_of, push_str, split_chars, split_on, starts_with};
use crate::toml_doc::{
    dependency_entries,
    entries_view,
    key_path,
    opt_text,
    toml_bool_at,
    toml_bool_at_path,
    toml_dependency_table,
    toml_document_parses,
    toml_parse_error,
    toml_parse_error_message,
    TomlDependency,
    TomlDependencyView,
    TomlEntryKind,
};
use crate::version::{caret_requirement, parse_caret_requirement, semver_parsed, semver_req_matches, semver_req_parses, ParsedVersion};

verus! {

/// Configuration for the validate-cli-deps command.
#[derive(Debug, Clone)]
pub struct ValidateCliDepsConfig {
    /// Show verbose output (per-dependency details).
    pub verbose: bool,
    /// Also verify crate availability on crates.io.
    pub check_registry: bool,
}

impl Default for ValidateCliDepsConfig {
    fn default() -> (c: Self)
        ensures
            !c.verbose,
            !c.check_registry,
    {
        ValidateCliDepsConfig { verbose: false, check_registry: false }
    }
}

/// A discovered `wavecraft-*` dependency from `cli/Cargo.toml`.
#[derive(Debug, Clone)]
pub struct CliDependency {
    /// Crate name (e.g., `wavecraft-protocol`).
    pub name: String,
    /// Whether the dependency table includes a `version` key.
    pub has_version: bool,
    /// The version string, if present.
    pub version: Option<String>,
    /// The path to the crate (relative to cli/), if specified.
    pub path: Option<String>,
}

impl Keyed for CliDependency {
    open spec fn key_view(&self) -> Seq<char> {
        self.name@
    }

    fn key(&self) -> (k: &str) {
        self.name.as_str()
    }
}

/// Validation error for a single dependency.
#[derive(Debug, Clone)]
pub struct ValidationError {
    pub name: String,
    pub message: String,
}

/// Why the dependencies could not be read.
#[derive(Debug, Clone, Copy, PartialEq, Eq, Structural)]
pub enum DiscoverError {
    /// `cli/Cargo.toml` is not TOML.
    ParseFailed,
    /// It has no `[dependencies]` table.
    NoDependenciesTable,
}

/// The plain content of a dependency: name, version flag, version, path.
pub open spec fn dep_view(d: CliDependency) -> (Seq<char>, bool, Option<Seq<char>>, Option<Seq<char>>) {
    (d.name@, d.has_version, opt_view(d.version), opt_view(d.path))
}

pub open spec fn opt_view(o: Option<String>) -> Option<Seq<char>> {
    match o {
        Some(s) => Some(s@),
        None => None,
    }
}

/// What a dependency entry says: a table gives its version and path, a
/// plain string is a version, anything else has neither.
pub open spec fn entry_dep(name: Seq<char>, value: TomlDependencyView) -> (Seq<char>, bool, Option<Seq<char>>, Option<Seq<char>>) {
    match value.0 {
        TomlEntryKind::Table => (name, value.1 is Some, value.1, value.2),
        TomlEntryKind::Text => (name, true, value.1, None),
        TomlEntryKind::Other => (name, false, None, None),
    }
}

/// The `wavecraft-*` entries among the first `n`, in order.
pub open spec fn wavecraft_entries(entries: Seq<(Seq<char>, TomlDependencyView)>, n: int) -> Seq<(Seq<char>, bool, Option<Seq<char>>, Option<Seq<char>>)>
    decreases n,
{
    if n <= 0 {
        seq![]
    } else {
        let prev = wavecraft_entries(entries, n - 1);
        let e = entries[n - 1];
        if "wavecraft-"@.is_prefix_of(e.0) {
            prev.push(entry_dep(e.0, e.1))
        } else {
            prev
        }
    }
}

fn dependency_of(name: String, value: TomlDependency) -> (d: CliDependency)
    ensures
        dep_view(d) == entry_dep(name@, value@),
{
    match value {
        TomlDependency::Table { version, path } => {
            let has_version = version.is_some();
            CliDependency { name, has_version, version, path }
        },
        TomlDependency::Version(v) => CliDependency { name, has_version: true, version: Some(v), path: None },
        TomlDependency::Other => CliDependency { name, has_version: false, version: None, path: None },
    }
}

/// Picks the `wavecraft-*` dependencies of the table entries and sorts them
/// by name.
pub fn select_wavecraft_deps(entries: Vec<(String, TomlDependency)>) -> (deps: Vec<CliDependency>)
    ensures
        deps@.map_values(|d: CliDependency| dep_view(d)).to_multiset() == wavecraft_entries(
            entries_view(entries@),
            entries@.len() as int,
        ).to_multiset(),
        sorted_by_key(deps@),
{
    let ghost es = entries@;
    let ghost ev = entries_view(entries@);
    let n = entries.len();
    let mut rest = entries;
    let mut found: Vec<CliDependency> = Vec::new();
    let mut i: usize = 0;
    while i < n
        invariant
            n == es.len(),
            i <= n,
            rest@ == es.subrange(i as int, n as int),
            ev == entries_view(es),
            found@.map_values(|d: CliDependency| dep_view(d)) == wavecraft_entries(ev, i as int),
        decreases n - i,
    {
        let (name, value) = rest.remove(0);
        assert((name, value) == es[i as int]);
        assert(ev[i as int] == (name@, value@));
        if starts_with(name.as_str(), "wavecraft-") {
            let ghost before = found@;
            found.push(dependency_of(name, value));
            assert(found@.map_values(|d: CliDependency| dep_view(d)) =~= before.map_values(
                |d: CliDependency| dep_view(d),
            ).push(entry_dep(ev[i as int].0, ev[i as int].1)));
        }
        i += 1;
        assert(rest@ =~= es.subrange(i as int, n as int));
    }
    let sorted = sort_by_key(found);
    proof {
        lemma_map_multiset(found@, sorted@);
    }
    sorted
}

/// Two sequences with the same multiset keep it under `dep_view`.
proof fn lemma_map_multiset(a: Seq<CliDependency>, b: Seq<CliDependency>)
    requires
        a.to_multiset() == b.to_multiset(),
    ensures
        a.map_values(|d: CliDependency| dep_view(d)).to_multiset() == b.map_values(
            |d: CliDependency| dep_view(d),
        ).to_multiset(),
    decreases a.len(),
{
    broadcast use vstd::seq_lib::group_to_multiset_ensures;

    let f = |d: CliDependency| dep_view(d);
    if a.len() == 0 {
        assert(b.to_multiset().len() == 0);
        assert(a.map_values(f) =~= Seq::empty());
        assert(b.map_values(f) =~= Seq::empty());
    } else {
        let x = a.last();
        assert(b.to_multiset().count(x) > 0);
        assert(b.contains(x));
        let k = choose|k: int| 0 <= k < b.len() && b[k] == x;
        let a2 = a.drop_last();
        let b2 = b.remove(k);
        assert(a =~= a2.push(x));
        vstd::seq_lib::to_multiset_build(a2, x);
        vstd::seq_lib::to_multiset_remove(b, k);
        assert(a2.to_multiset() =~= b2.to_multiset());
        lemma_map_multiset(a2, b2);
        assert(a.map_values(f) =~= a2.map_values(f).push(f(x)));
        vstd::seq_lib::to_multiset_build(a2.map_values(f), f(x));
        assert(b.map_values(f) =~= b2.map_values(f).insert(k, f(x)));
        vstd::seq_lib::to_multiset_insert(b2.map_values(f), k, f(x));
    }
}

/// Parses `cli/Cargo.toml` and extracts its `wavecraft-*` dependencies,
/// sorted by name.
pub fn discover_wavecraft_deps(toml_content: &str) -> (r: Result<Vec<CliDependency>, DiscoverError>)
    ensures
        !toml_document_parses(toml_content@) ==> r == Err::<Vec<CliDependency>, DiscoverError>(
            DiscoverError::ParseFailed,
        ),
        toml_document_parses(toml_content@) && toml_dependency_table(toml_content@) is None ==> r
            == Err::<Vec<CliDependency>, DiscoverError>(DiscoverError::NoDependenciesTable),
        toml_dependency_table(toml_content@) matches Some(es) ==> (r matches Ok(deps)
            && deps@.map_values(|d: CliDependency| dep_view(d)).to_multiset() == wavecraft_entries(
            es,
            es.len() as int,
        ).to_multiset() && sorted_by_key(deps@)),
        r matches Ok(deps) ==> toml_document_parses(toml_content@) && forall|i: int|
            0 <= i < deps@.len() ==> "wavecraft-"@.is_prefix_of(#[trigger] deps@[i].name@),
{
    let table = dependency_entries(toml_content);
    if toml_parse_error(toml_content).is_some() {
        return Err(DiscoverError::ParseFailed);
    }
    let entries = match table {
        Some(e) => e,
        None => {
            return Err(DiscoverError::NoDependenciesTable);
        },
    };
    let ghost ev = entries_view(entries@);
    let deps = select_wavecraft_deps(entries);
    proof {
        lemma_selected_names(ev, ev.len() as int);
        assert forall|i: int| 0 <= i < deps@.len() implies "wavecraft-"@.is_prefix_of(
            #[trigger] deps@[i].name@,
        ) by {
            let v = deps@.map_values(|d: CliDependency| dep_view(d));
            assert(v[i] == dep_view(deps@[i]));
            assert(v.contains(v[i]));
            vstd::seq_lib::to_multiset_contains(v, v[i]);
            let w = wavecraft_entries(ev, ev.len() as int);
            vstd::seq_lib::to_multiset_contains(w, v[i]);
            assert(w.contains(v[i]));
        }
    }
    Ok(deps)
}

/// Every selected entry has a `wavecraft-` name.
proof fn lemma_selected_names(entries: Seq<(Seq<char>, TomlDependencyView)>, n: int)
    ensures
        forall|j: int| 0 <= j < wavecraft_entries(entries, n).len() ==> "wavecraft-"@.is_prefix_of(
            (#[trigger] wavecraft_entries(entries, n)[j]).0,
        ),
    decreases n,
{
    if n > 0 {
        lemma_selected_names(entries, n - 1);
        let prev = wavecraft_entries(entries, n - 1);
        let e = entries[n - 1];
        if "wavecraft-"@.is_prefix_of(e.0) {
            assert(entry_dep(e.0, e.1).0 == e.0);
            assert(wavecraft_entries(entries, n) == prev.push(entry_dep(e.0, e.1)));
        }
    }
}

/// What reading a dependency's crate manifest gave.
#[derive(Debug, Clone)]
pub enum CrateManifest {
    /// No manifest at the resolved path.
    NotFound { path: String },
    /// The manifest could not be read.
    ReadFailed { error: String },
    /// The manifest is not TOML.
    ParseFailed { error: String },
    /// The manifest's `package.publish`, when it is a boolean.
    Parsed { publish: Option<bool> },
}

/// What a crate manifest's text says: the message of its parse error, or
/// its `package.publish` when that is a boolean.
pub fn crate_manifest_from_text(content: &str) -> (m: CrateManifest)
    ensures
        match toml_parse_error_message(content@) {
            Some(msg) => m matches CrateManifest::ParseFailed { error } && error@ == msg,
            None => m matches CrateManifest::Parsed { publish } && publish == toml_bool_at_path(
                content@,
                seq!["package"@, "publish"@],
            ),
        },
{
    match toml_parse_error(content) {
        Some(error) => CrateManifest::ParseFailed { error },
        None => {
            let keys: [&str; 2] = ["package", "publish"];
            let publish = toml_bool_at(content, keys.as_slice());
            assert(key_path(keys@) =~= seq!["package"@, "publish"@]);
            CrateManifest::Parsed { publish }
        },
    }
}

/// Where a dependency's crate manifest lies: below its `path` (relative to
/// `cli/`), else at the conventional `engine/crates/<name>`.
pub open spec fn crate_manifest(root: Seq<char>, dep: CliDependency) -> Seq<char> {
    match dep.path {
        Some(p) => join(join(join(root, "cli"@), p@), "Cargo.toml"@),
        None => join(join(join(root, "engine/crates"@), dep.name@), "Cargo.toml"@),
    }
}

/// The crate manifest path of a dependency.
pub fn crate_manifest_path(project_root: &str, dep: &CliDependency) -> (p: String)
    ensures
        p@ == crate_manifest(project_root@, *dep),
{
    match &dep.path {
        Some(path) => {
            let cli = join_path(project_root, "cli");
            let dir = join_path(cli.as_str(), path.as_str());
            join_path(dir.as_str(), "Cargo.toml")
        },
        None => {
            let crates = join_path(project_root, "engine/crates");
            let dir = join_path(crates.as_str(), dep.name.as_str());
            join_path(dir.as_str(), "Cargo.toml")
        },
    }
}

/// A dependency's `path` is relative to the `cli/` directory: its manifest
/// is `Cargo.toml` inside `cli/<path>` below the project root.
pub proof fn law_dependency_path_resolves_from_cli(root: Seq<char>, dep: CliDependency, p: Seq<char>)
    requires
        dep.path matches Some(q) && q@ == p,
    ensures
        crate_manifest(root, dep) == join(join(root, "cli/"@ + p), "Cargo.toml"@),
{
    reveal_strlit("cli");
    reveal_strlit("cli/");
    crate::paths::lemma_join_nested(root, "cli"@, p);
    assert("cli"@ + seq!['/'] + p =~= "cli/"@ + p);
}

/// Without a `path`, a dependency's manifest is
/// `engine/crates/<name>/Cargo.toml` below the project root.
pub proof fn law_dependency_without_path_is_an_engine_crate(root: Seq<char>, dep: CliDependency)
    requires
        dep.path is None,
    ensures
        crate_manifest(root, dep) == join(join(root, "engine/crates/"@ + dep.name@), "Cargo.toml"@),
{
    reveal_strlit("engine/crates");
    reveal_strlit("engine/crates/");
    crate::paths::lemma_join_nested(root, "engine/crates"@, dep.name@);
    assert("engine/crates"@ + seq!['/'] + dep.name@ =~= "engine/crates/"@ + dep.name@);
}

/// The error messages of one dependency, in order.
pub open spec fn dependency_messages(dep: CliDependency, manifest: CrateManifest) -> Seq<Seq<char>> {
    let version = if dep.has_version {
        seq![]
    } else {
        seq!["missing version field"@]
    };
    version + match manifest {
        CrateManifest::NotFound { path } => seq!["crate Cargo.toml not found at "@ + path@],
        CrateManifest::ReadFailed { error } => seq!["failed to read crate Cargo.toml: "@ + error@],
        CrateManifest::ParseFailed { error } => seq!["failed to parse crate Cargo.toml: "@ + error@],
        CrateManifest::Parsed { publish } => if publish == Some(false) {
            seq!["crate has publish = false"@]
        } else {
            seq![]
        },
    }
}

fn message(prefix: &str, detail: &str) -> (s: String)
    ensures
        s@ == prefix@ + detail@,
{
    let mut s = prefix.to_string();
    push_str(&mut s, detail);
    s
}

/// Validates a dependency: it needs a version, and its crate must exist and
/// not be marked unpublishable.
pub fn validate_dependency(dep: &CliDependency, manifest: &CrateManifest) -> (errors: Vec<ValidationError>)
    ensures
        errors@.map_values(|e: ValidationError| e.message@) == dependency_messages(*dep, *manifest),
        forall|i: int| 0 <= i < errors@.len() ==> (#[trigger] errors@[i]).name@ == dep.name@,
{
    let mut errors: Vec<ValidationError> = Vec::new();
    if !dep.has_version {
        errors.push(ValidationError { name: dep.name.clone(), message: "missing version field".to_string() });
    }
    let ghost first = errors@.map_values(|e: ValidationError| e.message@);
    let m = match manifest {
        CrateManifest::NotFound { path } => Some(message("crate Cargo.toml not found at ", path.as_str())),
        CrateManifest::ReadFailed { error } => Some(message("failed to read crate Cargo.toml: ", error.as_str())),
        CrateManifest::ParseFailed { error } => Some(message("failed to parse crate Cargo.toml: ", error.as_str())),
        CrateManifest::Parsed { publish } => if *publish == Some(false) {
            Some("crate has publish = false".to_string())
        } else {
            None
        },
    };
    match m {
        Some(text) => {
            errors.push(ValidationError { name: dep.name.clone(), message: text });
        },
        None => {},
    }
    assert(errors@.map_values(|e: ValidationError| e.message@) =~= dependency_messages(*dep, *manifest));
    errors
}

/// Whether every character is ASCII.
pub open spec fn all_ascii(s: Seq<char>) -> bool {
    forall|i: int| 0 <= i < s.len() ==> (s[i] as u32) < 128
}

/// The crates.io sparse index path of a crate name: `1/` or `2/` for one or
/// two characters, `3/` and the first character for three, else the first
/// two and the next two characters.
pub open spec fn index_prefix(name: Seq<char>) -> Seq<char> {
    if name.len() == 1 {
        "1/"@ + name
    } else if name.len() == 2 {
        "2/"@ + name
    } else if name.len() == 3 {
        "3/"@ + name.subrange(0, 1) + "/"@ + name
    } else {
        name.subrange(0, 2) + "/"@ + name.subrange(2, 4) + "/"@ + name
    }
}

/// Generates the crates.io sparse index path for a crate name. Crate names
/// are ASCII, so byte and character positions agree.
pub fn crate_index_prefix(name: &str) -> (p: String)
    requires
        name@.len() > 0,
        all_ascii(name@),
    ensures
        p@ == index_prefix(name@),
{
    let c = chars_of(name);
    proof {
        reveal_strlit("1/");
        reveal_strlit("2/");
        reveal_strlit("3/");
        reveal_strlit("/");
    }
    let mut p = String::new();
    if c.len() == 1 {
        push_str(&mut p, "1/");
    } else if c.len() == 2 {
        push_str(&mut p, "2/");
    } else if c.len() == 3 {
        push_str(&mut p, "3/");
        p.push(c[0]);
        p.push('/');
    } else {
        p.push(c[0]);
        p.push(c[1]);
        p.push('/');
        p.push(c[2]);
        p.push(c[3]);
        p.push('/');
    }
    push_str(&mut p, name);
    assert(p@ =~= index_prefix(name@));
    p
}

/// `str::lines`: the pieces between newlines, each without a trailing
/// carriage return, with no empty piece after a final newline.
pub open spec fn lines_of(s: Seq<char>) -> Seq<Seq<char>> {
    if s.len() == 0 {
        seq![]
    } else {
        let pieces = split_on(s, '\n');
        let kept = if s.last() == '\n' {
            pieces.drop_last()
        } else {
            pieces
        };
        kept.map_values(|l: Seq<char>| strip_cr(l))
    }
}

pub open spec fn strip_cr(l: Seq<char>) -> Seq<char> {
    if l.len() > 0 && l.last() == '\r' {
        l.drop_last()
    } else {
        l
    }
}

/// The last line of a text, as `str::lines().last()` gives it.
pub fn last_line(body: &str) -> (r: Option<String>)
    ensures
        lines_of(body@).len() == 0 ==> r is None,
        lines_of(body@).len() > 0 ==> (r matches Some(l) && l@ == lines_of(body@).last()),
{
    let c = chars_of(body);
    if c.len() == 0 {
        return None;
    }
    let pieces = split_chars(c.as_slice(), '\n');
    proof {
        crate::text::lemma_split_on_nonempty(body@, '\n');
    }
    let n = if c[c.len() - 1] == '\n' {
        pieces.len() - 1
    } else {
        pieces.len()
    };
    if n == 0 {
        return None;
    }
    let l = &pieces[n - 1];
    let text = if l.len() > 0 && l[l.len() - 1] == '\r' {
        crate::text::string_from_chars(&l.as_slice()[0..l.len() - 1])
    } else {
        crate::text::string_from_chars(l.as_slice())
    };
    proof {
        let pieces_s = split_on(body@, '\n');
        let kept = if body@.last() == '\n' {
            pieces_s.drop_last()
        } else {
            pieces_s
        };
        assert(kept.len() == n);
        assert(kept.last() == pieces@[n - 1]@);
        assert(lines_of(body@).last() == strip_cr(kept.last()));
        if l@.len() > 0 && l@.last() == '\r' {
            assert(text@ =~= l@.drop_last());
        }
    }
    Some(text)
}

/// What the registry check concludes once crates.io has answered.
#[derive(Debug, Clone, PartialEq, Eq)]
pub enum RegistryVerdict {
    /// A compatible version is published.
    Available,
    /// The dependency has no version to check.
    NoVersion,
    /// The index holds no version.
    NotFound,
    /// The latest published version is outside the CLI's requirement.
    Incompatible { published: String },
    /// The CLI's requirement does not parse.
    BadRequirement,
    /// The published version does not parse.
    BadPublishedVersion { published: String },
}

/// The latest published version named in the sparse index text: the `vers`
/// field of its last line.
pub open spec fn latest_published(body: Seq<char>) -> Option<Seq<char>> {
    let ls = lines_of(body);
    if ls.len() == 0 {
        None
    } else {
        json_field_string(ls.last(), "vers"@)
    }
}

/// Checks the CLI's requirement on a dependency against the crate's sparse
/// index entry: the latest published version must satisfy `^version`.
pub fn check_registry_body(version: Option<&str>, body: &str) -> (r: RegistryVerdict)
    ensures
        version is None ==> r == RegistryVerdict::NoVersion,
        version is Some && latest_published(body@) is None ==> r == RegistryVerdict::NotFound,
        version is Some && latest_published(body@) is Some && !semver_req_parses(
            caret_requirement(version.unwrap()@),
        ) ==> r == RegistryVerdict::BadRequirement,
        version is Some && latest_published(body@) is Some && semver_req_parses(caret_requirement(version.unwrap()@))
            && semver_parsed(latest_published(body@).unwrap()) is None ==> (
        r matches RegistryVerdict::BadPublishedVersion { published } && Some(published@)
            == latest_published(body@)),
        version is Some && latest_published(body@) is Some && semver_req_parses(caret_requirement(version.unwrap()@))
            && semver_parsed(latest_published(body@).unwrap()) is Some ==> (if semver_req_matches(
            caret_requirement(version.unwrap()@),
            semver_parsed(latest_published(body@).unwrap()).unwrap(),
        ) {
            r == RegistryVerdict::Available
        } else {
            r matches RegistryVerdict::Incompatible { published } && Some(published@)
                == latest_published(body@)
        }),
{
    let req_text = match version {
        Some(v) => v,
        None => {
            return RegistryVerdict::NoVersion;
        },
    };
    let line = match last_line(body) {
        Some(l) => l,
        None => {
            return RegistryVerdict::NotFound;
        },
    };
    assert(latest_published(body@) == json_field_string(line@, "vers"@));
    let published = match json_string_field(line.as_str(), "vers") {
        Some(p) => p,
        None => {
            return RegistryVerdict::NotFound;
        },
    };
    let req = match parse_caret_requirement(req_text) {
        Some(r) => r,
        None => {
            return RegistryVerdict::BadRequirement;
        },
    };
    let parsed = match ParsedVersion::parse(published.as_str()) {
        Some(v) => v,
        None => {
            return RegistryVerdict::BadPublishedVersion { published };
        },
    };
    if req.admits(&parsed) {
        RegistryVerdict::Available
    } else {
        RegistryVerdict::Incompatible { published }
    }
}

} // verus!
