//! Decisions of the CD dry-run: which package areas a change touches, the
//! fallback when change detection fails, and the summary of the phases.

use vstd::prelude::*;

use vstd::utf8::encode_utf8;

use crate::json_codec::{json_document_parses, json_field_string, json_string_field, parse_json_document};
use crate::ordering::{sort_by_key, sorted_by_key, Keyed};
use crate::text::{chars_of, contains_char, split_chars, split_on, starts_with, trim, trim_chars};
use crate::toml_doc::{key_path, toml_bool_at, toml_bool_at_path, toml_document_parses, toml_parse_error, toml_string_at, toml_string_at_path};

verus! {

/// CD dry-run configuration.
#[derive(Debug, Clone)]
pub struct CdDryRunConfig {
    /// Show verbose output.
    pub verbose: bool,
    /// Base git reference used for change detection (e.g., `main`).
    pub base_ref: String,
}

impl Default for CdDryRunConfig {
    fn default() -> (config: Self)
        ensures
            !config.verbose,
            config.base_ref@ == "main"@,
    {
        CdDryRunConfig { verbose: false, base_ref: "main".to_string() }
    }
}

/// Change-set flags aligned with the continuous-deploy path filters.
#[derive(Debug, Clone, Copy, PartialEq, Eq, Structural)]
pub struct ChangeSet {
    /// CLI or sdk-template related files changed.
    pub cli: bool,
    /// Engine publishable crates related files changed.
    pub engine: bool,
    /// Dev server files changed.
    pub dev_server: bool,
    /// `@wavecraft/core` files changed.
    pub npm_core: bool,
    /// `@wavecraft/components` files changed.
    pub npm_components: bool,
}

impl Default for ChangeSet {
    fn default() -> (changes: Self)
        ensures
            changes == (ChangeSet {
                cli: false,
                engine: false,
                dev_server: false,
                npm_core: false,
                npm_components: false,
            }),
    {
        ChangeSet {
            cli: false,
            engine: false,
            dev_server: false,
            npm_core: false,
            npm_components: false,
        }
    }
}

impl ChangeSet {
    /// Every package area marked as changed.
    pub fn all() -> (changes: Self)
        ensures
            changes == (ChangeSet {
                cli: true,
                engine: true,
                dev_server: true,
                npm_core: true,
                npm_components: true,
            }),
    {
        ChangeSet { cli: true, engine: true, dev_server: true, npm_core: true, npm_components: true }
    }
}

/// A path directly under `cli/`, not in a subdirectory.
pub open spec fn spec_is_cli_root_file(path: Seq<char>) -> bool {
    "cli/"@.is_prefix_of(path) && path.len() > 4 && !path.subrange(4, path.len() as int).contains(
        '/',
    )
}

/// A change to the CLI or to the SDK template.
pub open spec fn spec_is_cli_change(path: Seq<char>) -> bool {
    "cli/src/"@.is_prefix_of(path) || spec_is_cli_root_file(path) || "sdk-template/"@.is_prefix_of(
        path,
    )
}

/// A change to the engine workspace manifest or a publishable engine crate.
pub open spec fn spec_is_engine_change(path: Seq<char>) -> bool {
    ||| path == "engine/Cargo.toml"@
    ||| "engine/crates/wavecraft-core/"@.is_prefix_of(path)
    ||| "engine/crates/wavecraft-dsp/"@.is_prefix_of(path)
    ||| "engine/crates/wavecraft-protocol/"@.is_prefix_of(path)
    ||| "engine/crates/wavecraft-bridge/"@.is_prefix_of(path)
    ||| "engine/crates/wavecraft-metering/"@.is_prefix_of(path)
    ||| "engine/crates/wavecraft-macros/"@.is_prefix_of(path)
}

pub open spec fn spec_is_dev_server_change(path: Seq<char>) -> bool {
    "dev-server/"@.is_prefix_of(path)
}

pub open spec fn spec_is_npm_core_change(path: Seq<char>) -> bool {
    "ui/packages/core/"@.is_prefix_of(path)
}

pub open spec fn spec_is_npm_components_change(path: Seq<char>) -> bool {
    "ui/packages/components/"@.is_prefix_of(path)
}

/// Whether a changed path touches the CLI.
pub fn is_cli_change(path: &str) -> (r: bool)
    ensures
        r == spec_is_cli_change(path@),
{
    starts_with(path, "cli/src/") || is_cli_root_file(path) || starts_with(path, "sdk-template/")
}

/// Whether a changed path is a file at the root of `cli/`.
pub fn is_cli_root_file(path: &str) -> (r: bool)
    ensures
        r == spec_is_cli_root_file(path@),
{
    if !starts_with(path, "cli/") {
        return false;
    }
    proof {
        reveal_strlit("cli/");
    }
    let chars = chars_of(path);
    let relative = &chars.as_slice()[4..chars.len()];
    assert(relative@ =~= path@.subrange(4, path@.len() as int));
    relative.len() > 0 && !contains_char(relative, '/')
}

/// Every path inside one of the publishable engine crates (core, dsp,
/// protocol, bridge, metering, macros), and the engine workspace manifest,
/// is an engine change.
pub proof fn law_publishable_crate_paths_are_engine_changes(rest: Seq<char>)
    ensures
        spec_is_engine_change("engine/Cargo.toml"@),
        spec_is_engine_change("engine/crates/wavecraft-core/"@ + rest),
        spec_is_engine_change("engine/crates/wavecraft-dsp/"@ + rest),
        spec_is_engine_change("engine/crates/wavecraft-protocol/"@ + rest),
        spec_is_engine_change("engine/crates/wavecraft-bridge/"@ + rest),
        spec_is_engine_change("engine/crates/wavecraft-metering/"@ + rest),
        spec_is_engine_change("engine/crates/wavecraft-macros/"@ + rest),
{
    lemma_prefix_of_concat("engine/crates/wavecraft-core/"@, rest);
    lemma_prefix_of_concat("engine/crates/wavecraft-dsp/"@, rest);
    lemma_prefix_of_concat("engine/crates/wavecraft-protocol/"@, rest);
    lemma_prefix_of_concat("engine/crates/wavecraft-bridge/"@, rest);
    lemma_prefix_of_concat("engine/crates/wavecraft-metering/"@, rest);
    lemma_prefix_of_concat("engine/crates/wavecraft-macros/"@, rest);
}

/// A path outside `engine/` is never an engine change.
pub proof fn law_engine_changes_lie_under_engine(path: Seq<char>)
    requires
        !"engine/"@.is_prefix_of(path),
    ensures
        !spec_is_engine_change(path),
{
    reveal_strlit("engine/");
    reveal_strlit("engine/Cargo.toml");
    reveal_strlit("engine/crates/wavecraft-core/");
    reveal_strlit("engine/crates/wavecraft-dsp/");
    reveal_strlit("engine/crates/wavecraft-protocol/");
    reveal_strlit("engine/crates/wavecraft-bridge/");
    reveal_strlit("engine/crates/wavecraft-metering/");
    reveal_strlit("engine/crates/wavecraft-macros/");
    let e = "engine/"@;
    assert forall|lit: Seq<char>|
        lit.len() >= 7 && lit.subrange(0, 7) == e && #[trigger] lit.is_prefix_of(path)
        implies e.is_prefix_of(path) by {
        assert(path.subrange(0, 7) =~= lit.subrange(0, 7));
    }
    assert("engine/Cargo.toml"@.subrange(0, 7) =~= e);
    assert("engine/crates/wavecraft-core/"@.subrange(0, 7) =~= e);
    assert("engine/crates/wavecraft-dsp/"@.subrange(0, 7) =~= e);
    assert("engine/crates/wavecraft-protocol/"@.subrange(0, 7) =~= e);
    assert("engine/crates/wavecraft-bridge/"@.subrange(0, 7) =~= e);
    assert("engine/crates/wavecraft-metering/"@.subrange(0, 7) =~= e);
    assert("engine/crates/wavecraft-macros/"@.subrange(0, 7) =~= e);
    if path == "engine/Cargo.toml"@ {
        assert(path.subrange(0, 7) =~= e);
    }
}

proof fn lemma_prefix_of_concat(a: Seq<char>, b: Seq<char>)
    ensures
        a.is_prefix_of(a + b),
{
    assert((a + b).subrange(0, a.len() as int) =~= a);
}

/// Whether a changed path touches a publishable engine crate.
pub fn is_engine_change(path: &str) -> (r: bool)
    ensures
        r == spec_is_engine_change(path@),
{
    crate::text::str_eq(path, "engine/Cargo.toml") || starts_with(
        path,
        "engine/crates/wavecraft-core/",
    ) || starts_with(path, "engine/crates/wavecraft-dsp/") || starts_with(
        path,
        "engine/crates/wavecraft-protocol/",
    ) || starts_with(path, "engine/crates/wavecraft-bridge/") || starts_with(
        path,
        "engine/crates/wavecraft-metering/",
    ) || starts_with(path, "engine/crates/wavecraft-macros/")
}

/// Whether a changed path touches the dev server.
pub fn is_dev_server_change(path: &str) -> (r: bool)
    ensures
        r == spec_is_dev_server_change(path@),
{
    starts_with(path, "dev-server/")
}

/// Whether a changed path touches `@wavecraft/core`.
pub fn is_npm_core_change(path: &str) -> (r: bool)
    ensures
        r == spec_is_npm_core_change(path@),
{
    starts_with(path, "ui/packages/core/")
}

/// Whether a changed path touches `@wavecraft/components`.
pub fn is_npm_components_change(path: &str) -> (r: bool)
    ensures
        r == spec_is_npm_components_change(path@),
{
    starts_with(path, "ui/packages/components/")
}

/// The changed paths listed in `git diff --name-only` output: each line
/// trimmed, empty lines dropped.
pub open spec fn changed_paths(stdout: Seq<char>) -> Seq<Seq<char>> {
    split_on(stdout, '\n').map_values(|line: Seq<char>| trim(line)).filter(
        |p: Seq<char>| p.len() > 0,
    )
}

/// The change set of a list of changed paths: an area is marked when some
/// path touches it.
pub open spec fn change_set_of(paths: Seq<Seq<char>>) -> ChangeSet {
    ChangeSet {
        cli: exists|i: int| 0 <= i < paths.len() && spec_is_cli_change(#[trigger] paths[i]),
        engine: exists|i: int| 0 <= i < paths.len() && spec_is_engine_change(#[trigger] paths[i]),
        dev_server: exists|i: int|
            0 <= i < paths.len() && spec_is_dev_server_change(#[trigger] paths[i]),
        npm_core: exists|i: int|
            0 <= i < paths.len() && spec_is_npm_core_change(#[trigger] paths[i]),
        npm_components: exists|i: int|
            0 <= i < paths.len() && spec_is_npm_components_change(#[trigger] paths[i]),
    }
}

/// The changed paths in `git diff --name-only` output.
pub fn parse_changed_files(stdout: &str) -> (paths: Vec<String>)
    ensures
        paths@.map_values(|p: String| p@) == changed_paths(stdout@),
{
    let chars = chars_of(stdout);
    let lines = split_chars(chars.as_slice(), '\n');
    let ghost trimmed = split_on(stdout@, '\n').map_values(|line: Seq<char>| trim(line));
    let mut paths: Vec<String> = Vec::new();
    let mut i: usize = 0;
    while i < lines.len()
        invariant
            i <= lines@.len(),
            chars@ == stdout@,
            lines@.len() == split_on(chars@, '\n').len(),
            forall|k: int| 0 <= k < lines@.len() ==> #[trigger] lines@[k]@ == split_on(chars@, '\n')[k],
            trimmed == split_on(stdout@, '\n').map_values(|line: Seq<char>| trim(line)),
            paths@.map_values(|p: String| p@) == trimmed.take(i as int).filter(
                |p: Seq<char>| p.len() > 0,
            ),
        decreases lines@.len() - i,
    {
        let t = trim_chars(lines[i].as_slice());
        proof {
            assert(trimmed.take(i + 1).drop_last() =~= trimmed.take(i as int));
            reveal(Seq::filter);
        }
        if t.len() > 0 {
            let ghost before = paths@.map_values(|p: String| p@);
            paths.push(crate::text::string_from_chars(t.as_slice()));
            assert(paths@.map_values(|p: String| p@) =~= before.push(t@));
        }
        i += 1;
    }
    assert(trimmed.take(lines@.len() as int) =~= trimmed);
    paths
}

/// Marks the areas that the changed paths touch.
pub fn changes_from_paths(paths: &[String]) -> (changes: ChangeSet)
    ensures
        changes == change_set_of(paths@.map_values(|p: String| p@)),
{
    let ghost ps = paths@.map_values(|p: String| p@);
    let mut changes = ChangeSet::default();
    let mut i: usize = 0;
    while i < paths.len()
        invariant
            i <= paths@.len(),
            ps == paths@.map_values(|p: String| p@),
            changes == change_set_of(ps.take(i as int)),
        decreases paths@.len() - i,
    {
        let path = paths[i].as_str();
        let ghost prev = ps.take(i as int);
        let ghost next = ps.take(i + 1);
        assert(next == prev.push(path@));
        if is_cli_change(path) {
            changes.cli = true;
        }
        if is_engine_change(path) {
            changes.engine = true;
        }
        if is_dev_server_change(path) {
            changes.dev_server = true;
        }
        if is_npm_core_change(path) {
            changes.npm_core = true;
        }
        if is_npm_components_change(path) {
            changes.npm_components = true;
        }
        proof {
            assert(next[i as int] == path@);
            assert(forall|j: int| 0 <= j < i ==> next[j] == prev[j]);
        }
        assert(changes == change_set_of(next));
        i += 1;
    }
    assert(ps.take(paths@.len() as int) =~= ps);
    changes
}

/// The change set of a `git diff --name-only` output; change detection
/// itself never falls back.
pub fn detect_changes_from_diff(stdout: &str) -> (r: (ChangeSet, bool))
    ensures
        r.0 == change_set_of(changed_paths(stdout@)),
        !r.1,
{
    let paths = parse_changed_files(stdout);
    (changes_from_paths(paths.as_slice()), false)
}

/// The change set to use: the detected one, or every area when detection
/// failed, with the failure kept for reporting.
pub fn resolve_changes(detected: Result<(ChangeSet, bool), String>) -> (r: (
    ChangeSet,
    bool,
    Option<String>,
))
    ensures
        match detected {
            Ok((changes, used_fallback)) => r.0 == changes && r.1 == used_fallback && r.2 is None,
            Err(err) => r.0 == ChangeSet::all_spec() && r.1 && (r.2 matches Some(e) && e@ == err@),
        },
{
    match detected {
        Ok((changes, used_fallback)) => (changes, used_fallback, None),
        Err(err) => (ChangeSet::all(), true, Some(err)),
    }
}

impl ChangeSet {
    /// Every package area marked as changed.
    pub open spec fn all_spec() -> ChangeSet {
        ChangeSet { cli: true, engine: true, dev_server: true, npm_core: true, npm_components: true }
    }
}

/// `yes` or `no`.
pub fn yes_no(flag: bool) -> (s: &'static str)
    ensures
        s@ == (if flag {
            "yes"@
        } else {
            "no"@
        }),
{
    if flag {
        "yes"
    } else {
        "no"
    }
}

/// Why the dev-server dry-run is skipped: it cannot be replayed locally when
/// the engine changed too.
pub fn dev_server_skip_reason(changes: ChangeSet) -> (r: Option<&'static str>)
    ensures
        r is Some <==> changes.dev_server && changes.engine,
        r matches Some(reason) ==> reason@
            == "engine changes detected; local dry-run cannot replay CI version sync + crates.io propagation"@,
{
    if changes.dev_server && changes.engine {
        Some(
            "engine changes detected; local dry-run cannot replay CI version sync + crates.io propagation",
        )
    } else {
        None
    }
}

/// The outcome of each dry-run phase.
#[derive(Debug)]
pub struct PhaseSummary {
    pub passed: Vec<String>,
    pub failed: Vec<String>,
    pub skipped: Vec<String>,
    pub skipped_labels: Vec<String>,
}

impl Default for PhaseSummary {
    fn default() -> (summary: Self)
        ensures
            summary.passed@.len() == 0,
            summary.failed@.len() == 0,
            summary.skipped@.len() == 0,
            summary.skipped_labels@.len() == 0,
    {
        PhaseSummary {
            passed: Vec::new(),
            failed: Vec::new(),
            skipped: Vec::new(),
            skipped_labels: Vec::new(),
        }
    }
}

/// `label (detail)`.
pub open spec fn labelled(label: Seq<char>, detail: Seq<char>) -> Seq<char> {
    label + " ("@ + detail + ")"@
}

fn labelled_exec(label: &str, detail: &str) -> (s: String)
    ensures
        s@ == labelled(label@, detail@),
{
    let mut s = label.to_string();
    crate::text::push_str(&mut s, " (");
    crate::text::push_str(&mut s, detail);
    crate::text::push_str(&mut s, ")");
    s
}

impl PhaseSummary {
    /// Records a passed phase.
    pub fn pass(&mut self, label: &str)
        ensures
            final(self).passed@.map_values(|s: String| s@) == old(self).passed@.map_values(
                |s: String| s@,
            ).push(label@),
            final(self).failed@ == old(self).failed@,
            final(self).skipped@ == old(self).skipped@,
            final(self).skipped_labels@ == old(self).skipped_labels@,
    {
        self.passed.push(label.to_string());
        assert(self.passed@.map_values(|s: String| s@) =~= old(self).passed@.map_values(
            |s: String| s@,
        ).push(label@));
    }

    /// Records a failed phase with its error.
    pub fn fail(&mut self, label: &str, error: &str)
        ensures
            final(self).failed@.map_values(|s: String| s@) == old(self).failed@.map_values(
                |s: String| s@,
            ).push(labelled(label@, error@)),
            final(self).passed@ == old(self).passed@,
            final(self).skipped@ == old(self).skipped@,
            final(self).skipped_labels@ == old(self).skipped_labels@,
    {
        self.failed.push(labelled_exec(label, error));
        assert(self.failed@.map_values(|s: String| s@) =~= old(self).failed@.map_values(
            |s: String| s@,
        ).push(labelled(label@, error@)));
    }

    /// Records a skipped phase with the reason; its label is kept apart too.
    pub fn skip(&mut self, label: &str, reason: &str)
        ensures
            final(self).skipped@.map_values(|s: String| s@) == old(self).skipped@.map_values(
                |s: String| s@,
            ).push(labelled(label@, reason@)),
            final(self).skipped_labels@.map_values(|s: String| s@)
                == old(self).skipped_labels@.map_values(|s: String| s@).push(label@),
            final(self).passed@ == old(self).passed@,
            final(self).failed@ == old(self).failed@,
    {
        self.skipped.push(labelled_exec(label, reason));
        self.skipped_labels.push(label.to_string());
        assert(self.skipped@.map_values(|s: String| s@) =~= old(self).skipped@.map_values(
            |s: String| s@,
        ).push(labelled(label@, reason@)));
        assert(self.skipped_labels@.map_values(|s: String| s@) =~= old(
            self,
        ).skipped_labels@.map_values(|s: String| s@).push(label@));
    }

    /// Whether any phase failed.
    pub fn has_failures(&self) -> (r: bool)
        ensures
            r == (self.failed@.len() > 0),
    {
        self.failed.len() > 0
    }
}

pub open spec fn fallback_note() -> Seq<char> {
    "Confidence boundary: change detection fell back to all targets; local pass is conservative and not a full CI-equivalent signal."@
}

pub open spec fn cli_note() -> Seq<char> {
    "Confidence boundary: CLI publish dry-run is intentionally skipped locally; rely on CI + release workflow checks for full CLI publish confidence."@
}

pub open spec fn dev_server_note() -> Seq<char> {
    "Confidence boundary: dev-server publish dry-run may be skipped when engine changed; local pass does not cover full cross-job CI publish sequencing."@
}

/// Whether some label is exactly `label`.
pub open spec fn has_label(labels: Seq<String>, label: Seq<char>) -> bool {
    exists|i: int| 0 <= i < labels.len() && (#[trigger] labels[i])@ == label
}

fn any_label(labels: &Vec<String>, label: &str) -> (r: bool)
    ensures
        r == has_label(labels@, label@),
{
    let mut i: usize = 0;
    while i < labels.len()
        invariant
            i <= labels@.len(),
            forall|j: int| 0 <= j < i ==> (#[trigger] labels@[j])@ != label@,
        decreases labels@.len() - i,
    {
        if crate::text::str_eq(labels[i].as_str(), label) {
            return true;
        }
        i += 1;
    }
    false
}

/// The notes on what a local pass does not cover: the fallback, then a
/// skipped CLI dry-run, then a skipped dev-server dry-run.
pub fn confidence_boundary_notes(summary: &PhaseSummary, used_fallback: bool) -> (notes: Vec<String>)
    ensures
        notes@.map_values(|s: String| s@) == (if used_fallback {
            seq![fallback_note()]
        } else {
            seq![]
        }) + (if has_label(summary.skipped_labels@, "cli"@) {
            seq![cli_note()]
        } else {
            seq![]
        }) + (if has_label(summary.skipped_labels@, "dev-server"@) {
            seq![dev_server_note()]
        } else {
            seq![]
        }),
{
    let mut notes: Vec<String> = Vec::new();
    if used_fallback {
        notes.push(
            "Confidence boundary: change detection fell back to all targets; local pass is conservative and not a full CI-equivalent signal.".to_string(),
        );
    }
    let ghost first = notes@.map_values(|s: String| s@);
    assert(first =~= (if used_fallback {
        seq![fallback_note()]
    } else {
        seq![]
    }));
    if any_label(&summary.skipped_labels, "cli") {
        notes.push(
            "Confidence boundary: CLI publish dry-run is intentionally skipped locally; rely on CI + release workflow checks for full CLI publish confidence.".to_string(),
        );
    }
    let ghost second = notes@.map_values(|s: String| s@);
    assert(second =~= first + (if has_label(summary.skipped_labels@, "cli"@) {
        seq![cli_note()]
    } else {
        seq![]
    }));
    if any_label(&summary.skipped_labels, "dev-server") {
        notes.push(
            "Confidence boundary: dev-server publish dry-run may be skipped when engine changed; local pass does not cover full cross-job CI publish sequencing.".to_string(),
        );
    }
    assert(notes@.map_values(|s: String| s@) =~= second + (if has_label(
        summary.skipped_labels@,
        "dev-server"@,
    ) {
        seq![dev_server_note()]
    } else {
        seq![]
    }));
    notes
}

/// One publish dry-run target of the plan.
#[derive(Debug, Clone, Copy, PartialEq, Eq)]
pub enum DryRunStep {
    /// Run the target's dry-run.
    Run { label: &'static str },
    /// Skip it, with the reason reported in the summary.
    Skip { label: &'static str, reason: &'static str },
}

/// The label and reason texts of a step.
pub open spec fn step_view(s: DryRunStep) -> (bool, Seq<char>, Seq<char>) {
    match s {
        DryRunStep::Run { label } => (true, label@, seq![]),
        DryRunStep::Skip { label, reason } => (false, label@, reason@),
    }
}

pub open spec fn cli_skip_reason() -> Seq<char> {
    "expected: include_dir! references files outside crate \u{2014} not publishable via dry-run"@
}

/// The dry-run targets in phase order: the CLI dependency check, the engine
/// crates, the dev server, the CLI (never dry-run locally), and the two npm
/// packages; each runs only when its area changed.
pub open spec fn dry_run_plan_of(c: ChangeSet) -> Seq<(bool, Seq<char>, Seq<char>)> {
    seq![
        if c.cli || c.engine {
            (true, "validate-cli-deps"@, seq![])
        } else {
            (false, "validate-cli-deps"@, "no CLI/engine changes"@)
        },
        if c.engine {
            (true, "engine crates"@, seq![])
        } else {
            (false, "engine crates"@, "no changes"@)
        },
        if !c.dev_server {
            (false, "dev-server"@, "no changes"@)
        } else if c.engine {
            (
                false,
                "dev-server"@,
                "engine changes detected; local dry-run cannot replay CI version sync + crates.io propagation"@,
            )
        } else {
            (true, "dev-server"@, seq![])
        },
        if c.cli {
            (false, "cli"@, cli_skip_reason())
        } else {
            (false, "cli"@, "no changes"@)
        },
        if c.npm_core {
            (true, "@wavecraft/core"@, seq![])
        } else {
            (false, "@wavecraft/core"@, "no changes"@)
        },
        if c.npm_components {
            (true, "@wavecraft/components"@, seq![])
        } else {
            (false, "@wavecraft/components"@, "no changes"@)
        },
    ]
}

fn run_or_skip(run: bool, label: &'static str, reason: &'static str) -> (s: DryRunStep)
    ensures
        run ==> s == (DryRunStep::Run { label }),
        !run ==> s == (DryRunStep::Skip { label, reason }),
{
    if run {
        DryRunStep::Run { label }
    } else {
        DryRunStep::Skip { label, reason }
    }
}

/// Plans the publish dry-runs of a change set.
pub fn dry_run_plan(changes: ChangeSet) -> (steps: Vec<DryRunStep>)
    ensures
        steps@.map_values(|s: DryRunStep| step_view(s)) == dry_run_plan_of(changes),
{
    let mut steps: Vec<DryRunStep> = Vec::new();
    steps.push(run_or_skip(changes.cli || changes.engine, "validate-cli-deps", "no CLI/engine changes"));
    steps.push(run_or_skip(changes.engine, "engine crates", "no changes"));
    if !changes.dev_server {
        steps.push(DryRunStep::Skip { label: "dev-server", reason: "no changes" });
    } else {
        match dev_server_skip_reason(changes) {
            Some(reason) => steps.push(DryRunStep::Skip { label: "dev-server", reason }),
            None => steps.push(DryRunStep::Run { label: "dev-server" }),
        }
    }
    if changes.cli {
        steps.push(
            DryRunStep::Skip {
                label: "cli",
                reason: "expected: include_dir! references files outside crate \u{2014} not publishable via dry-run",
            },
        );
    } else {
        steps.push(DryRunStep::Skip { label: "cli", reason: "no changes" });
    }
    steps.push(run_or_skip(changes.npm_core, "@wavecraft/core", "no changes"));
    steps.push(run_or_skip(changes.npm_components, "@wavecraft/components", "no changes"));
    assert(steps@.map_values(|s: DryRunStep| step_view(s)) =~= dry_run_plan_of(changes));
    steps
}

/// Every area that changed gets its dry-run (the CLI aside, which is never
/// dry-run locally), except the dev server alongside engine changes.
pub proof fn law_changed_areas_are_dry_run(c: ChangeSet)
    ensures
        c.engine ==> dry_run_plan_of(c)[1].0,
        c.dev_server && !c.engine ==> dry_run_plan_of(c)[2].0,
        c.npm_core ==> dry_run_plan_of(c)[4].0,
        c.npm_components ==> dry_run_plan_of(c)[5].0,
        !dry_run_plan_of(c)[3].0,
{
}

/// Why a field of a package manifest could not be read.
#[derive(Debug, Clone, Copy, PartialEq, Eq, Structural)]
pub enum ManifestFieldError {
    /// The manifest does not parse.
    NotParsed,
    /// The field is missing or does not hold a string.
    Missing,
}

/// The string at a key path of a TOML manifest.
pub fn toml_manifest_string(content: &str, keys: &[&str]) -> (r: Result<String, ManifestFieldError>)
    ensures
        !toml_document_parses(content@) ==> r == Err::<String, ManifestFieldError>(
            ManifestFieldError::NotParsed,
        ),
        toml_document_parses(content@) ==> match toml_string_at_path(content@, key_path(keys@)) {
            Some(v) => r matches Ok(s) && s@ == v,
            None => r == Err::<String, ManifestFieldError>(ManifestFieldError::Missing),
        },
{
    if toml_parse_error(content).is_some() {
        return Err(ManifestFieldError::NotParsed);
    }
    match toml_string_at(content, keys) {
        Some(s) => Ok(s),
        None => Err(ManifestFieldError::Missing),
    }
}

/// The `package.version` of a crate manifest.
pub fn read_toml_package_version(content: &str) -> (r: Result<String, ManifestFieldError>)
    ensures
        !toml_document_parses(content@) ==> r == Err::<String, ManifestFieldError>(
            ManifestFieldError::NotParsed,
        ),
        toml_document_parses(content@) ==> match toml_string_at_path(content@, seq!["package"@, "version"@]) {
            Some(v) => r matches Ok(s) && s@ == v,
            None => r == Err::<String, ManifestFieldError>(ManifestFieldError::Missing),
        },
{
    let keys: [&str; 2] = ["package", "version"];
    assert(key_path(keys@) =~= seq!["package"@, "version"@]);
    toml_manifest_string(content, keys.as_slice())
}

/// The `workspace.package.version` of the engine workspace manifest.
pub fn read_engine_workspace_version(content: &str) -> (r: Result<String, ManifestFieldError>)
    ensures
        !toml_document_parses(content@) ==> r == Err::<String, ManifestFieldError>(
            ManifestFieldError::NotParsed,
        ),
        toml_document_parses(content@) ==> match toml_string_at_path(
            content@,
            seq!["workspace"@, "package"@, "version"@],
        ) {
            Some(v) => r matches Ok(s) && s@ == v,
            None => r == Err::<String, ManifestFieldError>(ManifestFieldError::Missing),
        },
{
    let keys: [&str; 3] = ["workspace", "package", "version"];
    assert(key_path(keys@) =~= seq!["workspace"@, "package"@, "version"@]);
    toml_manifest_string(content, keys.as_slice())
}

/// The `package.name` of a crate manifest.
pub fn read_crate_name(content: &str) -> (r: Result<String, ManifestFieldError>)
    ensures
        !toml_document_parses(content@) ==> r == Err::<String, ManifestFieldError>(
            ManifestFieldError::NotParsed,
        ),
        toml_document_parses(content@) ==> match toml_string_at_path(content@, seq!["package"@, "name"@]) {
            Some(v) => r matches Ok(s) && s@ == v,
            None => r == Err::<String, ManifestFieldError>(ManifestFieldError::Missing),
        },
{
    let keys: [&str; 2] = ["package", "name"];
    assert(key_path(keys@) =~= seq!["package"@, "name"@]);
    toml_manifest_string(content, keys.as_slice())
}

/// Whether a crate manifest allows publishing: it does unless its
/// `package.publish` is `false`.
pub fn is_publishable_crate(content: &str) -> (r: Result<bool, ManifestFieldError>)
    ensures
        !toml_document_parses(content@) ==> r == Err::<bool, ManifestFieldError>(
            ManifestFieldError::NotParsed,
        ),
        toml_document_parses(content@) ==> r == Ok::<bool, ManifestFieldError>(
            toml_bool_at_path(content@, seq!["package"@, "publish"@]) != Some(false),
        ),
{
    if toml_parse_error(content).is_some() {
        return Err(ManifestFieldError::NotParsed);
    }
    let keys: [&str; 2] = ["package", "publish"];
    assert(key_path(keys@) =~= seq!["package"@, "publish"@]);
    let publish = toml_bool_at(content, keys.as_slice());
    Ok(!matches!(publish, Some(false)))
}

/// The `version` of a `package.json`.
pub fn read_package_json_version(content: &str) -> (r: Result<String, ManifestFieldError>)
    ensures
        !json_document_parses(encode_utf8(content@)) ==> r == Err::<String, ManifestFieldError>(
            ManifestFieldError::NotParsed,
        ),
        json_document_parses(encode_utf8(content@)) ==> match json_field_string(content@, "version"@) {
            Some(v) => r matches Ok(s) && s@ == v,
            None => r == Err::<String, ManifestFieldError>(ManifestFieldError::Missing),
        },
{
    if parse_json_document(content.as_bytes()).is_none() {
        return Err(ManifestFieldError::NotParsed);
    }
    match json_string_field(content, "version") {
        Some(s) => Ok(s),
        None => Err(ManifestFieldError::Missing),
    }
}

/// Whether a directory under `engine/crates/` holds one of the project's
/// crates: its name starts with `wavecraft-`.
pub fn is_engine_crate_dir(name: &str) -> (r: bool)
    ensures
        r == "wavecraft-"@.is_prefix_of(name@),
{
    starts_with(name, "wavecraft-")
}

/// A publishable engine crate and its manifest.
#[derive(Debug, Clone)]
pub struct RustCrate {
    pub name: String,
    pub manifest_path: String,
}

impl Keyed for RustCrate {
    open spec fn key_view(&self) -> Seq<char> {
        self.name@
    }

    fn key(&self) -> (k: &str) {
        self.name.as_str()
    }
}

/// The publishable crates in name order.
pub fn sort_crates(crates: Vec<RustCrate>) -> (sorted: Vec<RustCrate>)
    ensures
        sorted@.to_multiset() == crates@.to_multiset(),
        sorted@.len() == crates@.len(),
        sorted_by_key(sorted@),
{
    sort_by_key(crates)
}

} // verus!
