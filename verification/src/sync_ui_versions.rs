//! Alignment of the scoped UI package versions.
//!
//! Exactly five keys in three package manifests are kept in lockstep: the
//! `version` of `@wavecraft/core` and `@wavecraft/components`, and the caret
//! ranges on `@wavecraft/core` and `@wavecraft/components` that the other
//! manifests declare. The target version is the greater of the two package
//! versions; semver policy decides which movements toward it are allowed.

use vstd::prelude::*;
use vstd::utf8::encode_utf8;

use crate::json_codec::{
    json_document_parses,
    json_reparses,
    json_strings,
    string_in,
    json_pointer_string,
    parse_json_document,
    pretty_json,
    set_string_at_pointer,
    string_at_pointer,
};
use crate::scoped_json::{
    apply_scoped_string_update,
    decode_segment,
    lemma_segments_diverge_at,
    pointer_segments,
    pointers_diverge,
    scoped_update,
    ScopedStringUpdate,
    ScopedUpdateError,
    UpdateOutcome,
};
use crate::text::{
    lemma_replace_pair_absent,
    lemma_replace_pair_first,
    lemma_split_on_concat,
    lemma_split_on_no_sep,
    push_str,
    split_on,
};
use crate::version::{render, render_caret, semver_order, semver_parsed, ParsedVersion, VersionView};

verus! {

pub const CORE_REL_PATH: &'static str = "ui/packages/core/package.json";
pub const COMPONENTS_REL_PATH: &'static str = "ui/packages/components/package.json";
pub const TEMPLATE_REL_PATH: &'static str = "sdk-template/ui/package.json";

pub const CORE_VERSION_PTR: &'static str = "/version";
pub const COMPONENTS_VERSION_PTR: &'static str = "/version";
pub const COMPONENTS_PEER_CORE_PTR: &'static str = "/peerDependencies/@wavecraft~1core";
pub const TEMPLATE_DEP_CORE_PTR: &'static str = "/dependencies/@wavecraft~1core";
pub const TEMPLATE_DEP_COMPONENTS_PTR: &'static str = "/dependencies/@wavecraft~1components";

pub const VERSION_KEY: &'static str = "version";
pub const PEER_CORE_KEY: &'static str = "peerDependencies[@wavecraft/core]";
pub const DEP_CORE_KEY: &'static str = "dependencies[@wavecraft/core]";
pub const DEP_COMPONENTS_KEY: &'static str = "dependencies[@wavecraft/components]";

/// Command mode.
#[derive(Debug, Clone, Copy, PartialEq, Eq, Structural)]
pub enum SyncMode {
    /// Non-mutating drift detection mode.
    Check,
    /// Mutating alignment mode.
    Apply,
}

/// Configuration for sync-ui-versions.
#[derive(Debug, Clone, Copy)]
pub struct SyncUiVersionsConfig {
    /// Command mode.
    pub mode: SyncMode,
    /// Allow minor updates in addition to patch updates.
    pub allow_minor: bool,
    /// Allow major updates (and therefore minor + patch).
    pub allow_major: bool,
    /// Show additional diagnostics.
    pub verbose: bool,
}

/// How far a version has to move to reach the target.
#[derive(Debug, Clone, Copy, PartialEq, Eq, Structural)]
pub enum VersionMovement {
    Unchanged,
    Patch,
    Minor,
    Major,
}

/// The five scoped versions read from the three manifests.
pub struct LoadedState {
    pub core_version: ParsedVersion,
    pub components_version: ParsedVersion,
    pub components_peer_core: ParsedVersion,
    pub template_dep_core: ParsedVersion,
    pub template_dep_components: ParsedVersion,
}

impl LoadedState {
    /// The five scoped versions, in manifest order.
    pub open spec fn views(&self) -> Seq<VersionView> {
        seq![
            self.core_version@,
            self.components_version@,
            self.components_peer_core@,
            self.template_dep_core@,
            self.template_dep_components@,
        ]
    }
}

/// The aligned state every scoped key must reach.
pub struct ExpectedState {
    pub target_version: ParsedVersion,
    pub target_caret: String,
}

/// One scoped key whose current text differs from the expected text.
#[derive(Debug)]
pub struct Drift {
    pub file: String,
    pub key: String,
    pub current: String,
    pub expected: String,
}

impl Drift {
    pub open spec fn view(&self) -> (Seq<char>, Seq<char>, Seq<char>, Seq<char>) {
        (self.file@, self.key@, self.current@, self.expected@)
    }
}

/// A movement toward the target that the policy refuses.
#[derive(Debug)]
pub struct PolicyViolation {
    pub file: String,
    pub key: String,
    pub movement: VersionMovement,
    pub from: String,
    pub to: String,
}

/// The scoped replacements to make in each manifest.
#[derive(Debug)]
pub struct ApplyPlan {
    pub core_updates: Vec<ScopedStringUpdate>,
    pub components_updates: Vec<ScopedStringUpdate>,
    pub template_updates: Vec<ScopedStringUpdate>,
}

/// The manifest of each scoped key, in order.
pub open spec fn scoped_files() -> Seq<Seq<char>> {
    seq![
        CORE_REL_PATH@,
        COMPONENTS_REL_PATH@,
        COMPONENTS_REL_PATH@,
        TEMPLATE_REL_PATH@,
        TEMPLATE_REL_PATH@,
    ]
}

/// The name of each scoped key, in order.
pub open spec fn scoped_keys() -> Seq<Seq<char>> {
    seq![VERSION_KEY@, VERSION_KEY@, PEER_CORE_KEY@, DEP_CORE_KEY@, DEP_COMPONENTS_KEY@]
}

/// The JSON pointer of each scoped key, in order.
pub open spec fn scoped_pointers() -> Seq<Seq<char>> {
    seq![
        CORE_VERSION_PTR@,
        COMPONENTS_VERSION_PTR@,
        COMPONENTS_PEER_CORE_PTR@,
        TEMPLATE_DEP_CORE_PTR@,
        TEMPLATE_DEP_COMPONENTS_PTR@,
    ]
}

/// The text a scoped key holds for a version: the two package versions are
/// plain versions, the three dependency ranges are caret ranges.
pub open spec fn field_text(k: int, v: VersionView) -> Seq<char> {
    if k < 2 {
        render(v)
    } else {
        render_caret(v)
    }
}

/// How far `from` must move to become `to`.
pub open spec fn movement_of(from: VersionView, to: VersionView) -> VersionMovement {
    if from == to {
        VersionMovement::Unchanged
    } else if from.0 != to.0 {
        VersionMovement::Major
    } else if from.1 != to.1 {
        VersionMovement::Minor
    } else {
        VersionMovement::Patch
    }
}

/// Whether the policy lets a version move this far.
pub open spec fn allowed(m: VersionMovement, allow_minor: bool, allow_major: bool) -> bool {
    match m {
        VersionMovement::Unchanged => true,
        VersionMovement::Patch => true,
        VersionMovement::Minor => allow_minor || allow_major,
        VersionMovement::Major => allow_major,
    }
}

/// The greater of two versions, as `std::cmp::max` picks it: the second
/// one unless the first compares greater.
pub open spec fn max_version(a: VersionView, b: VersionView) -> VersionView {
    if semver_order(a, b) == 1 {
        a
    } else {
        b
    }
}

/// The target of a loaded state: the greater of the two package versions.
pub open spec fn target_of(views: Seq<VersionView>) -> VersionView {
    max_version(views[0], views[1])
}

/// The refused transitions among the first `n` scoped keys, in order, as
/// (file, key, movement, from).
pub open spec fn violations_upto(
    views: Seq<VersionView>,
    target: VersionView,
    allow_minor: bool,
    allow_major: bool,
    n: nat,
) -> Seq<(Seq<char>, Seq<char>, VersionMovement, VersionView)>
    decreases n,
{
    if n == 0 {
        seq![]
    } else {
        let prev = violations_upto(views, target, allow_minor, allow_major, (n - 1) as nat);
        let k = n - 1;
        let m = movement_of(views[k], target);
        if allowed(m, allow_minor, allow_major) {
            prev
        } else {
            prev.push((scoped_files()[k], scoped_keys()[k], m, views[k]))
        }
    }
}

/// Among the first `n` scoped keys, each one whose movement to the target
/// the policy refuses is listed, with its file, key, movement and version.
pub proof fn lemma_refused_key_listed(
    views: Seq<VersionView>,
    target: VersionView,
    allow_minor: bool,
    allow_major: bool,
    n: nat,
    k: int,
)
    requires
        0 <= k < n,
        !allowed(movement_of(views[k], target), allow_minor, allow_major),
    ensures
        exists|i: int|
            0 <= i < violations_upto(views, target, allow_minor, allow_major, n).len()
                && #[trigger] violations_upto(views, target, allow_minor, allow_major, n)[i] == (
                scoped_files()[k],
                scoped_keys()[k],
                movement_of(views[k], target),
                views[k],
            ),
    decreases n,
{
    let prev = violations_upto(views, target, allow_minor, allow_major, (n - 1) as nat);
    let cur = violations_upto(views, target, allow_minor, allow_major, n);
    if k == n - 1 {
        assert(cur[prev.len() as int] == (
            scoped_files()[k],
            scoped_keys()[k],
            movement_of(views[k], target),
            views[k],
        ));
    } else {
        lemma_refused_key_listed(views, target, allow_minor, allow_major, (n - 1) as nat, k);
        let i = choose|i: int|
            0 <= i < prev.len() && #[trigger] prev[i] == (
                scoped_files()[k],
                scoped_keys()[k],
                movement_of(views[k], target),
                views[k],
            );
        assert(cur[i] == prev[i]);
    }
}

/// The policy gate: every scoped key (both package versions and the three
/// caret dependency ranges alike) whose move to the target the policy does
/// not allow is reported as a violation, with its manifest, key, movement
/// and current version.
pub proof fn law_every_refused_move_is_a_violation(
    views: Seq<VersionView>,
    target: VersionView,
    allow_minor: bool,
    allow_major: bool,
    k: int,
)
    requires
        0 <= k < 5,
        !allowed(movement_of(views[k], target), allow_minor, allow_major),
    ensures
        violations_upto(views, target, allow_minor, allow_major, 5).len() > 0,
        exists|i: int|
            0 <= i < violations_upto(views, target, allow_minor, allow_major, 5).len()
                && #[trigger] violations_upto(views, target, allow_minor, allow_major, 5)[i] == (
                scoped_files()[k],
                scoped_keys()[k],
                movement_of(views[k], target),
                views[k],
            ),
{
    lemma_refused_key_listed(views, target, allow_minor, allow_major, 5, k);
}

/// The drifted keys among the first `n`, in order, as
/// (file, key, current text, expected text).
pub open spec fn drifts_upto(
    views: Seq<VersionView>,
    version_text: Seq<char>,
    caret_text: Seq<char>,
    n: nat,
) -> Seq<(Seq<char>, Seq<char>, Seq<char>, Seq<char>)>
    decreases n,
{
    if n == 0 {
        seq![]
    } else {
        let prev = drifts_upto(views, version_text, caret_text, (n - 1) as nat);
        let k = n - 1;
        let current = field_text(k, views[k]);
        let expected = if k < 2 {
            version_text
        } else {
            caret_text
        };
        if current == expected {
            prev
        } else {
            prev.push((scoped_files()[k], scoped_keys()[k], current, expected))
        }
    }
}

/// Human-readable label for a mode.
pub fn mode_label(mode: SyncMode) -> (label: &'static str)
    ensures
        label@ == (match mode {
            SyncMode::Check => "check"@,
            SyncMode::Apply => "apply"@,
        }),
{
    match mode {
        SyncMode::Check => "check",
        SyncMode::Apply => "apply",
    }
}

/// Human-readable label for a movement.
pub fn movement_label(movement: VersionMovement) -> (label: &'static str)
    ensures
        label@ == (match movement {
            VersionMovement::Unchanged => "none"@,
            VersionMovement::Patch => "patch"@,
            VersionMovement::Minor => "minor"@,
            VersionMovement::Major => "major"@,
        }),
{
    match movement {
        VersionMovement::Unchanged => "none",
        VersionMovement::Patch => "patch",
        VersionMovement::Minor => "minor",
        VersionMovement::Major => "major",
    }
}

/// How far `from` must move to become `to`.
pub fn classify_movement(from: &ParsedVersion, to: &ParsedVersion) -> (m: VersionMovement)
    ensures
        m == movement_of(from@, to@),
{
    if from.same_as(to) {
        return VersionMovement::Unchanged;
    }
    if from.major() != to.major() {
        return VersionMovement::Major;
    }
    if from.minor() != to.minor() {
        return VersionMovement::Minor;
    }
    VersionMovement::Patch
}

/// Whether the configured policy lets a version move this far.
pub fn movement_allowed(movement: VersionMovement, config: SyncUiVersionsConfig) -> (ok: bool)
    ensures
        ok == allowed(movement, config.allow_minor, config.allow_major),
{
    match movement {
        VersionMovement::Unchanged => true,
        VersionMovement::Patch => true,
        VersionMovement::Minor => config.allow_minor || config.allow_major,
        VersionMovement::Major => config.allow_major,
    }
}

/// Parses a plain version such as `0.7.29`.
pub fn parse_semver(raw: &str) -> (v: Option<ParsedVersion>)
    ensures
        match v {
            Some(v) => crate::version::semver_parsed(raw@) == Some(v@),
            None => crate::version::semver_parsed(raw@) is None,
        },
{
    ParsedVersion::parse(raw)
}

/// Parses a caret baseline such as `^0.7.29` into its version: `None` when
/// the text does not start with `^` or the rest is not a version.
pub fn parse_caret_baseline(raw: &str) -> (v: Option<ParsedVersion>)
    ensures
        raw@.len() == 0 || raw@[0] != '^' ==> v is None,
        raw@.len() > 0 && raw@[0] == '^' ==> match v {
            Some(v) => crate::version::semver_parsed(raw@.drop_first()) == Some(v@),
            None => crate::version::semver_parsed(raw@.drop_first()) is None,
        },
{
    let chars = crate::text::chars_of(raw);
    if chars.len() == 0 || chars[0] != '^' {
        return None;
    }
    let rest = crate::text::string_from_chars(&chars.as_slice()[1..chars.len()]);
    assert(rest@ =~= raw@.drop_first());
    ParsedVersion::parse(rest.as_str())
}

/// The target version and, when the policy refuses a movement toward it,
/// every refused movement in manifest order.
pub fn compute_expected(loaded: &LoadedState, config: SyncUiVersionsConfig) -> (r: Result<
    ExpectedState,
    Vec<PolicyViolation>,
>)
    ensures
        ({
            let target = target_of(loaded.views());
            let blocked = violations_upto(
                loaded.views(),
                target,
                config.allow_minor,
                config.allow_major,
                5,
            );
            &&& r is Ok <==> blocked.len() == 0
            &&& r matches Ok(e) ==> e.target_version@ == target && e.target_caret@ == render_caret(
                target,
            )
            &&& r matches Err(v) ==> v@.len() == blocked.len() && forall|i: int|
                0 <= i < blocked.len() ==> {
                    &&& (#[trigger] v@[i]).file@ == blocked[i].0
                    &&& v@[i].key@ == blocked[i].1
                    &&& v@[i].movement == blocked[i].2
                    &&& v@[i].from@ == render(blocked[i].3)
                    &&& v@[i].to@ == render(target)
                }
            &&& forall|k: int|
                0 <= k < 5 && !allowed(
                    movement_of(loaded.views()[k], target),
                    config.allow_minor,
                    config.allow_major,
                ) ==> (r matches Err(v) && exists|i: int|
                    0 <= i < v@.len() && (#[trigger] v@[i]).file@ == scoped_files()[k]
                        && v@[i].key@ == scoped_keys()[k] && v@[i].movement == movement_of(
                        loaded.views()[k],
                        target,
                    ) && v@[i].from@ == render(loaded.views()[k]))
        }),
{
    let target = if loaded.core_version.order(&loaded.components_version) == 1 {
        loaded.core_version.duplicate()
    } else {
        loaded.components_version.duplicate()
    };
    let ghost views = loaded.views();
    let ghost tv = target@;
    let transitions: [(&ParsedVersion, &str, &str); 5] = [
        (&loaded.core_version, CORE_REL_PATH, VERSION_KEY),
        (&loaded.components_version, COMPONENTS_REL_PATH, VERSION_KEY),
        (&loaded.components_peer_core, COMPONENTS_REL_PATH, PEER_CORE_KEY),
        (&loaded.template_dep_core, TEMPLATE_REL_PATH, DEP_CORE_KEY),
        (&loaded.template_dep_components, TEMPLATE_REL_PATH, DEP_COMPONENTS_KEY),
    ];
    let target_text = target.to_string();
    let mut violations: Vec<PolicyViolation> = Vec::new();
    let mut i: usize = 0;
    while i < 5
        invariant
            i <= 5,
            views == loaded.views(),
            tv == target@,
            tv == target_of(views),
            target_text@ == render(tv),
            forall|k: int|
                0 <= k < 5 ==> (#[trigger] transitions@[k]).0@ == views[k] && transitions@[k].1@
                    == scoped_files()[k] && transitions@[k].2@ == scoped_keys()[k],
            ({
                let blocked = violations_upto(
                    views,
                    tv,
                    config.allow_minor,
                    config.allow_major,
                    i as nat,
                );
                &&& violations@.len() == blocked.len()
                &&& forall|j: int|
                    0 <= j < blocked.len() ==> {
                        &&& (#[trigger] violations@[j]).file@ == blocked[j].0
                        &&& violations@[j].key@ == blocked[j].1
                        &&& violations@[j].movement == blocked[j].2
                        &&& violations@[j].from@ == render(blocked[j].3)
                        &&& violations@[j].to@ == render(tv)
                    }
            }),
        decreases 5 - i,
    {
        let (from, file, key) = transitions[i];
        let movement = classify_movement(from, &target);
        if !movement_allowed(movement, config) {
            violations.push(
                PolicyViolation {
                    file: (*file).to_string(),
                    key: (*key).to_string(),
                    movement,
                    from: from.to_string(),
                    to: target_text.clone(),
                },
            );
        }
        i += 1;
    }
    proof {
        assert forall|k: int|
            0 <= k < 5 && !allowed(
                movement_of(views[k], tv),
                config.allow_minor,
                config.allow_major,
            ) implies exists|i: int|
            0 <= i < violations@.len() && (#[trigger] violations@[i]).file@ == scoped_files()[k]
                && violations@[i].key@ == scoped_keys()[k] && violations@[i].movement
                == movement_of(views[k], tv) && violations@[i].from@ == render(views[k]) by {
            law_every_refused_move_is_a_violation(
                views,
                tv,
                config.allow_minor,
                config.allow_major,
                k,
            );
            let blocked = violations_upto(views, tv, config.allow_minor, config.allow_major, 5);
            let i = choose|i: int|
                0 <= i < blocked.len() && #[trigger] blocked[i] == (
                    scoped_files()[k],
                    scoped_keys()[k],
                    movement_of(views[k], tv),
                    views[k],
                );
            assert(violations@[i].file@ == blocked[i].0);
        }
    }
    if violations.len() > 0 {
        return Err(violations);
    }
    let target_caret = target.to_caret_string();
    Ok(ExpectedState { target_version: target, target_caret })
}

/// The error text for refused movements, one line per movement, followed by
/// the hint about `--allow-minor` and `--allow-major`.
pub fn policy_error_message(violations: &[PolicyViolation]) -> (msg: String)
    ensures
        msg@ == policy_message_text(violations@),
{
    let mut msg = String::new();
    push_str(&mut msg, "Semver policy blocked required version movement:\n");
    let mut i: usize = 0;
    while i < violations.len()
        invariant
            i <= violations@.len(),
            msg@ == "Semver policy blocked required version movement:\n"@ + violation_lines(
                violations@.take(i as int),
            ),
        decreases violations@.len() - i,
    {
        let v = &violations[i];
        let ghost before = msg@;
        push_str(&mut msg, "  - ");
        push_str(&mut msg, v.file.as_str());
        push_str(&mut msg, "::");
        push_str(&mut msg, v.key.as_str());
        push_str(&mut msg, " requires ");
        push_str(&mut msg, movement_label(v.movement));
        push_str(&mut msg, " movement: ");
        push_str(&mut msg, v.from.as_str());
        push_str(&mut msg, " -> ");
        push_str(&mut msg, v.to.as_str());
        msg.push('\n');
        proof {
            assert(violations@.take(i + 1).drop_last() =~= violations@.take(i as int));
            assert(msg@ =~= before + violation_line(violations@[i as int]));
        }
        i += 1;
    }
    assert(violations@.take(violations@.len() as int) =~= violations@);
    push_str(
        &mut msg,
        "Pass --allow-minor to allow minor updates, or --allow-major to allow major updates.",
    );
    msg
}

/// One line of the policy error.
pub open spec fn violation_line(v: PolicyViolation) -> Seq<char> {
    "  - "@ + v.file@ + "::"@ + v.key@ + " requires "@ + movement_label_text(v.movement)
        + " movement: "@ + v.from@ + " -> "@ + v.to@ + seq!['\n']
}

pub open spec fn movement_label_text(m: VersionMovement) -> Seq<char> {
    match m {
        VersionMovement::Unchanged => "none"@,
        VersionMovement::Patch => "patch"@,
        VersionMovement::Minor => "minor"@,
        VersionMovement::Major => "major"@,
    }
}

/// All lines of the policy error, in order.
pub open spec fn violation_lines(vs: Seq<PolicyViolation>) -> Seq<char>
    decreases vs.len(),
{
    if vs.len() == 0 {
        seq![]
    } else {
        violation_lines(vs.drop_last()) + violation_line(vs.last())
    }
}

/// The whole policy error text.
pub open spec fn policy_message_text(vs: Seq<PolicyViolation>) -> Seq<char> {
    "Semver policy blocked required version movement:\n"@ + violation_lines(vs)
        + "Pass --allow-minor to allow minor updates, or --allow-major to allow major updates."@
}

/// The scoped keys whose current text differs from the expected text, in
/// manifest order.
pub fn compute_drifts(loaded: &LoadedState, expected: &ExpectedState) -> (drifts: Vec<Drift>)
    ensures
        ({
            let want = drifts_upto(
                loaded.views(),
                render(expected.target_version@),
                expected.target_caret@,
                5,
            );
            &&& drifts@.len() == want.len()
            &&& forall|i: int| 0 <= i < want.len() ==> (#[trigger] drifts@[i]).view() == want[i]
        }),
{
    let expected_version = expected.target_version.to_string();
    let ghost views = loaded.views();
    let ghost version_text = render(expected.target_version@);
    let ghost caret_text = expected.target_caret@;
    let checks: [(&str, &str, String, &String); 5] = [
        (CORE_REL_PATH, VERSION_KEY, loaded.core_version.to_string(), &expected_version),
        (COMPONENTS_REL_PATH, VERSION_KEY, loaded.components_version.to_string(), &expected_version),
        (
            COMPONENTS_REL_PATH,
            PEER_CORE_KEY,
            loaded.components_peer_core.to_caret_string(),
            &expected.target_caret,
        ),
        (
            TEMPLATE_REL_PATH,
            DEP_CORE_KEY,
            loaded.template_dep_core.to_caret_string(),
            &expected.target_caret,
        ),
        (
            TEMPLATE_REL_PATH,
            DEP_COMPONENTS_KEY,
            loaded.template_dep_components.to_caret_string(),
            &expected.target_caret,
        ),
    ];
    let mut drifts: Vec<Drift> = Vec::new();
    let mut i: usize = 0;
    while i < 5
        invariant
            i <= 5,
            views == loaded.views(),
            version_text == render(expected.target_version@),
            caret_text == expected.target_caret@,
            forall|k: int|
                0 <= k < 5 ==> {
                    &&& (#[trigger] checks@[k]).0@ == scoped_files()[k]
                    &&& checks@[k].1@ == scoped_keys()[k]
                    &&& checks@[k].2@ == field_text(k, views[k])
                    &&& checks@[k].3@ == (if k < 2 {
                        version_text
                    } else {
                        caret_text
                    })
                },
            ({
                let want = drifts_upto(views, version_text, caret_text, i as nat);
                &&& drifts@.len() == want.len()
                &&& forall|j: int| 0 <= j < want.len() ==> (#[trigger] drifts@[j]).view() == want[j]
            }),
        decreases 5 - i,
    {
        let (file, key, current, want) = &checks[i];
        if !crate::text::str_eq(current.as_str(), want.as_str()) {
            let d = Drift {
                file: (*file).to_string(),
                key: (*key).to_string(),
                current: current.clone(),
                expected: (*want).clone(),
            };
            drifts.push(d);
        }
        i += 1;
    }
    drifts
}

/// Whether a drift was reported for `key` in `file`.
pub fn drift_exists(drifts: &[Drift], file: &str, key: &str) -> (found: bool)
    ensures
        found == exists|i: int|
            0 <= i < drifts@.len() && (#[trigger] drifts@[i]).file@ == file@ && drifts@[i].key@
                == key@,
{
    let mut i: usize = 0;
    while i < drifts.len()
        invariant
            i <= drifts@.len(),
            forall|j: int|
                0 <= j < i ==> !((#[trigger] drifts@[j]).file@ == file@ && drifts@[j].key@
                    == key@),
        decreases drifts@.len() - i,
    {
        if crate::text::str_eq(drifts[i].file.as_str(), file) && crate::text::str_eq(
            drifts[i].key.as_str(),
            key,
        ) {
            return true;
        }
        i += 1;
    }
    false
}

/// The exit code of check mode: 0 when aligned, 1 when drift was found.
pub fn check_mode_exit_code(drifts: &[Drift]) -> (code: i32)
    ensures
        code == (if drifts@.len() == 0 {
            0i32
        } else {
            1i32
        }),
{
    if drifts.len() == 0 {
        0
    } else {
        1
    }
}

/// Why the scoped manifests could not be read.
#[derive(Debug)]
pub enum LoadError {
    /// A manifest is not a JSON document.
    ParseFailed { file: String },
    /// A scoped key is missing or does not hold a string.
    MissingKey { file: String, pointer: String },
    /// A scoped key does not hold a semantic version.
    InvalidSemver { file: String, key: String, raw: String },
    /// A dependency range is not a caret baseline such as `^0.7.29`.
    InvalidRange { file: String, key: String, raw: String },
}

/// Why a run failed (the caller maps these to exit code 2).
#[derive(Debug)]
pub enum SyncError {
    /// The manifests could not be read.
    Load(LoadError),
    /// The semver policy refuses some movement toward the target.
    PolicyBlocked(Vec<PolicyViolation>),
    /// A key vanished from a manifest's document while it was being updated.
    MissingForUpdate { pointer: String },
    /// A manifest needed a full rewrite and could not be serialized.
    SerializeFailed { file: String },
    /// Some scoped key still drifts after the manifests were written.
    DriftRemains,
    /// `core.version` and `components.version` differ after the write.
    LockstepViolated,
}

/// What a successful run produced.
#[derive(Debug)]
pub enum SyncOutcome {
    /// Check mode: the exit code and the drift that was found.
    Checked { exit_code: i32, drifts: Vec<Drift> },
    /// Apply mode: the new content of each manifest that changes.
    Applied { core: Option<Vec<u8>>, components: Option<Vec<u8>>, template: Option<Vec<u8>> },
}

/// The loaded versions together with the parsed manifest documents, which
/// a full rewrite falls back on.
pub struct LoadedManifests {
    pub state: LoadedState,
    pub core_json: serde_json::Value,
    pub components_json: serde_json::Value,
    pub template_json: serde_json::Value,
}

/// The three manifest documents as read from disk.
pub struct Manifests {
    pub core: Vec<u8>,
    pub components: Vec<u8>,
    pub template: Vec<u8>,
}

/// The text after a leading `^`, if there is one.
pub open spec fn strip_caret(raw: Seq<char>) -> Option<Seq<char>> {
    if raw.len() > 0 && raw[0] == '^' {
        Some(raw.drop_first())
    } else {
        None
    }
}

/// The version a scoped key's text stands for: the package versions are
/// plain versions, the dependency ranges caret baselines.
pub open spec fn field_version(k: int, raw: Seq<char>) -> Option<VersionView> {
    if k < 2 {
        semver_parsed(raw)
    } else {
        match strip_caret(raw) {
            Some(rest) => semver_parsed(rest),
            None => None,
        }
    }
}

/// Whether the text read for key `k` stands for a version.
pub open spec fn field_ok(k: int, raw: Option<Seq<char>>) -> bool {
    raw is Some && field_version(k, raw.unwrap()) is Some
}

/// The error reported for key `k` when its text does not stand for a version.
pub open spec fn field_error(k: int, raw: Option<Seq<char>>, e: LoadError) -> bool {
    match raw {
        None => e matches LoadError::MissingKey { file, pointer } && file@ == scoped_files()[k]
            && pointer@ == scoped_pointers()[k],
        Some(t) => if k < 2 {
            e matches LoadError::InvalidSemver { file, key, raw } && file@ == scoped_files()[k]
                && key@ == scoped_keys()[k] && raw@ == t
        } else {
            match strip_caret(t) {
                None => e matches LoadError::InvalidRange { file, key, raw } && file@
                    == scoped_files()[k] && key@ == scoped_keys()[k] && raw@ == t,
                Some(rest) => e matches LoadError::InvalidSemver { file, key, raw } && file@
                    == scoped_files()[k] && key@ == scoped_keys()[k] && raw@ == rest,
            }
        },
    }
}

/// The character view of an optional string.
pub open spec fn opt_chars(o: Option<String>) -> Option<Seq<char>> {
    match o {
        Some(s) => Some(s@),
        None => None,
    }
}

/// File, key and pointer of scoped key `k`.
fn scoped_entry(k: usize) -> (e: (&'static str, &'static str, &'static str))
    requires
        k < 5,
    ensures
        e.0@ == scoped_files()[k as int],
        e.1@ == scoped_keys()[k as int],
        e.2@ == scoped_pointers()[k as int],
{
    if k == 0 {
        (CORE_REL_PATH, VERSION_KEY, CORE_VERSION_PTR)
    } else if k == 1 {
        (COMPONENTS_REL_PATH, VERSION_KEY, COMPONENTS_VERSION_PTR)
    } else if k == 2 {
        (COMPONENTS_REL_PATH, PEER_CORE_KEY, COMPONENTS_PEER_CORE_PTR)
    } else if k == 3 {
        (TEMPLATE_REL_PATH, DEP_CORE_KEY, TEMPLATE_DEP_CORE_PTR)
    } else {
        (TEMPLATE_REL_PATH, DEP_COMPONENTS_KEY, TEMPLATE_DEP_COMPONENTS_PTR)
    }
}

/// Reads the version held by scoped key `k` from the text found there.
pub fn read_field(k: usize, raw: Option<String>) -> (r: Result<ParsedVersion, LoadError>)
    requires
        k < 5,
    ensures
        field_ok(k as int, opt_chars(raw)) <==> r is Ok,
        r matches Ok(v) ==> Some(v@) == field_version(k as int, opt_chars(raw).unwrap()),
        r matches Err(e) ==> field_error(k as int, opt_chars(raw), e),
{
    let (file, key, pointer) = scoped_entry(k);
    let text = match raw {
        Some(t) => t,
        None => {
            return Err(LoadError::MissingKey { file: file.to_string(), pointer: pointer.to_string() });
        },
    };
    if k < 2 {
        match parse_semver(text.as_str()) {
            Some(v) => Ok(v),
            None => Err(LoadError::InvalidSemver { file: file.to_string(), key: key.to_string(), raw: text }),
        }
    } else {
        let chars = crate::text::chars_of(text.as_str());
        if chars.len() == 0 || chars[0] != '^' {
            return Err(LoadError::InvalidRange { file: file.to_string(), key: key.to_string(), raw: text });
        }
        let rest = crate::text::string_from_chars(&chars.as_slice()[1..chars.len()]);
        assert(rest@ =~= text@.drop_first());
        match parse_semver(rest.as_str()) {
            Some(v) => Ok(v),
            None => Err(LoadError::InvalidSemver { file: file.to_string(), key: key.to_string(), raw: rest }),
        }
    }
}

/// Builds the loaded state from the five texts read at the scoped pointers,
/// in scope order; the first key whose text does not stand for a version
/// gives the error.
pub fn state_from_fields(
    core_version: Option<String>,
    components_version: Option<String>,
    components_peer_core: Option<String>,
    template_dep_core: Option<String>,
    template_dep_components: Option<String>,
) -> (r: Result<LoadedState, LoadError>)
    ensures
        ({
            let raws = seq![
                opt_chars(core_version),
                opt_chars(components_version),
                opt_chars(components_peer_core),
                opt_chars(template_dep_core),
                opt_chars(template_dep_components),
            ];
            &&& r is Ok <==> forall|k: int| 0 <= k < 5 ==> field_ok(k, #[trigger] raws[k])
            &&& r matches Ok(st) ==> forall|k: int|
                0 <= k < 5 ==> Some(#[trigger] st.views()[k]) == field_version(k, raws[k].unwrap())
            &&& r matches Err(e) ==> exists|k: int|
                0 <= k < 5 && (forall|j: int| 0 <= j < k ==> field_ok(j, #[trigger] raws[j]))
                    && !field_ok(k, #[trigger] raws[k]) && field_error(k, raws[k], e)
        }),
{
    let ghost raws = seq![
        opt_chars(core_version),
        opt_chars(components_version),
        opt_chars(components_peer_core),
        opt_chars(template_dep_core),
        opt_chars(template_dep_components),
    ];
    let a = match read_field(0, core_version) {
        Ok(v) => v,
        Err(e) => {
            assert(!field_ok(0, raws[0]));
            return Err(e);
        },
    };
    let b = match read_field(1, components_version) {
        Ok(v) => v,
        Err(e) => {
            assert(field_ok(0, raws[0]) && !field_ok(1, raws[1]));
            return Err(e);
        },
    };
    let c = match read_field(2, components_peer_core) {
        Ok(v) => v,
        Err(e) => {
            assert(field_ok(0, raws[0]) && field_ok(1, raws[1]) && !field_ok(2, raws[2]));
            return Err(e);
        },
    };
    let d = match read_field(3, template_dep_core) {
        Ok(v) => v,
        Err(e) => {
            assert(field_ok(0, raws[0]) && field_ok(1, raws[1]) && field_ok(2, raws[2])
                && !field_ok(3, raws[3]));
            return Err(e);
        },
    };
    let f = match read_field(4, template_dep_components) {
        Ok(v) => v,
        Err(e) => {
            assert(field_ok(0, raws[0]) && field_ok(1, raws[1]) && field_ok(2, raws[2])
                && field_ok(3, raws[3]) && !field_ok(4, raws[4]));
            return Err(e);
        },
    };
    let st = LoadedState {
        core_version: a,
        components_version: b,
        components_peer_core: c,
        template_dep_core: d,
        template_dep_components: f,
    };
    assert(forall|k: int| 0 <= k < 5 ==> field_ok(k, #[trigger] raws[k])) by {
        assert(field_ok(0, raws[0]) && field_ok(1, raws[1]) && field_ok(2, raws[2]) && field_ok(3, raws[3]) && field_ok(4, raws[4]));
    }
    Ok(st)
}

/// Whether all three manifests parse as JSON documents.
pub open spec fn all_parse(m: &Manifests) -> bool {
    json_document_parses(m.core@) && json_document_parses(m.components@)
        && json_document_parses(m.template@)
}

/// The manifest each scoped key is read from, in order.
pub open spec fn scoped_sources(m: &Manifests) -> Seq<Seq<u8>> {
    seq![m.core@, m.components@, m.components@, m.template@, m.template@]
}

/// The string each scoped key holds in the manifests, in order.
pub open spec fn manifest_raws(m: &Manifests) -> Seq<Option<Seq<char>>> {
    seq![
        json_pointer_string(m.core@, CORE_VERSION_PTR@),
        json_pointer_string(m.components@, COMPONENTS_VERSION_PTR@),
        json_pointer_string(m.components@, COMPONENTS_PEER_CORE_PTR@),
        json_pointer_string(m.template@, TEMPLATE_DEP_CORE_PTR@),
        json_pointer_string(m.template@, TEMPLATE_DEP_COMPONENTS_PTR@),
    ]
}

/// Whether every scoped key of the manifests holds a version.
pub open spec fn all_fields_ok(m: &Manifests) -> bool {
    forall|k: int| 0 <= k < 5 ==> field_ok(k, #[trigger] manifest_raws(m)[k])
}

/// The versions the scoped keys of the manifests stand for, in order.
pub open spec fn manifest_views(m: &Manifests) -> Seq<VersionView> {
    Seq::new(5, |k: int| field_version(k, manifest_raws(m)[k].unwrap()).unwrap())
}

/// Whether the loaded documents hold what the manifests hold: under each
/// pointer, the string that reading the manifest there gives.
pub open spec fn documents_match(lm: &LoadedManifests, m: &Manifests) -> bool {
    &&& json_reparses(lm.core_json)
    &&& json_reparses(lm.components_json)
    &&& json_reparses(lm.template_json)
    &&& forall|q: Seq<char>|
        #[trigger] string_in(json_strings(lm.core_json), q) == json_pointer_string(m.core@, q)
    &&& forall|q: Seq<char>|
        #[trigger] string_in(json_strings(lm.components_json), q) == json_pointer_string(
            m.components@,
            q,
        )
    &&& forall|q: Seq<char>|
        #[trigger] string_in(json_strings(lm.template_json), q) == json_pointer_string(
            m.template@,
            q,
        )
}

/// Reads the five scoped versions out of the three manifests. Parse errors
/// come first, in scope order; then the keys, in scope order.
pub fn load_state(m: &Manifests) -> (r: Result<LoadedManifests, LoadError>)
    ensures
        !json_document_parses(m.core@) ==> (r matches Err(LoadError::ParseFailed { file })
            && file@ == CORE_REL_PATH@),
        json_document_parses(m.core@) && !json_document_parses(m.components@) ==> (r matches Err(
            LoadError::ParseFailed { file },
        ) && file@ == COMPONENTS_REL_PATH@),
        json_document_parses(m.core@) && json_document_parses(m.components@)
            && !json_document_parses(m.template@) ==> (r matches Err(LoadError::ParseFailed { file })
            && file@ == TEMPLATE_REL_PATH@),
        all_parse(m) ==> !(r matches Err(LoadError::ParseFailed { .. })),
        r is Ok <==> all_parse(m) && all_fields_ok(m),
        r matches Ok(lm) ==> lm.state.views() == manifest_views(m),
        r matches Ok(lm) ==> documents_match(&lm, m),
        r matches Err(e) ==> !all_parse(m) || exists|k: int|
            0 <= k < 5 && (forall|j: int| 0 <= j < k ==> field_ok(j, #[trigger] manifest_raws(m)[j]))
                && !field_ok(k, #[trigger] manifest_raws(m)[k]) && field_error(
                k,
                manifest_raws(m)[k],
                e,
            ),
{
    let core_doc = match parse_json_document(m.core.as_slice()) {
        Some(d) => d,
        None => {
            return Err(LoadError::ParseFailed { file: CORE_REL_PATH.to_string() });
        },
    };
    let components_doc = match parse_json_document(m.components.as_slice()) {
        Some(d) => d,
        None => {
            return Err(LoadError::ParseFailed { file: COMPONENTS_REL_PATH.to_string() });
        },
    };
    let template_doc = match parse_json_document(m.template.as_slice()) {
        Some(d) => d,
        None => {
            return Err(LoadError::ParseFailed { file: TEMPLATE_REL_PATH.to_string() });
        },
    };
    let f0 = string_at_pointer(m.core.as_slice(), CORE_VERSION_PTR);
    let f1 = string_at_pointer(m.components.as_slice(), COMPONENTS_VERSION_PTR);
    let f2 = string_at_pointer(m.components.as_slice(), COMPONENTS_PEER_CORE_PTR);
    let f3 = string_at_pointer(m.template.as_slice(), TEMPLATE_DEP_CORE_PTR);
    let f4 = string_at_pointer(m.template.as_slice(), TEMPLATE_DEP_COMPONENTS_PTR);
    let ghost raws = seq![opt_chars(f0), opt_chars(f1), opt_chars(f2), opt_chars(f3), opt_chars(f4)];
    assert(raws =~= manifest_raws(m));
    let r = state_from_fields(f0, f1, f2, f3, f4);
    proof {
        if r is Ok {
            let st = r->Ok_0;
            assert(st.views() =~= manifest_views(m)) by {
                assert forall|k: int| 0 <= k < 5 implies #[trigger] st.views()[k] == manifest_views(m)[k] by {
                    assert(Some(st.views()[k]) == field_version(k, raws[k].unwrap()));
                }
            }
        }
    }
    match r {
        Ok(state) => Ok(
            LoadedManifests {
                state,
                core_json: core_doc,
                components_json: components_doc,
                template_json: template_doc,
            },
        ),
        Err(e) => Err(e),
    }
}

/// The text scoped key `k` must hold once aligned.
pub open spec fn expected_text(k: int, version_text: Seq<char>, caret_text: Seq<char>) -> Seq<char> {
    if k < 2 {
        version_text
    } else {
        caret_text
    }
}

/// Whether scoped key `k` drifts from its aligned text.
pub open spec fn drifted(
    views: Seq<VersionView>,
    version_text: Seq<char>,
    caret_text: Seq<char>,
    k: int,
) -> bool {
    field_text(k, views[k]) != expected_text(k, version_text, caret_text)
}

/// Whether a list of drifts names `key` in `file`.
pub open spec fn names_drift(
    ds: Seq<(Seq<char>, Seq<char>, Seq<char>, Seq<char>)>,
    file: Seq<char>,
    key: Seq<char>,
) -> bool {
    exists|i: int| 0 <= i < ds.len() && (#[trigger] ds[i]).0 == file && ds[i].1 == key
}

/// No two scoped keys share both their manifest and their name.
pub proof fn lemma_scoped_keys_distinct()
    ensures
        forall|a: int, b: int|
            0 <= a < 5 && 0 <= b < 5 && a != b ==> #[trigger] scoped_files()[a] != #[trigger] scoped_files()[b]
                || scoped_keys()[a] != scoped_keys()[b],
{
    reveal_strlit("ui/packages/core/package.json");
    reveal_strlit("ui/packages/components/package.json");
    reveal_strlit("sdk-template/ui/package.json");
    reveal_strlit("version");
    reveal_strlit("peerDependencies[@wavecraft/core]");
    reveal_strlit("dependencies[@wavecraft/core]");
    reveal_strlit("dependencies[@wavecraft/components]");
    assert(CORE_REL_PATH@.len() != COMPONENTS_REL_PATH@.len());
    assert(CORE_REL_PATH@.len() != TEMPLATE_REL_PATH@.len());
    assert(COMPONENTS_REL_PATH@.len() != TEMPLATE_REL_PATH@.len());
    assert(VERSION_KEY@.len() != PEER_CORE_KEY@.len());
    assert(DEP_CORE_KEY@.len() != DEP_COMPONENTS_KEY@.len());
}

/// The decoded segment of a pointer piece without `~`.
proof fn lemma_decode_plain(seg: Seq<char>)
    requires
        !seg.contains('~'),
    ensures
        decode_segment(seg) == seg,
{
    lemma_replace_pair_absent(seg, '~', '1', '/');
    lemma_replace_pair_absent(seg, '~', '0', '~');
}

/// The decoded segment `u/v` of a piece `u~1v`, where neither side holds `~`.
proof fn lemma_decode_slash(u: Seq<char>, v: Seq<char>)
    requires
        !u.contains('~'),
        !v.contains('~'),
    ensures
        decode_segment(u + seq!['~', '1'] + v) == u + seq!['/'] + v,
{
    lemma_replace_pair_first(u, v, '~', '1', '/');
    lemma_replace_pair_absent(v, '~', '1', '/');
    let w = u + seq!['/'] + v;
    assert(!w.contains('~')) by {
        if w.contains('~') {
            let i = choose|i: int| 0 <= i < w.len() && w[i] == '~';
            if i < u.len() {
                assert(u[i] == '~');
            } else if i > u.len() {
                assert(v[i - u.len() - 1] == '~');
            }
        }
    }
    lemma_replace_pair_absent(w, '~', '0', '~');
}

/// The decoded segments of the package manifests' scoped pointers.
pub proof fn lemma_package_pointer_segments()
    ensures
        pointer_segments(""@) == Some(Seq::<Seq<char>>::empty()),
        pointer_segments(CORE_VERSION_PTR@) == Some(seq!["version"@]),
        pointer_segments("/peerDependencies"@) == Some(seq!["peerDependencies"@]),
        pointer_segments(COMPONENTS_PEER_CORE_PTR@) == Some(seq!["peerDependencies"@, "@wavecraft/core"@]),
{
    reveal_strlit("");
    reveal_strlit("/version");
    reveal_strlit("version");
    reveal_strlit("/peerDependencies");
    reveal_strlit("peerDependencies");
    reveal_strlit("@wavecraft/core");
    reveal_strlit("/peerDependencies/@wavecraft~1core");
    let version = seq!['v', 'e', 'r', 's', 'i', 'o', 'n'];
    let peer = seq!['p', 'e', 'e', 'r', 'D', 'e', 'p', 'e', 'n', 'd', 'e', 'n', 'c', 'i', 'e', 's'];
    let scope = seq!['@', 'w', 'a', 'v', 'e', 'c', 'r', 'a', 'f', 't'];
    let core = seq!['c', 'o', 'r', 'e'];
    let core_piece = scope + seq!['~', '1'] + core;
    assert(CORE_VERSION_PTR@.drop_first() =~= version);
    assert("/peerDependencies"@.drop_first() =~= peer);
    assert(COMPONENTS_PEER_CORE_PTR@.drop_first() =~= peer + seq!['/'] + core_piece);
    assert(!version.contains('/') && !version.contains('~')) by {
        assert(forall|i: int| 0 <= i < version.len() ==> version[i] != '/' && version[i] != '~');
    }
    assert(!peer.contains('/') && !peer.contains('~')) by {
        assert(forall|i: int| 0 <= i < peer.len() ==> peer[i] != '/' && peer[i] != '~');
    }
    assert(!scope.contains('/') && !scope.contains('~')) by {
        assert(forall|i: int| 0 <= i < scope.len() ==> scope[i] != '/' && scope[i] != '~');
    }
    assert(!core.contains('/') && !core.contains('~')) by {
        assert(forall|i: int| 0 <= i < core.len() ==> core[i] != '/' && core[i] != '~');
    }
    assert(!core_piece.contains('/')) by {
        if core_piece.contains('/') {
            let i = choose|i: int| 0 <= i < core_piece.len() && core_piece[i] == '/';
            if i < 10 {
                assert(scope[i] == '/');
            } else if i >= 12 {
                assert(core[i - 12] == '/');
            }
        }
    }
    lemma_split_on_no_sep(version, '/');
    lemma_split_on_no_sep(peer, '/');
    lemma_split_on_no_sep(core_piece, '/');
    lemma_split_on_concat(peer, core_piece, '/');
    lemma_decode_plain(version);
    lemma_decode_plain(peer);
    lemma_decode_slash(scope, core);
    assert(version =~= "version"@);
    assert(peer =~= "peerDependencies"@);
    assert(scope + seq!['/'] + core =~= "@wavecraft/core"@);
    assert(split_on(version, '/').map_values(|seg: Seq<char>| decode_segment(seg)) =~= seq!["version"@]);
    assert(split_on(peer, '/').map_values(|seg: Seq<char>| decode_segment(seg)) =~= seq!["peerDependencies"@]);
    assert(split_on(peer + seq!['/'] + core_piece, '/').map_values(|seg: Seq<char>| decode_segment(seg))
        =~= seq!["peerDependencies"@, "@wavecraft/core"@]);
}

/// The decoded segments of the template manifest's dependency pointers.
pub proof fn lemma_dependency_pointer_segments()
    ensures
        pointer_segments("/dependencies"@) == Some(seq!["dependencies"@]),
        pointer_segments(TEMPLATE_DEP_CORE_PTR@) == Some(seq!["dependencies"@, "@wavecraft/core"@]),
        pointer_segments(TEMPLATE_DEP_COMPONENTS_PTR@) == Some(
            seq!["dependencies"@, "@wavecraft/components"@],
        ),
{
    reveal_strlit("/dependencies");
    reveal_strlit("dependencies");
    reveal_strlit("@wavecraft/core");
    reveal_strlit("@wavecraft/components");
    reveal_strlit("/dependencies/@wavecraft~1core");
    reveal_strlit("/dependencies/@wavecraft~1components");
    let deps = seq!['d', 'e', 'p', 'e', 'n', 'd', 'e', 'n', 'c', 'i', 'e', 's'];
    let scope = seq!['@', 'w', 'a', 'v', 'e', 'c', 'r', 'a', 'f', 't'];
    let core = seq!['c', 'o', 'r', 'e'];
    let components = seq!['c', 'o', 'm', 'p', 'o', 'n', 'e', 'n', 't', 's'];
    let core_piece = scope + seq!['~', '1'] + core;
    let components_piece = scope + seq!['~', '1'] + components;
    assert("/dependencies"@.drop_first() =~= deps);
    assert(TEMPLATE_DEP_CORE_PTR@.drop_first() =~= deps + seq!['/'] + core_piece);
    assert(TEMPLATE_DEP_COMPONENTS_PTR@.drop_first() =~= deps + seq!['/'] + components_piece);
    assert(!deps.contains('/') && !deps.contains('~')) by {
        assert(forall|i: int| 0 <= i < deps.len() ==> deps[i] != '/' && deps[i] != '~');
    }
    assert(!scope.contains('/') && !scope.contains('~')) by {
        assert(forall|i: int| 0 <= i < scope.len() ==> scope[i] != '/' && scope[i] != '~');
    }
    assert(!core.contains('/') && !core.contains('~')) by {
        assert(forall|i: int| 0 <= i < core.len() ==> core[i] != '/' && core[i] != '~');
    }
    assert(!components.contains('/') && !components.contains('~')) by {
        assert(forall|i: int| 0 <= i < components.len() ==> components[i] != '/' && components[i]
            != '~');
    }
    assert(!core_piece.contains('/')) by {
        if core_piece.contains('/') {
            let i = choose|i: int| 0 <= i < core_piece.len() && core_piece[i] == '/';
            if i < 10 {
                assert(scope[i] == '/');
            } else if i >= 12 {
                assert(core[i - 12] == '/');
            }
        }
    }
    assert(!components_piece.contains('/')) by {
        if components_piece.contains('/') {
            let i = choose|i: int| 0 <= i < components_piece.len() && components_piece[i] == '/';
            if i < 10 {
                assert(scope[i] == '/');
            } else if i >= 12 {
                assert(components[i - 12] == '/');
            }
        }
    }
    lemma_split_on_no_sep(deps, '/');
    lemma_split_on_no_sep(core_piece, '/');
    lemma_split_on_no_sep(components_piece, '/');
    lemma_split_on_concat(deps, core_piece, '/');
    lemma_split_on_concat(deps, components_piece, '/');
    lemma_decode_plain(deps);
    lemma_decode_slash(scope, core);
    lemma_decode_slash(scope, components);
    assert(scope + seq!['/'] + core =~= "@wavecraft/core"@);
    assert(scope + seq!['/'] + components =~= "@wavecraft/components"@);
    assert(deps =~= "dependencies"@);
    assert(split_on(deps, '/').map_values(|seg: Seq<char>| decode_segment(seg)) =~= seq!["dependencies"@]);
    assert(split_on(deps + seq!['/'] + core_piece, '/').map_values(|seg: Seq<char>| decode_segment(seg))
        =~= seq!["dependencies"@, "@wavecraft/core"@]);
    assert(split_on(deps + seq!['/'] + components_piece, '/').map_values(
        |seg: Seq<char>| decode_segment(seg),
    ) =~= seq!["dependencies"@, "@wavecraft/components"@]);
}

/// The two scoped pointers of a manifest reach disjoint places.
pub proof fn lemma_scoped_pointers_diverge()
    ensures
        pointers_diverge(COMPONENTS_VERSION_PTR@, COMPONENTS_PEER_CORE_PTR@),
        pointers_diverge(COMPONENTS_PEER_CORE_PTR@, COMPONENTS_VERSION_PTR@),
        pointers_diverge(TEMPLATE_DEP_CORE_PTR@, TEMPLATE_DEP_COMPONENTS_PTR@),
        pointers_diverge(TEMPLATE_DEP_COMPONENTS_PTR@, TEMPLATE_DEP_CORE_PTR@),
{
    reveal_strlit("/version");
    reveal_strlit("/peerDependencies/@wavecraft~1core");
    reveal_strlit("/dependencies/@wavecraft~1core");
    reveal_strlit("/dependencies/@wavecraft~1components");
    let version = seq!['v', 'e', 'r', 's', 'i', 'o', 'n'];
    let peer = seq!['p', 'e', 'e', 'r', 'D', 'e', 'p', 'e', 'n', 'd', 'e', 'n', 'c', 'i', 'e', 's'];
    let deps = seq!['d', 'e', 'p', 'e', 'n', 'd', 'e', 'n', 'c', 'i', 'e', 's'];
    let scope = seq!['@', 'w', 'a', 'v', 'e', 'c', 'r', 'a', 'f', 't'];
    let core = seq!['c', 'o', 'r', 'e'];
    let components = seq!['c', 'o', 'm', 'p', 'o', 'n', 'e', 'n', 't', 's'];
    let core_piece = scope + seq!['~', '1'] + core;
    let components_piece = scope + seq!['~', '1'] + components;
    assert(COMPONENTS_VERSION_PTR@.drop_first() =~= version);
    assert(COMPONENTS_PEER_CORE_PTR@.drop_first() =~= peer + seq!['/'] + core_piece);
    assert(TEMPLATE_DEP_CORE_PTR@.drop_first() =~= deps + seq!['/'] + core_piece);
    assert(TEMPLATE_DEP_COMPONENTS_PTR@.drop_first() =~= deps + seq!['/'] + components_piece);
    assert(!version.contains('/') && !version.contains('~')) by {
        assert(forall|i: int| 0 <= i < version.len() ==> version[i] != '/' && version[i] != '~');
    }
    assert(!peer.contains('/') && !peer.contains('~')) by {
        assert(forall|i: int| 0 <= i < peer.len() ==> peer[i] != '/' && peer[i] != '~');
    }
    assert(!deps.contains('/') && !deps.contains('~')) by {
        assert(forall|i: int| 0 <= i < deps.len() ==> deps[i] != '/' && deps[i] != '~');
    }
    assert(!scope.contains('/') && !scope.contains('~')) by {
        assert(forall|i: int| 0 <= i < scope.len() ==> scope[i] != '/' && scope[i] != '~');
    }
    assert(!core.contains('/') && !core.contains('~')) by {
        assert(forall|i: int| 0 <= i < core.len() ==> core[i] != '/' && core[i] != '~');
    }
    assert(!components.contains('/') && !components.contains('~')) by {
        assert(forall|i: int| 0 <= i < components.len() ==> components[i] != '/' && components[i]
            != '~');
    }
    assert(!core_piece.contains('/')) by {
        if core_piece.contains('/') {
            let i = choose|i: int| 0 <= i < core_piece.len() && core_piece[i] == '/';
            if i < 10 {
                assert(scope[i] == '/');
            } else if i >= 12 {
                assert(core[i - 12] == '/');
            }
        }
    }
    assert(!components_piece.contains('/')) by {
        if components_piece.contains('/') {
            let i = choose|i: int| 0 <= i < components_piece.len() && components_piece[i] == '/';
            if i < 10 {
                assert(scope[i] == '/');
            } else if i >= 12 {
                assert(components[i - 12] == '/');
            }
        }
    }
    lemma_split_on_no_sep(version, '/');
    lemma_split_on_no_sep(peer, '/');
    lemma_split_on_no_sep(deps, '/');
    lemma_split_on_no_sep(core_piece, '/');
    lemma_split_on_no_sep(components_piece, '/');
    lemma_split_on_concat(peer, core_piece, '/');
    lemma_split_on_concat(deps, core_piece, '/');
    lemma_split_on_concat(deps, components_piece, '/');
    lemma_decode_plain(version);
    lemma_decode_plain(peer);
    lemma_decode_slash(scope, core);
    lemma_decode_slash(scope, components);
    let a = pointer_segments(COMPONENTS_VERSION_PTR@).unwrap();
    let b = pointer_segments(COMPONENTS_PEER_CORE_PTR@).unwrap();
    assert(a[0] == version);
    assert(b[0] == peer);
    assert(a[0].len() != b[0].len());
    lemma_segments_diverge_at(a, b, 0);
    lemma_segments_diverge_at(b, a, 0);
    let c = pointer_segments(TEMPLATE_DEP_CORE_PTR@).unwrap();
    let d = pointer_segments(TEMPLATE_DEP_COMPONENTS_PTR@).unwrap();
    assert(c.len() == 2 && d.len() == 2);
    assert(c[1] == scope + seq!['/'] + core);
    assert(d[1] == scope + seq!['/'] + components);
    assert(c[1].len() != d[1].len());
    lemma_segments_diverge_at(c, d, 1);
    lemma_segments_diverge_at(d, c, 1);
}

/// A drift is reported for scoped key `k` among the first `n` exactly when
/// `k` is one of them and drifts.
proof fn lemma_drift_named(
    views: Seq<VersionView>,
    version_text: Seq<char>,
    caret_text: Seq<char>,
    n: nat,
    k: int,
)
    requires
        n <= 5,
        0 <= k < 5,
    ensures
        names_drift(
            drifts_upto(views, version_text, caret_text, n),
            scoped_files()[k],
            scoped_keys()[k],
        ) <==> (k < n && drifted(views, version_text, caret_text, k)),
    decreases n,
{
    let ds = drifts_upto(views, version_text, caret_text, n);
    if n > 0 {
        lemma_drift_named(views, version_text, caret_text, (n - 1) as nat, k);
        lemma_scoped_keys_distinct();
        let prev = drifts_upto(views, version_text, caret_text, (n - 1) as nat);
        let j = n - 1;
        if drifted(views, version_text, caret_text, j) {
            assert(ds == prev.push((scoped_files()[j], scoped_keys()[j], field_text(j, views[j]), expected_text(j, version_text, caret_text))));
            if names_drift(ds, scoped_files()[k], scoped_keys()[k]) {
                let i = choose|i: int| 0 <= i < ds.len() && (#[trigger] ds[i]).0 == scoped_files()[k] && ds[i].1 == scoped_keys()[k];
                if i < prev.len() {
                    assert(prev[i] == ds[i]);
                    assert(names_drift(prev, scoped_files()[k], scoped_keys()[k]));
                } else {
                    assert(ds[i].0 == scoped_files()[j]);
                }
            }
            if k == j {
                assert(ds[prev.len() as int].0 == scoped_files()[k]);
            } else if names_drift(prev, scoped_files()[k], scoped_keys()[k]) {
                let i = choose|i: int| 0 <= i < prev.len() && (#[trigger] prev[i]).0 == scoped_files()[k] && prev[i].1 == scoped_keys()[k];
                assert(ds[i] == prev[i]);
            }
        } else {
            assert(ds == prev);
        }
    }
}

/// Pointer, current text and expected text of a scoped update.
pub open spec fn update_view(u: ScopedStringUpdate) -> (Seq<char>, Seq<char>, Seq<char>) {
    (u.pointer@, u.current@, u.expected@)
}

/// The updates for the drifted keys among `ks`, in order.
pub open spec fn updates_for(
    ks: Seq<int>,
    views: Seq<VersionView>,
    version_text: Seq<char>,
    caret_text: Seq<char>,
) -> Seq<(Seq<char>, Seq<char>, Seq<char>)>
    decreases ks.len(),
{
    if ks.len() == 0 {
        seq![]
    } else {
        let prev = updates_for(ks.drop_last(), views, version_text, caret_text);
        let k = ks.last();
        if drifted(views, version_text, caret_text, k) {
            prev.push(
                (
                    scoped_pointers()[k],
                    field_text(k, views[k]),
                    expected_text(k, version_text, caret_text),
                ),
            )
        } else {
            prev
        }
    }
}

/// The scoped updates applied in order to a document; the first refusal
/// stops the sequence.
pub open spec fn apply_all(s: Seq<u8>, us: Seq<(Seq<char>, Seq<char>, Seq<char>)>) -> UpdateOutcome
    decreases us.len(),
{
    if us.len() == 0 {
        UpdateOutcome::Rewritten(s)
    } else {
        match apply_all(s, us.drop_last()) {
            UpdateOutcome::Failed(k) => UpdateOutcome::Failed(k),
            UpdateOutcome::Rewritten(t) => scoped_update(t, us.last().0, us.last().1, us.last().2),
        }
    }
}

/// The scoped update for key `k`, if it drifts.
fn push_update_if_drifted(
    out: &mut Vec<ScopedStringUpdate>,
    drifts: &[Drift],
    k: usize,
    current: String,
    expected: &String,
)
    requires
        k < 5,
        names_drift(drifts@.map_values(|d: Drift| d.view()), scoped_files()[k as int], scoped_keys()[k as int])
            == (current@ != expected@),
    ensures
        current@ != expected@ ==> final(out)@.map_values(|u: ScopedStringUpdate| update_view(u))
            == old(out)@.map_values(|u: ScopedStringUpdate| update_view(u)).push(
            (scoped_pointers()[k as int], current@, expected@),
        ),
        current@ == expected@ ==> final(out)@ == old(out)@,
{
    let (file, key, pointer) = scoped_entry(k);
    if drift_exists(drifts, file, key) {
        proof {
            let i = choose|i: int|
                0 <= i < drifts@.len() && (#[trigger] drifts@[i]).file@ == file@ && drifts@[i].key@ == key@;
            assert(drifts@.map_values(|d: Drift| d.view())[i].0 == file@);
        }
        out.push(ScopedStringUpdate { pointer: pointer.to_string(), current, expected: expected.clone() });
        assert(out@.map_values(|u: ScopedStringUpdate| update_view(u)) =~= old(out)@.map_values(
            |u: ScopedStringUpdate| update_view(u),
        ).push((scoped_pointers()[k as int], current@, expected@)));
    } else {
        proof {
            if current@ != expected@ {
                let ds = drifts@.map_values(|d: Drift| d.view());
                let i = choose|i: int| 0 <= i < ds.len() && (#[trigger] ds[i]).0 == scoped_files()[k as int] && ds[i].1 == scoped_keys()[k as int];
                assert(drifts@[i].file@ == file@ && drifts@[i].key@ == key@);
            }
        }
    }
}

/// The scoped updates for the drifted keys of each manifest, in scope order.
fn plan_scoped_updates(loaded: &LoadedState, expected: &ExpectedState, drifts: &[Drift]) -> (plan:
    ApplyPlan)
    requires
        drifts@.map_values(|d: Drift| d.view()) == drifts_upto(
            loaded.views(),
            render(expected.target_version@),
            expected.target_caret@,
            5,
        ),
    ensures
        ({
            let views = loaded.views();
            let vt = render(expected.target_version@);
            let ct = expected.target_caret@;
            &&& plan.core_updates@.map_values(|u: ScopedStringUpdate| update_view(u)) == updates_for(
                seq![0int],
                views,
                vt,
                ct,
            )
            &&& plan.components_updates@.map_values(|u: ScopedStringUpdate| update_view(u))
                == updates_for(seq![1int, 2int], views, vt, ct)
            &&& plan.template_updates@.map_values(|u: ScopedStringUpdate| update_view(u))
                == updates_for(seq![3int, 4int], views, vt, ct)
        }),
{
    let ghost views = loaded.views();
    let ghost ct = expected.target_caret@;
    let vt = expected.target_version.to_string();
    proof {
        lemma_drift_named(views, vt@, ct, 5, 0);
        lemma_drift_named(views, vt@, ct, 5, 1);
        lemma_drift_named(views, vt@, ct, 5, 2);
        lemma_drift_named(views, vt@, ct, 5, 3);
        lemma_drift_named(views, vt@, ct, 5, 4);
        assert(seq![0int].drop_last() =~= Seq::<int>::empty());
        assert(seq![1int, 2int].drop_last() =~= seq![1int]);
        assert(seq![1int].drop_last() =~= Seq::<int>::empty());
        assert(seq![3int, 4int].drop_last() =~= seq![3int]);
        assert(seq![3int].drop_last() =~= Seq::<int>::empty());
        reveal_with_fuel(updates_for, 3);
    }
    let mut core_updates: Vec<ScopedStringUpdate> = Vec::new();
    push_update_if_drifted(&mut core_updates, drifts, 0, loaded.core_version.to_string(), &vt);
    let mut components_updates: Vec<ScopedStringUpdate> = Vec::new();
    push_update_if_drifted(
        &mut components_updates,
        drifts,
        1,
        loaded.components_version.to_string(),
        &vt,
    );
    assert(components_updates@.map_values(|u: ScopedStringUpdate| update_view(u)) =~= updates_for(
        seq![1int],
        views,
        vt@,
        ct,
    ));
    push_update_if_drifted(
        &mut components_updates,
        drifts,
        2,
        loaded.components_peer_core.to_caret_string(),
        &expected.target_caret,
    );
    let mut template_updates: Vec<ScopedStringUpdate> = Vec::new();
    push_update_if_drifted(
        &mut template_updates,
        drifts,
        3,
        loaded.template_dep_core.to_caret_string(),
        &expected.target_caret,
    );
    assert(template_updates@.map_values(|u: ScopedStringUpdate| update_view(u)) =~= updates_for(
        seq![3int],
        views,
        vt@,
        ct,
    ));
    push_update_if_drifted(
        &mut template_updates,
        drifts,
        4,
        loaded.template_dep_components.to_caret_string(),
        &expected.target_caret,
    );
    assert(core_updates@.map_values(|u: ScopedStringUpdate| update_view(u)) =~= updates_for(
        seq![0int],
        views,
        vt@,
        ct,
    ));
    assert(components_updates@.map_values(|u: ScopedStringUpdate| update_view(u)) =~= updates_for(
        seq![1int, 2int],
        views,
        vt@,
        ct,
    ));
    assert(template_updates@.map_values(|u: ScopedStringUpdate| update_view(u)) =~= updates_for(
        seq![3int, 4int],
        views,
        vt@,
        ct,
    ));
    ApplyPlan { core_updates, components_updates, template_updates }
}

/// Once an update in the sequence is refused, the rest are never tried.
proof fn lemma_apply_all_failed_prefix(
    s: Seq<u8>,
    us: Seq<(Seq<char>, Seq<char>, Seq<char>)>,
    n: int,
)
    requires
        0 <= n <= us.len(),
        apply_all(s, us.take(n)) is Failed,
    ensures
        apply_all(s, us) == apply_all(s, us.take(n)),
    decreases us.len(),
{
    if n == us.len() {
        assert(us.take(n) =~= us);
    } else {
        assert(us.drop_last().take(n) =~= us.take(n));
        lemma_apply_all_failed_prefix(s, us.drop_last(), n);
    }
}

/// Applies scoped updates in order to a manifest's text: the new text when
/// it differs from the old one, `None` when nothing changed, or the first
/// refusal.
pub fn write_scoped_string_updates(current: &[u8], updates: &[ScopedStringUpdate]) -> (r: Result<
    Option<Vec<u8>>,
    ScopedUpdateError,
>)
    ensures
        match apply_all(current@, updates@.map_values(|u: ScopedStringUpdate| update_view(u))) {
            UpdateOutcome::Failed(kind) => r matches Err(e) && e.kind() == kind,
            UpdateOutcome::Rewritten(t) => r matches Ok(o) && (o is None <==> t == current@) && (o matches Some(v) ==> v@ == t),
        },
{
    let ghost us = updates@.map_values(|u: ScopedStringUpdate| update_view(u));
    let mut next = vstd::slice::slice_to_vec(current);
    let mut i: usize = 0;
    assert(us.take(0) =~= Seq::<(Seq<char>, Seq<char>, Seq<char>)>::empty());
    while i < updates.len()
        invariant
            i <= updates@.len(),
            us == updates@.map_values(|u: ScopedStringUpdate| update_view(u)),
            apply_all(current@, us.take(i as int)) == UpdateOutcome::Rewritten(next@),
        decreases updates@.len() - i,
    {
        assert(us.take(i + 1).drop_last() =~= us.take(i as int));
        assert(us.take(i + 1).last() == update_view(updates@[i as int]));
        match apply_scoped_string_update(&mut next, &updates[i]) {
            Ok(()) => {},
            Err(e) => {
                proof {
                    lemma_apply_all_failed_prefix(current@, us, i + 1);
                }
                return Err(e);
            },
        }
        i += 1;
    }
    assert(us.take(updates@.len() as int) =~= us);
    if crate::text::bytes_eq(current, next.as_slice()) {
        Ok(None)
    } else {
        Ok(Some(next))
    }
}

/// The text a full rewrite writes: the pretty-printed document and a
/// newline; `None` when that is already the text on disk.
pub fn fallback_content(current: &[u8], pretty: &str) -> (r: Option<Vec<u8>>)
    ensures
        r is None <==> encode_utf8(pretty@.push('\n')) == current@,
        r matches Some(v) ==> v@ == encode_utf8(pretty@.push('\n')),
{
    let mut next = pretty.to_string();
    next.push('\n');
    let bytes = next.as_str().as_bytes();
    if crate::text::bytes_eq(current, bytes) {
        None
    } else {
        Some(vstd::slice::slice_to_vec(bytes))
    }
}

/// What a manifest's slot of the apply outcome holds for its updates:
/// nothing when it has none; the rewritten text when the scoped updates
/// all apply and change it; nothing when they leave it as it was.
pub open spec fn file_result(doc: Seq<u8>, us: Seq<(Seq<char>, Seq<char>, Seq<char>)>, slot: Option<Vec<u8>>) -> bool {
    &&& us.len() == 0 ==> slot is None
    &&& apply_all(doc, us) matches UpdateOutcome::Rewritten(t) ==> {
        &&& t == doc ==> slot is None
        &&& t != doc ==> (slot matches Some(v) && v@ == t)
    }
}

/// The text a manifest holds after the run: the new text in its slot, or
/// the old text when the slot is empty.
pub open spec fn slot_text(slot: Option<Vec<u8>>, doc: Seq<u8>) -> Seq<u8> {
    match slot {
        Some(v) => v@,
        None => doc,
    }
}

/// Writes one manifest's updates: in place when the scoped updates apply,
/// as a full pretty-printed rewrite of the updated document otherwise.
fn write_with_fallback(
    current: &[u8],
    updates: &[ScopedStringUpdate],
    fallback_json: &serde_json::Value,
    file: &str,
) -> (r: Result<Option<Vec<u8>>, SyncError>)
    requires
        json_reparses(*fallback_json),
    ensures
        r is Ok,
        r matches Ok(slot) ==> file_result(
            current@,
            updates@.map_values(|u: ScopedStringUpdate| update_view(u)),
            slot,
        ),
        apply_all(current@, updates@.map_values(|u: ScopedStringUpdate| update_view(u))) is Rewritten
            ==> r is Ok,
        r matches Err(e) ==> (e matches SyncError::SerializeFailed { file: f } && f@ == file@),
        apply_all(current@, updates@.map_values(|u: ScopedStringUpdate| update_view(u))) is Failed
            ==> (r matches Ok(slot) ==> forall|q: Seq<char>|
            #[trigger] json_pointer_string(slot_text(slot, current@), q) == string_in(
                json_strings(*fallback_json),
                q,
            )),
{
    if updates.len() == 0 {
        return Ok(None);
    }
    match write_scoped_string_updates(current, updates) {
        Ok(slot) => Ok(slot),
        Err(_) => match pretty_json(fallback_json) {
            Some(pretty) => Ok(fallback_content(current, pretty.as_str())),
            None => Err(SyncError::SerializeFailed { file: file.to_string() }),
        },
    }
}

/// Whether the pointers of a list of updates reach pairwise disjoint places.
pub open spec fn pointers_part(us: Seq<ScopedStringUpdate>) -> bool {
    forall|i: int, j: int|
        0 <= i < us.len() && 0 <= j < us.len() && i != j ==> pointers_diverge(
            #[trigger] us[i].pointer@,
            #[trigger] us[j].pointer@,
        )
}

/// The updates planned for one manifest reach pairwise disjoint places.
proof fn lemma_planned_pointers_part(
    us: Seq<ScopedStringUpdate>,
    ks: Seq<int>,
    views: Seq<VersionView>,
    vt: Seq<char>,
    ct: Seq<char>,
)
    requires
        us.map_values(|u: ScopedStringUpdate| update_view(u)) == updates_for(ks, views, vt, ct),
        ks == seq![0int] || ks == seq![1int, 2int] || ks == seq![3int, 4int],
    ensures
        pointers_part(us),
{
    lemma_scoped_pointers_diverge();
    reveal_with_fuel(updates_for, 3);
    let w = updates_for(ks, views, vt, ct);
    assert(updates_for(Seq::<int>::empty(), views, vt, ct).len() == 0);
    assert(us.len() == w.len());
    assert forall|i: int| 0 <= i < us.len() implies #[trigger] us[i].pointer@ == w[i].0 by {
        assert(us.map_values(|u: ScopedStringUpdate| update_view(u))[i] == update_view(us[i]));
    }
    if ks == seq![0int] {
        assert(ks.drop_last() =~= Seq::<int>::empty());
        assert(w.len() <= 1);
    } else {
        let first = ks[0];
        assert(ks.drop_last() =~= seq![first]);
        assert(seq![first].drop_last() =~= Seq::<int>::empty());
        let prev = updates_for(seq![first], views, vt, ct);
        assert(prev.len() <= 1);
        assert(prev.len() == 1 ==> prev[0].0 == scoped_pointers()[first]);
        assert(w.len() == 2 ==> w[0].0 == scoped_pointers()[ks[0]] && w[1].0 == scoped_pointers()[ks[1]]);
        assert forall|i: int, j: int|
            0 <= i < us.len() && 0 <= j < us.len() && i != j implies pointers_diverge(
            #[trigger] us[i].pointer@,
            #[trigger] us[j].pointer@,
        ) by {
            assert(w.len() == 2);
        }
    }
}

/// Whether a manifest's text after a full rewrite reads, at the scoped
/// pointer of each key among `ks`, the aligned text where the key drifted
/// and what the old text read there otherwise; and, at every pointer that
/// parts from those of the drifted keys, what the old text read there.
pub open spec fn fallback_reads(
    text: Seq<u8>,
    current: Seq<u8>,
    ks: Seq<int>,
    views: Seq<VersionView>,
    vt: Seq<char>,
    ct: Seq<char>,
) -> bool {
    &&& forall|q: Seq<char>|
        (forall|m: int|
            0 <= m < ks.len() && drifted(views, vt, ct, ks[m]) ==> pointers_diverge(
                #[trigger] scoped_pointers()[ks[m]],
                q,
            )) ==> #[trigger] json_pointer_string(text, q) == json_pointer_string(current, q)
    &&& forall|m: int|
        0 <= m < ks.len() ==> #[trigger] json_pointer_string(text, scoped_pointers()[ks[m]]) == (if drifted(
            views,
            vt,
            ct,
            ks[m],
        ) {
            Some(expected_text(ks[m], vt, ct))
        } else {
            json_pointer_string(current, scoped_pointers()[ks[m]])
        })
}

/// The planned update of scoped key `k`.
pub open spec fn planned_update(
    k: int,
    views: Seq<VersionView>,
    vt: Seq<char>,
    ct: Seq<char>,
) -> (Seq<char>, Seq<char>, Seq<char>) {
    (scoped_pointers()[k], field_text(k, views[k]), expected_text(k, vt, ct))
}

/// The updates for one or two keys: the drifted ones, in order.
proof fn lemma_updates_for_shape(ks: Seq<int>, views: Seq<VersionView>, vt: Seq<char>, ct: Seq<char>)
    requires
        ks.len() == 1 || ks.len() == 2,
    ensures
        ({
            let w = updates_for(ks, views, vt, ct);
            let n: int = if drifted(views, vt, ct, ks[0]) { 1 } else { 0 };
            &&& ks.len() == 1 ==> w.len() == n
            &&& ks.len() == 2 ==> w.len() == n + (if drifted(views, vt, ct, ks[1]) { 1int } else { 0 })
            &&& drifted(views, vt, ct, ks[0]) ==> w[0] == planned_update(ks[0], views, vt, ct)
            &&& ks.len() == 2 && drifted(views, vt, ct, ks[1]) ==> w[n] == planned_update(
                ks[1],
                views,
                vt,
                ct,
            )
        }),
{
    reveal_with_fuel(updates_for, 3);
    assert(updates_for(Seq::<int>::empty(), views, vt, ct).len() == 0);
    let a = ks[0];
    if ks.len() == 1 {
        assert(ks.drop_last() =~= Seq::<int>::empty());
    } else {
        assert(ks.drop_last() =~= seq![a]);
        assert(seq![a].drop_last() =~= Seq::<int>::empty());
    }
}

/// Each planned update of a manifest points where the manifest's document
/// holds a string, when every scoped key of the manifest holds one.
proof fn lemma_planned_present(
    us: Seq<ScopedStringUpdate>,
    ks: Seq<int>,
    views: Seq<VersionView>,
    vt: Seq<char>,
    ct: Seq<char>,
    doc: serde_json::Value,
    current: Seq<u8>,
)
    requires
        us.map_values(|u: ScopedStringUpdate| update_view(u)) == updates_for(ks, views, vt, ct),
        ks == seq![0int] || ks == seq![1int, 2int] || ks == seq![3int, 4int],
        forall|q: Seq<char>| #[trigger] string_in(json_strings(doc), q) == json_pointer_string(current, q),
        forall|m: int|
            0 <= m < ks.len() ==> (#[trigger] json_pointer_string(current, scoped_pointers()[ks[m]]))
                is Some,
    ensures
        forall|i: int| 0 <= i < us.len() ==> string_in(json_strings(doc), #[trigger] us[i].pointer@) is Some,
{
    lemma_updates_for_shape(ks, views, vt, ct);
    let w = updates_for(ks, views, vt, ct);
    assert(us.len() == w.len());
    assert forall|i: int| 0 <= i < us.len() implies string_in(
        json_strings(doc),
        #[trigger] us[i].pointer@,
    ) is Some by {
        assert(us.map_values(|u: ScopedStringUpdate| update_view(u))[i] == update_view(us[i]));
        if i == 0 && drifted(views, vt, ct, ks[0]) {
            assert(w[i].0 == scoped_pointers()[ks[0]]);
            assert(json_pointer_string(current, scoped_pointers()[ks[0]]) is Some);
        } else {
            assert(ks.len() == 2);
            assert(w[i].0 == scoped_pointers()[ks[1]]);
            assert(json_pointer_string(current, scoped_pointers()[ks[1]]) is Some);
        }
    }
}

/// What a fallback document that took a manifest's planned updates holds at
/// the scoped pointer of the manifest's key `ks[m]`.
#[verifier::spinoff_prover]
proof fn lemma_fallback_read_one(
    before: serde_json::Value,
    after: serde_json::Value,
    us: Seq<ScopedStringUpdate>,
    ks: Seq<int>,
    views: Seq<VersionView>,
    vt: Seq<char>,
    ct: Seq<char>,
    current: Seq<u8>,
    m: int,
)
    requires
        us.map_values(|u: ScopedStringUpdate| update_view(u)) == updates_for(ks, views, vt, ct),
        ks == seq![0int] || ks == seq![1int, 2int] || ks == seq![3int, 4int],
        0 <= m < ks.len(),
        forall|q: Seq<char>| #[trigger] string_in(json_strings(before), q) == json_pointer_string(current, q),
        forall|i: int|
            0 <= i < us.len() ==> string_in(json_strings(after), #[trigger] us[i].pointer@) == Some(
                us[i].expected@,
            ),
        forall|q: Seq<char>|
            (forall|i: int| 0 <= i < us.len() ==> pointers_diverge(#[trigger] us[i].pointer@, q))
                ==> #[trigger] string_in(json_strings(after), q) == string_in(json_strings(before), q),
    ensures
        string_in(json_strings(after), scoped_pointers()[ks[m]]) == (if drifted(views, vt, ct, ks[m]) {
            Some(expected_text(ks[m], vt, ct))
        } else {
            json_pointer_string(current, scoped_pointers()[ks[m]])
        }),
{
    lemma_scoped_pointers_diverge();
    lemma_updates_for_shape(ks, views, vt, ct);
    let w = updates_for(ks, views, vt, ct);
    assert(us.len() == w.len());
    let k = ks[m];
    let p = scoped_pointers()[k];
    if drifted(views, vt, ct, k) {
        let i = if m == 0 { 0 } else { w.len() - 1 };
        assert(us.map_values(|u: ScopedStringUpdate| update_view(u))[i] == update_view(us[i]));
        assert(w[i] == planned_update(k, views, vt, ct));
        assert(us[i].pointer@ == p);
    } else {
        assert forall|i: int| 0 <= i < us.len() implies pointers_diverge(#[trigger] us[i].pointer@, p) by {
            assert(us.map_values(|u: ScopedStringUpdate| update_view(u))[i] == update_view(us[i]));
            assert(w[i].0 == scoped_pointers()[ks[1 - m]]);
        }
    }
}

/// A document that took a manifest's planned updates, printed, reads the
/// aligned text at the drifted keys and the old text at the others.
proof fn lemma_fallback_reads(
    before: serde_json::Value,
    after: serde_json::Value,
    us: Seq<ScopedStringUpdate>,
    ks: Seq<int>,
    views: Seq<VersionView>,
    vt: Seq<char>,
    ct: Seq<char>,
    current: Seq<u8>,
    text: Seq<u8>,
)
    requires
        us.map_values(|u: ScopedStringUpdate| update_view(u)) == updates_for(ks, views, vt, ct),
        ks == seq![0int] || ks == seq![1int, 2int] || ks == seq![3int, 4int],
        forall|q: Seq<char>| #[trigger] string_in(json_strings(before), q) == json_pointer_string(current, q),
        forall|i: int|
            0 <= i < us.len() ==> string_in(json_strings(after), #[trigger] us[i].pointer@) == Some(
                us[i].expected@,
            ),
        forall|q: Seq<char>|
            (forall|i: int| 0 <= i < us.len() ==> pointers_diverge(#[trigger] us[i].pointer@, q))
                ==> #[trigger] string_in(json_strings(after), q) == string_in(json_strings(before), q),
        forall|q: Seq<char>| #[trigger] json_pointer_string(text, q) == string_in(json_strings(after), q),
    ensures
        fallback_reads(text, current, ks, views, vt, ct),
{
    assert forall|m: int| 0 <= m < ks.len() implies #[trigger] json_pointer_string(
        text,
        scoped_pointers()[ks[m]],
    ) == (if drifted(views, vt, ct, ks[m]) {
        Some(expected_text(ks[m], vt, ct))
    } else {
        json_pointer_string(current, scoped_pointers()[ks[m]])
    }) by {
        lemma_fallback_read_one(before, after, us, ks, views, vt, ct, current, m);
    }
    assert forall|q: Seq<char>|
        (forall|m: int|
            0 <= m < ks.len() && drifted(views, vt, ct, ks[m]) ==> pointers_diverge(
                #[trigger] scoped_pointers()[ks[m]],
                q,
            )) implies #[trigger] json_pointer_string(text, q) == json_pointer_string(current, q) by {
        lemma_updates_for_shape(ks, views, vt, ct);
        let w = updates_for(ks, views, vt, ct);
        assert(us.len() == w.len());
        assert forall|i: int| 0 <= i < us.len() implies pointers_diverge(#[trigger] us[i].pointer@, q) by {
            assert(us.map_values(|u: ScopedStringUpdate| update_view(u))[i] == update_view(us[i]));
            let n: int = if drifted(views, vt, ct, ks[0]) { 1 } else { 0 };
            if i < n {
                assert(w[i] == planned_update(ks[0], views, vt, ct));
                assert(pointers_diverge(scoped_pointers()[ks[0]], q));
            } else {
                assert(w[i] == planned_update(ks[1], views, vt, ct));
                assert(pointers_diverge(scoped_pointers()[ks[1]], q));
            }
        }
        assert(string_in(json_strings(after), q) == string_in(json_strings(before), q));
    }
}

/// Sets the fallback document's value at each update's pointer to the
/// update's expected text. It succeeds when every pointer reaches a string;
/// afterwards each pointer reads its expected text, and a pointer that
/// parts from all of them reads what it read before.
fn set_fallback_strings(doc: &mut serde_json::Value, updates: &[ScopedStringUpdate]) -> (r: Result<
    (),
    SyncError,
>)
    requires
        pointers_part(updates@),
    ensures
        r matches Err(e) ==> e is MissingForUpdate,
        json_reparses(*old(doc)) ==> json_reparses(*final(doc)),
        (forall|i: int|
            0 <= i < updates@.len() ==> string_in(json_strings(*old(doc)), #[trigger] updates@[i].pointer@)
                is Some) ==> r is Ok,
        r is Ok ==> forall|i: int|
            0 <= i < updates@.len() ==> string_in(json_strings(*final(doc)), #[trigger] updates@[i].pointer@)
                == Some(updates@[i].expected@),
        r is Ok ==> forall|q: Seq<char>|
            (forall|i: int| 0 <= i < updates@.len() ==> pointers_diverge(#[trigger] updates@[i].pointer@, q))
                ==> #[trigger] string_in(json_strings(*final(doc)), q) == string_in(
                json_strings(*old(doc)),
                q,
            ),
{
    let ghost start = *doc;
    let mut i: usize = 0;
    while i < updates.len()
        invariant
            i <= updates@.len(),
            start == *old(doc),
            json_reparses(start) ==> json_reparses(*doc),
            pointers_part(updates@),
            forall|j: int|
                0 <= j < i ==> string_in(json_strings(*doc), #[trigger] updates@[j].pointer@) == Some(
                    updates@[j].expected@,
                ),
            forall|j: int|
                i <= j < updates@.len() ==> string_in(json_strings(*doc), #[trigger] updates@[j].pointer@)
                    == string_in(json_strings(start), updates@[j].pointer@),
            forall|q: Seq<char>|
                (forall|k: int| 0 <= k < i ==> pointers_diverge(#[trigger] updates@[k].pointer@, q))
                    ==> #[trigger] string_in(json_strings(*doc), q) == string_in(json_strings(start), q),
        decreases updates@.len() - i,
    {
        let ghost before = *doc;
        let ok = set_string_at_pointer(doc, updates[i].pointer.as_str(), updates[i].expected.as_str());
        if !ok {
            return Err(SyncError::MissingForUpdate { pointer: updates[i].pointer.clone() });
        }
        proof {
            let p = updates@[i as int].pointer@;
            assert forall|j: int| 0 <= j < i + 1 implies string_in(
                json_strings(*doc),
                #[trigger] updates@[j].pointer@,
            ) == Some(updates@[j].expected@) by {
                if j < i {
                    assert(pointers_diverge(updates@[i as int].pointer@, updates@[j].pointer@));
                }
            }
            assert forall|j: int| i + 1 <= j < updates@.len() implies string_in(
                json_strings(*doc),
                #[trigger] updates@[j].pointer@,
            ) == string_in(json_strings(start), updates@[j].pointer@) by {
                assert(pointers_diverge(updates@[i as int].pointer@, updates@[j].pointer@));
            }
            assert forall|q: Seq<char>|
                (forall|k: int| 0 <= k < i + 1 ==> pointers_diverge(#[trigger] updates@[k].pointer@, q))
                implies #[trigger] string_in(json_strings(*doc), q) == string_in(
                json_strings(start),
                q,
            ) by {
                assert(pointers_diverge(updates@[i as int].pointer@, q));
                assert(string_in(json_strings(before), q) == string_in(json_strings(start), q));
            }
        }
        i += 1;
    }
    Ok(())
}

/// What a run on scoped versions `views` gives: the policy refusal, the
/// check-mode report, or the new text of each manifest that changes.
pub open spec fn run_result(
    config: SyncUiVersionsConfig,
    views: Seq<VersionView>,
    manifests: &Manifests,
    r: Result<SyncOutcome, SyncError>,
) -> bool {
            let target = target_of(views);
            let blocked = violations_upto(
                views,
                target,
                config.allow_minor,
                config.allow_major,
                5,
            );
            let vt = render(target);
            let ct = render_caret(target);
            let want = drifts_upto(views, vt, ct, 5);
            &&& blocked.len() > 0 <==> (r matches Err(SyncError::PolicyBlocked(_)))
            &&& r matches Err(SyncError::PolicyBlocked(v)) ==> v@.len() == blocked.len() && forall|i: int|
                0 <= i < blocked.len() ==> {
                    &&& (#[trigger] v@[i]).file@ == blocked[i].0
                    &&& v@[i].key@ == blocked[i].1
                    &&& v@[i].movement == blocked[i].2
                    &&& v@[i].from@ == render(blocked[i].3)
                    &&& v@[i].to@ == render(target)
                }
            &&& blocked.len() == 0 && config.mode == SyncMode::Check ==> (r matches Ok(
                SyncOutcome::Checked { exit_code, drifts },
            ) && drifts@.map_values(|d: Drift| d.view()) == want && exit_code == (if want.len()
                == 0 {
                0i32
            } else {
                1i32
            }))
            &&& blocked.len() == 0 && config.mode == SyncMode::Apply && want.len() == 0 ==> (r matches Ok(
                SyncOutcome::Applied { core: None, components: None, template: None },
            ))
            &&& config.mode == SyncMode::Apply ==> !(r matches Ok(SyncOutcome::Checked { .. }))
            &&& blocked.len() == 0 && config.mode == SyncMode::Apply && want.len() > 0 ==> {
                &&& r matches Ok(SyncOutcome::Applied { .. })
                &&& r matches Ok(SyncOutcome::Applied { core, components, template }) ==> {
                    &&& file_result(manifests.core@, updates_for(seq![0int], views, vt, ct), core)
                    &&& file_result(
                        manifests.components@,
                        updates_for(seq![1int, 2int], views, vt, ct),
                        components,
                    )
                    &&& file_result(
                        manifests.template@,
                        updates_for(seq![3int, 4int], views, vt, ct),
                        template,
                    )
                    &&& apply_all(manifests.core@, updates_for(seq![0int], views, vt, ct)) is Failed
                        ==> fallback_reads(
                        slot_text(core, manifests.core@),
                        manifests.core@,
                        seq![0int],
                        views,
                        vt,
                        ct,
                    )
                    &&& apply_all(manifests.components@, updates_for(seq![1int, 2int], views, vt, ct))
                        is Failed ==> fallback_reads(
                        slot_text(components, manifests.components@),
                        manifests.components@,
                        seq![1int, 2int],
                        views,
                        vt,
                        ct,
                    )
                    &&& apply_all(manifests.template@, updates_for(seq![3int, 4int], views, vt, ct))
                        is Failed ==> fallback_reads(
                        slot_text(template, manifests.template@),
                        manifests.template@,
                        seq![3int, 4int],
                        views,
                        vt,
                        ct,
                    )
                }
            }
        }

/// Runs the command on a loaded state: check mode reports the drift and its
/// exit code; apply mode gives the new text of each manifest that changes.
pub fn run_loaded(config: SyncUiVersionsConfig, loaded: LoadedManifests, manifests: &Manifests) -> (r: Result<
    SyncOutcome,
    SyncError,
>)
    requires
        documents_match(&loaded, manifests),
        all_fields_ok(manifests),
    ensures
        run_result(config, loaded.state.views(), manifests, r),
{
    let LoadedManifests { state, core_json, components_json, template_json } = loaded;
    let expected = match compute_expected(&state, config) {
        Ok(e) => e,
        Err(vs) => {
            return Err(SyncError::PolicyBlocked(vs));
        },
    };
    let drifts = compute_drifts(&state, &expected);
    assert(drifts@.map_values(|d: Drift| d.view()) =~= drifts_upto(
        state.views(),
        render(expected.target_version@),
        expected.target_caret@,
        5,
    ));
    match config.mode {
        SyncMode::Check => {
            let exit_code = check_mode_exit_code(drifts.as_slice());
            return Ok(SyncOutcome::Checked { exit_code, drifts });
        },
        SyncMode::Apply => {},
    }
    if drifts.len() == 0 {
        return Ok(SyncOutcome::Applied { core: None, components: None, template: None });
    }
    let plan = plan_scoped_updates(&state, &expected, drifts.as_slice());
    let mut core_json = core_json;
    let mut components_json = components_json;
    let mut template_json = template_json;
    let ghost views = state.views();
    let ghost vt = render(expected.target_version@);
    let ghost ct = expected.target_caret@;
    let ghost core0 = core_json;
    let ghost components0 = components_json;
    let ghost template0 = template_json;
    proof {
        lemma_planned_pointers_part(plan.core_updates@, seq![0int], views, vt, ct);
        lemma_planned_pointers_part(plan.components_updates@, seq![1int, 2int], views, vt, ct);
        lemma_planned_pointers_part(plan.template_updates@, seq![3int, 4int], views, vt, ct);
        let raws = manifest_raws(manifests);
        assert(forall|k: int| 0 <= k < 5 ==> (#[trigger] raws[k]) is Some);
        assert(raws[0] == json_pointer_string(manifests.core@, scoped_pointers()[0]));
        assert(raws[1] == json_pointer_string(manifests.components@, scoped_pointers()[1]));
        assert(raws[2] == json_pointer_string(manifests.components@, scoped_pointers()[2]));
        assert(raws[3] == json_pointer_string(manifests.template@, scoped_pointers()[3]));
        assert(raws[4] == json_pointer_string(manifests.template@, scoped_pointers()[4]));
        assert(seq![0int][0] == 0);
        lemma_planned_present(plan.core_updates@, seq![0int], views, vt, ct, core0, manifests.core@);
        lemma_planned_present(
            plan.components_updates@,
            seq![1int, 2int],
            views,
            vt,
            ct,
            components0,
            manifests.components@,
        );
        lemma_planned_present(
            plan.template_updates@,
            seq![3int, 4int],
            views,
            vt,
            ct,
            template0,
            manifests.template@,
        );
    }
    set_fallback_strings(&mut core_json, plan.core_updates.as_slice())?;
    set_fallback_strings(&mut components_json, plan.components_updates.as_slice())?;
    set_fallback_strings(&mut template_json, plan.template_updates.as_slice())?;
    let core = write_with_fallback(
        manifests.core.as_slice(),
        plan.core_updates.as_slice(),
        &core_json,
        CORE_REL_PATH,
    )?;
    proof {
        if apply_all(manifests.core@, updates_for(seq![0int], views, vt, ct)) is Failed {
            lemma_fallback_reads(
                core0,
                core_json,
                plan.core_updates@,
                seq![0int],
                views,
                vt,
                ct,
                manifests.core@,
                slot_text(core, manifests.core@),
            );
        }
    }
    let components = write_with_fallback(
        manifests.components.as_slice(),
        plan.components_updates.as_slice(),
        &components_json,
        COMPONENTS_REL_PATH,
    )?;
    proof {
        if apply_all(manifests.components@, updates_for(seq![1int, 2int], views, vt, ct)) is Failed {
            lemma_fallback_reads(
                components0,
                components_json,
                plan.components_updates@,
                seq![1int, 2int],
                views,
                vt,
                ct,
                manifests.components@,
                slot_text(components, manifests.components@),
            );
        }
    }
    let template = write_with_fallback(
        manifests.template.as_slice(),
        plan.template_updates.as_slice(),
        &template_json,
        TEMPLATE_REL_PATH,
    )?;
    proof {
        if apply_all(manifests.template@, updates_for(seq![3int, 4int], views, vt, ct)) is Failed {
            lemma_fallback_reads(
                template0,
                template_json,
                plan.template_updates@,
                seq![3int, 4int],
                views,
                vt,
                ct,
                manifests.template@,
                slot_text(template, manifests.template@),
            );
        }
    }
    Ok(SyncOutcome::Applied { core, components, template })
}

/// Runs the command on the three manifests as read from disk.
pub fn run(config: SyncUiVersionsConfig, manifests: &Manifests) -> (r: Result<SyncOutcome, SyncError>)
    ensures
        !json_document_parses(manifests.core@) ==> (r matches Err(
            SyncError::Load(LoadError::ParseFailed { file }),
        ) && file@ == CORE_REL_PATH@),
        json_document_parses(manifests.core@) && !json_document_parses(manifests.components@) ==> (
        r matches Err(SyncError::Load(LoadError::ParseFailed { file })) && file@
            == COMPONENTS_REL_PATH@),
        json_document_parses(manifests.core@) && json_document_parses(manifests.components@)
            && !json_document_parses(manifests.template@) ==> (r matches Err(
            SyncError::Load(LoadError::ParseFailed { file }),
        ) && file@ == TEMPLATE_REL_PATH@),
        all_parse(manifests) && !all_fields_ok(manifests) ==> (r matches Err(SyncError::Load(e))
            && !(e is ParseFailed)),
        r is Ok ==> all_parse(manifests) && all_fields_ok(manifests),
        all_parse(manifests) && all_fields_ok(manifests) ==> run_result(
            config,
            manifest_views(manifests),
            manifests,
            r,
        ),
{
    let loaded = match load_state(manifests) {
        Ok(l) => l,
        Err(e) => {
            return Err(SyncError::Load(e));
        },
    };
    run_loaded(config, loaded, manifests)
}

/// Whether scoped versions `views` pass the check made after a write: the
/// policy blocks nothing, no scoped key drifts and the two package versions
/// are equal.
pub open spec fn verified_aligned(config: SyncUiVersionsConfig, views: Seq<VersionView>) -> bool {
    let target = target_of(views);
    &&& violations_upto(views, target, config.allow_minor, config.allow_major, 5).len() == 0
    &&& drifts_upto(views, render(target), render_caret(target), 5).len() == 0
    &&& views[0] == views[1]
}

/// The check made after the manifests were written: no scoped key may
/// drift and the two package versions must be equal.
pub fn verify_loaded(config: SyncUiVersionsConfig, state: &LoadedState) -> (r: Result<(), SyncError>)
    ensures
        r is Ok <==> verified_aligned(config, state.views()),
        ({
            let views = state.views();
            let target = target_of(views);
            let blocked = violations_upto(
                views,
                target,
                config.allow_minor,
                config.allow_major,
                5,
            );
            let want = drifts_upto(views, render(target), render_caret(target), 5);
            &&& blocked.len() > 0 <==> (r matches Err(SyncError::PolicyBlocked(_)))
            &&& blocked.len() == 0 && want.len() > 0 ==> (r matches Err(SyncError::DriftRemains))
            &&& blocked.len() == 0 && want.len() == 0 && views[0] != views[1] ==> (r matches Err(
                SyncError::LockstepViolated,
            ))
            &&& r is Ok <==> blocked.len() == 0 && want.len() == 0 && views[0] == views[1]
        }),
{
    let expected = match compute_expected(state, config) {
        Ok(e) => e,
        Err(vs) => {
            return Err(SyncError::PolicyBlocked(vs));
        },
    };
    let remaining = compute_drifts(state, &expected);
    if remaining.len() > 0 {
        return Err(SyncError::DriftRemains);
    }
    if !state.core_version.same_as(&state.components_version) {
        return Err(SyncError::LockstepViolated);
    }
    Ok(())
}

/// The post-write verification on the manifests as read back from disk.
pub fn verify_applied(config: SyncUiVersionsConfig, manifests: &Manifests) -> (r: Result<
    (),
    SyncError,
>)
    ensures
        !all_parse(manifests) ==> (r matches Err(SyncError::Load(LoadError::ParseFailed { .. }))),
        all_parse(manifests) && !all_fields_ok(manifests) ==> (r matches Err(SyncError::Load(e))
            && !(e is ParseFailed)),
        r is Ok <==> all_parse(manifests) && all_fields_ok(manifests) && verified_aligned(
            config,
            manifest_views(manifests),
        ),
{
    let loaded = match load_state(manifests) {
        Ok(l) => l,
        Err(e) => {
            return Err(SyncError::Load(e));
        },
    };
    verify_loaded(config, &loaded.state)
}

/// A state whose five scoped keys all stand at the target reports no drift.
pub proof fn law_aligned_state_has_no_drift(views: Seq<VersionView>)
    requires
        views.len() == 5,
        forall|k: int| 0 <= k < 5 ==> #[trigger] views[k] == target_of(views),
    ensures
        drifts_upto(views, render(target_of(views)), render_caret(target_of(views)), 5).len() == 0,
{
    let t = target_of(views);
    assert(views[0] == t && views[1] == t && views[2] == t && views[3] == t && views[4] == t);
    reveal_with_fuel(drifts_upto, 6);
}

/// With major updates allowed, the policy blocks no movement.
pub proof fn law_allow_major_blocks_nothing(views: Seq<VersionView>, target: VersionView, allow_minor: bool)
    ensures
        violations_upto(views, target, allow_minor, true, 5).len() == 0,
{
    reveal_with_fuel(violations_upto, 6);
}

/// Patch movements, and no movement, are always allowed.
pub proof fn law_patch_always_allowed(allow_minor: bool, allow_major: bool)
    ensures
        allowed(VersionMovement::Unchanged, allow_minor, allow_major),
        allowed(VersionMovement::Patch, allow_minor, allow_major),
{
}

/// Loosening the policy never blocks a movement it allowed.
pub proof fn law_policy_monotone(
    m: VersionMovement,
    allow_minor: bool,
    allow_major: bool,
    looser_minor: bool,
    looser_major: bool,
)
    requires
        allowed(m, allow_minor, allow_major),
        allow_minor ==> looser_minor,
        allow_major ==> looser_major,
    ensures
        allowed(m, looser_minor, looser_major),
{
}

/// The target is one of the two package versions, and the one `max` picks.
pub proof fn law_target_is_a_package_version(views: Seq<VersionView>)
    requires
        views.len() == 5,
    ensures
        target_of(views) == views[0] || target_of(views) == views[1],
        semver_order(views[0], views[1]) == 1 ==> target_of(views) == views[0],
        semver_order(views[0], views[1]) != 1 ==> target_of(views) == views[1],
{
}

/// On manifests that already pass the post-write check, apply mode changes
/// no manifest.
pub proof fn law_apply_on_aligned_changes_nothing(
    config: SyncUiVersionsConfig,
    m: &Manifests,
    r: Result<SyncOutcome, SyncError>,
)
    requires
        config.mode == SyncMode::Apply,
        verified_aligned(config, manifest_views(m)),
        run_result(config, manifest_views(m), m, r),
    ensures
        r matches Ok(SyncOutcome::Applied { core: None, components: None, template: None }),
{
}

/// On manifests that already pass the post-write check, check mode reports
/// no drift and exit code 0.
pub proof fn law_check_on_aligned_is_clean(
    config: SyncUiVersionsConfig,
    m: &Manifests,
    r: Result<SyncOutcome, SyncError>,
)
    requires
        config.mode == SyncMode::Check,
        verified_aligned(config, manifest_views(m)),
        run_result(config, manifest_views(m), m, r),
    ensures
        r matches Ok(SyncOutcome::Checked { exit_code, drifts }) && exit_code == 0 && drifts@.len()
            == 0,
{
    if let Ok(SyncOutcome::Checked { exit_code, drifts }) = r {
        assert(drifts@.map_values(|d: Drift| d.view()).len() == drifts@.len());
    }
}

/// After an apply run, each manifest that its scoped updates could not
/// rewrite in place, and that took the full rewrite instead, holds the
/// aligned text at each of its drifted scoped keys and its old text at the
/// others.
pub proof fn law_fallback_rewrite_aligns(
    config: SyncUiVersionsConfig,
    m: &Manifests,
    r: Result<SyncOutcome, SyncError>,
)
    requires
        config.mode == SyncMode::Apply,
        run_result(config, manifest_views(m), m, r),
    ensures
        ({
            let views = manifest_views(m);
            let vt = render(target_of(views));
            let ct = render_caret(target_of(views));
            r matches Ok(SyncOutcome::Applied { core, components, template }) ==> {
                &&& apply_all(m.core@, updates_for(seq![0int], views, vt, ct)) is Failed
                    ==> fallback_reads(slot_text(core, m.core@), m.core@, seq![0int], views, vt, ct)
                &&& apply_all(m.components@, updates_for(seq![1int, 2int], views, vt, ct)) is Failed
                    ==> fallback_reads(
                    slot_text(components, m.components@),
                    m.components@,
                    seq![1int, 2int],
                    views,
                    vt,
                    ct,
                )
                &&& apply_all(m.template@, updates_for(seq![3int, 4int], views, vt, ct)) is Failed
                    ==> fallback_reads(
                    slot_text(template, m.template@),
                    m.template@,
                    seq![3int, 4int],
                    views,
                    vt,
                    ct,
                )
            }
        }),
{
    let views = manifest_views(m);
    let vt = render(target_of(views));
    let ct = render_caret(target_of(views));
    if drifts_upto(views, vt, ct, 5).len() == 0 {
        assert forall|k: int| 0 <= k < 5 implies !drifted(views, vt, ct, k) by {
            lemma_drift_named(views, vt, ct, 5, k);
        }
        lemma_updates_for_shape(seq![0int], views, vt, ct);
        lemma_updates_for_shape(seq![1int, 2int], views, vt, ct);
        lemma_updates_for_shape(seq![3int, 4int], views, vt, ct);
        assert(updates_for(seq![0int], views, vt, ct) =~= Seq::empty());
        assert(updates_for(seq![1int, 2int], views, vt, ct) =~= Seq::empty());
        assert(updates_for(seq![3int, 4int], views, vt, ct) =~= Seq::empty());
    }
}

/// The message of a load error, naming each manifest by its path under the
/// workspace root.
pub open spec fn load_error_text(root: Seq<char>, e: LoadError) -> Seq<char> {
    match e {
        LoadError::ParseFailed { file } => "Failed to parse JSON manifest: "@ + crate::paths::join(root, file@),
        LoadError::MissingKey { file, pointer } => "Missing required string key '"@ + pointer@ + "' in "@
            + crate::paths::join(root, file@),
        LoadError::InvalidSemver { file, key, raw } => "Invalid semver value for "@ + key@ + " in "@
            + crate::paths::join(root, file@) + ": '"@ + raw@ + "'"@,
        LoadError::InvalidRange { file, key, raw } => "Invalid range for "@ + key@ + " in "@
            + crate::paths::join(root, file@) + ": '"@ + raw@
            + "' (expected caret baseline like ^0.7.29)"@,
    }
}

/// The message of a load error.
pub fn load_error_message(root: &str, e: &LoadError) -> (s: String)
    ensures
        s@ == load_error_text(root@, *e),
{
    match e {
        LoadError::ParseFailed { file } => {
            let path = crate::paths::join_path(root, file.as_str());
            let mut s = "Failed to parse JSON manifest: ".to_string();
            push_str(&mut s, path.as_str());
            s
        },
        LoadError::MissingKey { file, pointer } => {
            let path = crate::paths::join_path(root, file.as_str());
            let mut s = "Missing required string key '".to_string();
            push_str(&mut s, pointer.as_str());
            push_str(&mut s, "' in ");
            push_str(&mut s, path.as_str());
            assert(s@ =~= load_error_text(root@, *e));
            s
        },
        LoadError::InvalidSemver { file, key, raw } => {
            let path = crate::paths::join_path(root, file.as_str());
            let mut s = "Invalid semver value for ".to_string();
            push_str(&mut s, key.as_str());
            push_str(&mut s, " in ");
            push_str(&mut s, path.as_str());
            push_str(&mut s, ": '");
            push_str(&mut s, raw.as_str());
            push_str(&mut s, "'");
            assert(s@ =~= load_error_text(root@, *e));
            s
        },
        LoadError::InvalidRange { file, key, raw } => {
            let path = crate::paths::join_path(root, file.as_str());
            let mut s = "Invalid range for ".to_string();
            push_str(&mut s, key.as_str());
            push_str(&mut s, " in ");
            push_str(&mut s, path.as_str());
            push_str(&mut s, ": '");
            push_str(&mut s, raw.as_str());
            push_str(&mut s, "' (expected caret baseline like ^0.7.29)");
            assert(s@ =~= load_error_text(root@, *e));
            s
        },
    }
}

/// The message of a failed run (the caller exits with code 2).
pub open spec fn sync_error_text(root: Seq<char>, e: SyncError) -> Seq<char> {
    match e {
        SyncError::Load(le) => load_error_text(root, le),
        SyncError::PolicyBlocked(vs) => policy_message_text(vs@),
        SyncError::MissingForUpdate { pointer } => "Failed to update key '"@ + pointer@
            + "': key is missing during scoped mutation"@,
        SyncError::SerializeFailed { file } => "Failed to serialize JSON for "@ + crate::paths::join(
            root,
            file@,
        ),
        SyncError::DriftRemains => "Post-write verification failed: scoped drift remains after apply"@,
        SyncError::LockstepViolated =>
            "Post-write verification failed: lockstep invariant violated (core.version != components.version)"@,
    }
}

/// The message of a failed run.
pub fn sync_error_message(root: &str, e: &SyncError) -> (s: String)
    ensures
        s@ == sync_error_text(root@, *e),
{
    match e {
        SyncError::Load(le) => load_error_message(root, le),
        SyncError::PolicyBlocked(vs) => policy_error_message(vs.as_slice()),
        SyncError::MissingForUpdate { pointer } => {
            let mut s = "Failed to update key '".to_string();
            push_str(&mut s, pointer.as_str());
            push_str(&mut s, "': key is missing during scoped mutation");
            assert(s@ =~= sync_error_text(root@, *e));
            s
        },
        SyncError::SerializeFailed { file } => {
            let mut s = "Failed to serialize JSON for ".to_string();
            let path = crate::paths::join_path(root, file.as_str());
            push_str(&mut s, path.as_str());
            s
        },
        SyncError::DriftRemains => "Post-write verification failed: scoped drift remains after apply".to_string(),
        SyncError::LockstepViolated =>
            "Post-write verification failed: lockstep invariant violated (core.version != components.version)".to_string(),
    }
}

} // verus!
