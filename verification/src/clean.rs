//! Sizes reported by the clean command.

use vstd::prelude::*;

use crate::build_mode::{PLUGIN_DISPLAY_NAME, PLUGIN_NAME};
use crate::paths::{bundled_dir, join, join_path};
use crate::text::{decimal, digit_char, push_decimal, push_str};

verus! {

pub const KB: u64 = 1024;
pub const MB: u64 = 1048576;
pub const GB: u64 = 1073741824;

/// A cleaned directory with its reclaimed size.
#[derive(Debug)]
pub struct CleanedItem {
    pub path: String,
    pub size_bytes: u64,
}

/// `n / d` rounded to the nearest integer, ties to even, as the standard
/// float formatting rounds an exactly represented quotient.
pub open spec fn round_half_even(n: nat, d: nat) -> nat
    recommends
        d > 0,
{
    let q = n / d;
    let r = n % d;
    if 2 * r > d {
        q + 1
    } else if 2 * r < d {
        q
    } else if q % 2 == 0 {
        q
    } else {
        q + 1
    }
}

/// A count of hundredths written with two decimals, e.g. `150` as `1.50`.
pub open spec fn hundredths_text(c: nat) -> Seq<char> {
    decimal(c / 100) + seq!['.', digit_char((c % 100) / 10), digit_char(c % 10)]
}

/// The human-readable size: bytes below a KiB, whole KiB and MiB, and GiB
/// with two decimals.
pub open spec fn size_text(bytes: nat) -> Seq<char> {
    if bytes >= GB {
        hundredths_text(round_half_even(bytes * 100, GB as nat)) + " GB"@
    } else if bytes >= MB {
        decimal(round_half_even(bytes, MB as nat)) + " MB"@
    } else if bytes >= KB {
        decimal(round_half_even(bytes, KB as nat)) + " KB"@
    } else {
        decimal(bytes) + " bytes"@
    }
}

fn round_half_even_exec(n: u128, d: u128) -> (r: u128)
    requires
        d > 0,
        n / d < u128::MAX,
    ensures
        r == round_half_even(n as nat, d as nat),
{
    let q = n / d;
    let rem = n % d;
    if rem > d - rem {
        q + 1
    } else if rem < d - rem {
        q
    } else if q % 2 == 0 {
        q
    } else {
        q + 1
    }
}

fn digit_exec(d: u64) -> (c: char)
    requires
        d < 10,
    ensures
        c == digit_char(d as nat),
{
    let mut s = String::new();
    push_decimal(&mut s, d);
    proof {
        reveal_with_fuel(decimal, 2);
    }
    let chars = crate::text::chars_of(s.as_str());
    assert(chars@ == seq![digit_char(d as nat)]);
    chars[0]
}

/// Formats a byte count as a human-readable size.
pub fn format_size(bytes: u64) -> (s: String)
    ensures
        s@ == size_text(bytes as nat),
{
    let mut s = String::new();
    if bytes >= GB {
        let n: u128 = (bytes as u128) * 100;
        let c = round_half_even_exec(n, GB as u128);
        assert(c <= 2000000000000) by (nonlinear_arith)
            requires
                c <= n / (GB as u128) + 1,
                n == (bytes as u128) * 100,
                bytes <= u64::MAX,
        ;
        let c64 = c as u64;
        push_decimal(&mut s, c64 / 100);
        s.push('.');
        s.push(digit_exec((c64 % 100) / 10));
        s.push(digit_exec(c64 % 10));
        push_str(&mut s, " GB");
        assert(s@ =~= size_text(bytes as nat));
    } else if bytes >= MB {
        let c = round_half_even_exec(bytes as u128, MB as u128);
        push_decimal(&mut s, c as u64);
        push_str(&mut s, " MB");
        assert(s@ =~= size_text(bytes as nat));
    } else if bytes >= KB {
        let c = round_half_even_exec(bytes as u128, KB as u128);
        push_decimal(&mut s, c as u64);
        push_str(&mut s, " KB");
        assert(s@ =~= size_text(bytes as nat));
    } else {
        push_decimal(&mut s, bytes);
        push_str(&mut s, " bytes");
        assert(s@ =~= size_text(bytes as nat));
    }
    s
}

/// The sum of the sizes of the first `n` items.
pub open spec fn total_upto(items: Seq<CleanedItem>, n: int) -> nat
    decreases n,
{
    if n <= 0 {
        0
    } else {
        total_upto(items, n - 1) + items[n - 1].size_bytes as nat
    }
}

/// The total size reclaimed by the cleaned items.
pub fn total_size(items: &[CleanedItem]) -> (total: u64)
    requires
        total_upto(items@, items@.len() as int) <= u64::MAX,
    ensures
        total == total_upto(items@, items@.len() as int),
{
    let mut total: u64 = 0;
    let mut i: usize = 0;
    while i < items.len()
        invariant
            i <= items@.len(),
            total == total_upto(items@, i as int),
            total_upto(items@, items@.len() as int) <= u64::MAX,
        decreases items@.len() - i,
    {
        proof {
            lemma_total_upto_monotone(items@, i + 1, items@.len() as int);
        }
        total = total + items[i].size_bytes;
        i += 1;
    }
    total
}

proof fn lemma_total_upto_monotone(items: Seq<CleanedItem>, a: int, b: int)
    requires
        0 <= a <= b,
    ensures
        total_upto(items, a) <= total_upto(items, b),
    decreases b - a,
{
    if a < b {
        lemma_total_upto_monotone(items, a, b - 1);
    }
}

/// Whether installed plugins may be removed: removal needs `--force`,
/// unless it is a dry run.
pub fn installed_removal_allowed(force: bool, dry_run: bool) -> (ok: bool)
    ensures
        ok == (force || dry_run),
{
    force || dry_run
}

/// The workspace directories removed by the clean command after the
/// engine's `cargo clean`, each with the label it is reported under: the CLI
/// target, the UI build and coverage outputs, temporary test artifacts, and
/// on macOS the AU wrapper build.
pub open spec fn removable_dirs(root: Seq<char>, is_macos: bool) -> Seq<(Seq<char>, Seq<char>)> {
    let common = seq![
        (join(join(root, "cli"@), "target"@), "cli/target"@),
        (join(join(root, "ui"@), "dist"@), "ui/dist"@),
        (join(join(root, "ui"@), "coverage"@), "ui/coverage"@),
        (join(join(root, "target"@), "tmp"@), "target/tmp"@),
    ];
    if is_macos {
        common.push(
            (
                join(join(join(join(root, "packaging"@), "macos"@), "au-wrapper"@), "build"@),
                "packaging/macos/au-wrapper/build"@,
            ),
        )
    } else {
        common
    }
}

fn dir_entry(root: &str, a: &str, b: &str, label: &str) -> (r: (String, String))
    ensures
        r.0@ == join(join(root@, a@), b@),
        r.1@ == label@,
{
    let first = join_path(root, a);
    (join_path(first.as_str(), b), label.to_string())
}

/// The directories the clean command removes, with their labels.
pub fn clean_targets(project_root: &str, is_macos: bool) -> (dirs: Vec<(String, String)>)
    ensures
        dirs@.map_values(|d: (String, String)| (d.0@, d.1@)) == removable_dirs(project_root@, is_macos),
{
    let mut dirs: Vec<(String, String)> = Vec::new();
    dirs.push(dir_entry(project_root, "cli", "target", "cli/target"));
    dirs.push(dir_entry(project_root, "ui", "dist", "ui/dist"));
    dirs.push(dir_entry(project_root, "ui", "coverage", "ui/coverage"));
    dirs.push(dir_entry(project_root, "target", "tmp", "target/tmp"));
    if is_macos {
        let au = crate::paths::au_wrapper_dir(project_root);
        dirs.push((join_path(au.as_str(), "build"), "packaging/macos/au-wrapper/build".to_string()));
    }
    assert(dirs@.map_values(|d: (String, String)| (d.0@, d.1@)) =~= removable_dirs(project_root@, is_macos));
    dirs
}

/// The summary after a clean: each cleaned item with its size, then the
/// total, or a note that nothing was found.
pub fn reclaimed_summary(items: &[CleanedItem], what: &str) -> (lines: Vec<String>)
    requires
        total_upto(items@, items@.len() as int) <= u64::MAX,
    ensures
        items@.len() == 0 ==> lines@.len() == 0,
        items@.len() > 0 ==> lines@.len() == items@.len() + 1 && lines@.last()@ == what@ + " ("@
            + size_text(total_upto(items@, items@.len() as int)) + " reclaimed)"@,
        forall|i: int| 0 <= i < items@.len() ==> (#[trigger] lines@[i])@ == items@[i].path@ + " ("@
            + size_text(items@[i].size_bytes as nat) + ")"@,
{
    let mut lines: Vec<String> = Vec::new();
    let mut i: usize = 0;
    while i < items.len()
        invariant
            i <= items@.len(),
            lines@.len() == i,
            forall|k: int| 0 <= k < i ==> (#[trigger] lines@[k])@ == items@[k].path@ + " ("@
                + size_text(items@[k].size_bytes as nat) + ")"@,
        decreases items@.len() - i,
    {
        let mut line = items[i].path.clone();
        push_str(&mut line, " (");
        let size = format_size(items[i].size_bytes);
        push_str(&mut line, size.as_str());
        push_str(&mut line, ")");
        lines.push(line);
        i += 1;
    }
    if items.len() > 0 {
        let total = total_size(items);
        let mut last = what.to_string();
        push_str(&mut last, " (");
        let size = format_size(total);
        push_str(&mut last, size.as_str());
        push_str(&mut last, " reclaimed)");
        lines.push(last);
    }
    lines
}

/// The directories a clean removes, in the order it removes them, each
/// with its label: the CLI target, the UI build and coverage outputs, the
/// temporary test artifacts, the bundled plugins, and on macOS the AU
/// wrapper build.
pub open spec fn workspace_dirs(root: Seq<char>, is_macos: bool) -> Seq<(Seq<char>, Seq<char>)> {
    let common = removable_dirs(root, false).push(
        (join(join(join(root, "engine"@), "target"@), "bundled"@), "engine/target/bundled"@),
    );
    if is_macos {
        common.push(removable_dirs(root, true).last())
    } else {
        common
    }
}

/// Where an installed plugin bundle lives.
#[derive(Debug, Clone, Copy, PartialEq, Eq, Structural)]
pub enum InstallDir {
    Vst3,
    Clap,
    Au,
}

/// The installed plugin bundles a clean may remove: the VST3 and CLAP
/// bundles, and on macOS the AU component.
pub open spec fn installed_bundles(is_macos: bool) -> Seq<(InstallDir, Seq<char>)> {
    let common = seq![
        (InstallDir::Vst3, PLUGIN_NAME@ + ".vst3"@),
        (InstallDir::Clap, PLUGIN_NAME@ + ".clap"@),
    ];
    if is_macos {
        common.push((InstallDir::Au, PLUGIN_DISPLAY_NAME@ + ".component"@))
    } else {
        common
    }
}

/// What a clean run does.
#[derive(Debug)]
pub struct CleanPlan {
    /// Only report what would be removed.
    pub dry_run: bool,
    /// Run `cargo clean` in the engine (when its target exists).
    pub cargo_clean: bool,
    /// Workspace directories to remove (those that exist), with labels.
    pub remove_dirs: Vec<(String, String)>,
    /// Workspace directories a dry run reports.
    pub preview_dirs: Vec<(String, String)>,
    /// Installed plugins were asked for without `--force`: warn and stop.
    pub force_warning: bool,
    /// Installed plugin bundles to remove (those that exist).
    pub remove_installed: Vec<(InstallDir, String)>,
    /// Installed plugin bundles a dry run reports.
    pub preview_installed: Vec<(InstallDir, String)>,
}

pub open spec fn dirs_view(v: Seq<(String, String)>) -> Seq<(Seq<char>, Seq<char>)> {
    v.map_values(|d: (String, String)| (d.0@, d.1@))
}

pub open spec fn bundles_view(v: Seq<(InstallDir, String)>) -> Seq<(InstallDir, Seq<char>)> {
    v.map_values(|b: (InstallDir, String)| (b.0, b.1@))
}

fn named(prefix: &str, suffix: &str) -> (s: String)
    ensures
        s@ == prefix@ + suffix@,
{
    let mut s = prefix.to_string();
    push_str(&mut s, suffix);
    s
}

fn installed_list(is_macos: bool) -> (v: Vec<(InstallDir, String)>)
    ensures
        bundles_view(v@) == installed_bundles(is_macos),
{
    let mut v: Vec<(InstallDir, String)> = Vec::new();
    v.push((InstallDir::Vst3, named(PLUGIN_NAME, ".vst3")));
    v.push((InstallDir::Clap, named(PLUGIN_NAME, ".clap")));
    if is_macos {
        v.push((InstallDir::Au, named(PLUGIN_DISPLAY_NAME, ".component")));
    }
    assert(bundles_view(v@) =~= installed_bundles(is_macos));
    v
}

fn workspace_list(project_root: &str, is_macos: bool) -> (v: Vec<(String, String)>)
    ensures
        dirs_view(v@) == workspace_dirs(project_root@, is_macos),
{
    let mut v = clean_targets(project_root, false);
    v.push((bundled_dir(project_root), "engine/target/bundled".to_string()));
    if is_macos {
        let all = clean_targets(project_root, true);
        assert(dirs_view(all@).len() == all@.len());
        assert(removable_dirs(project_root@, true).len() == 5);
        let last = all.len() - 1;
        v.push((all[last].0.clone(), all[last].1.clone()));
        assert(dirs_view(all@)[last as int] == removable_dirs(project_root@, true).last());
    }
    assert(dirs_view(v@) =~= workspace_dirs(project_root@, is_macos));
    v
}

/// Plans a clean: a dry run only reports the workspace directories (and
/// the installed plugins, when asked for); otherwise the engine's `cargo
/// clean` runs and the directories go. Installed plugins go only with
/// `--force`; without it, outside a dry run, the plan warns and stops there.
pub fn clean_plan(
    project_root: &str,
    is_macos: bool,
    include_installed: bool,
    force: bool,
    dry_run: bool,
) -> (p: CleanPlan)
    ensures
        p.dry_run == dry_run,
        p.cargo_clean == !dry_run,
        dry_run ==> p.remove_dirs@.len() == 0 && dirs_view(p.preview_dirs@) == workspace_dirs(
            project_root@,
            is_macos,
        ),
        !dry_run ==> p.preview_dirs@.len() == 0 && dirs_view(p.remove_dirs@) == workspace_dirs(
            project_root@,
            is_macos,
        ),
        p.force_warning == (include_installed && !(force || dry_run)),
        include_installed && force && !dry_run ==> bundles_view(p.remove_installed@)
            == installed_bundles(is_macos),
        !(include_installed && force && !dry_run) ==> p.remove_installed@.len() == 0,
        include_installed && dry_run ==> bundles_view(p.preview_installed@) == installed_bundles(
            is_macos,
        ),
        !(include_installed && dry_run) ==> p.preview_installed@.len() == 0,
{
    let dirs = workspace_list(project_root, is_macos);
    let allowed = installed_removal_allowed(force, dry_run);
    let bundles = if include_installed && allowed {
        installed_list(is_macos)
    } else {
        Vec::new()
    };
    if dry_run {
        CleanPlan {
            dry_run,
            cargo_clean: false,
            remove_dirs: Vec::new(),
            preview_dirs: dirs,
            force_warning: false,
            remove_installed: Vec::new(),
            preview_installed: bundles,
        }
    } else {
        CleanPlan {
            dry_run,
            cargo_clean: true,
            remove_dirs: dirs,
            preview_dirs: Vec::new(),
            force_warning: include_installed && !allowed,
            remove_installed: bundles,
            preview_installed: Vec::new(),
        }
    }
}

} // verus!
