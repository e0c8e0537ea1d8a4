//! Which test suites the test command runs, and the engine's test arguments.

use vstd::prelude::*;

verus! {

/// The crates tested when no package is named.
pub open spec fn default_test_crates() -> Seq<Seq<char>> {
    seq!["dsp"@, "protocol"@]
}

/// What the test command runs.
#[derive(Debug, Clone)]
pub struct TestPlan {
    pub run_engine: bool,
    pub run_ui: bool,
    /// The arguments of `cargo` for the engine tests.
    pub engine_args: Vec<String>,
}

/// The `cargo` arguments of the engine tests: the whole workspace, the named
/// packages, or the default crates.
pub open spec fn engine_test_args(packages: Option<Seq<Seq<char>>>, test_all: bool) -> Seq<Seq<char>> {
    if test_all {
        seq!["test"@, "--workspace"@]
    } else {
        let pkgs = match packages {
            Some(p) => p,
            None => default_test_crates(),
        };
        seq!["test"@] + package_flags(pkgs)
    }
}

/// `-p name` for each package.
pub open spec fn package_flags(pkgs: Seq<Seq<char>>) -> Seq<Seq<char>>
    decreases pkgs.len(),
{
    if pkgs.len() == 0 {
        seq![]
    } else {
        package_flags(pkgs.drop_last()) + seq!["-p"@, pkgs.last()]
    }
}

/// The character views of a list of strings, if there is one.
pub open spec fn opt_views(p: Option<Vec<String>>) -> Option<Seq<Seq<char>>> {
    match p {
        Some(v) => Some(v@.map_values(|s: String| s@)),
        None => None,
    }
}

/// Decides what the test command runs: the UI unless only the engine is
/// asked for, the engine unless only the UI is.
pub fn run(packages: Option<Vec<String>>, test_all: bool, ui_only: bool, engine_only: bool) -> (plan:
    TestPlan)
    ensures
        plan.run_ui == (ui_only || !engine_only),
        plan.run_engine == (engine_only || !ui_only),
        plan.engine_args@.map_values(|s: String| s@) == engine_test_args(opt_views(packages), test_all),
{
    let ghost pv = opt_views(packages);
    let mut args: Vec<String> = Vec::new();
    args.push("test".to_string());
    if test_all {
        args.push("--workspace".to_string());
        assert(args@.map_values(|s: String| s@) =~= engine_test_args(pv, test_all));
    } else {
        let pkgs: Vec<String> = match packages {
            Some(p) => p,
            None => vec!["dsp".to_string(), "protocol".to_string()],
        };
        let ghost ps = pkgs@.map_values(|s: String| s@);
        assert(ps =~= match pv {
            Some(p) => p,
            None => default_test_crates(),
        });
        let mut i: usize = 0;
        assert(ps.take(0) =~= Seq::<Seq<char>>::empty());
        while i < pkgs.len()
            invariant
                i <= pkgs@.len(),
                ps == pkgs@.map_values(|s: String| s@),
                args@.map_values(|s: String| s@) == seq!["test"@] + package_flags(ps.take(i as int)),
            decreases pkgs@.len() - i,
        {
            assert(ps.take(i + 1).drop_last() =~= ps.take(i as int));
            assert(ps.take(i + 1).last() == pkgs@[i as int]@);
            let ghost before = args@.map_values(|s: String| s@);
            args.push("-p".to_string());
            args.push(pkgs[i].clone());
            assert(args@.map_values(|s: String| s@) =~= before + seq!["-p"@, pkgs@[i as int]@]);
            assert(args@.map_values(|s: String| s@) =~= seq!["test"@] + package_flags(ps.take(i + 1)));
            i += 1;
        }
        assert(ps.take(pkgs@.len() as int) =~= ps);
    }
    TestPlan { run_engine: engine_only || !ui_only, run_ui: ui_only || !engine_only, engine_args: args }
}

/// Some suite always runs.
pub proof fn law_some_suite_runs(ui_only: bool, engine_only: bool)
    ensures
        (ui_only || !engine_only) || (engine_only || !ui_only),
{
}

/// Whether a test run passed: every suite that ran (`Some`) passed; a
/// failing suite does not stop the others.
pub fn tests_passed(engine: Option<bool>, ui: Option<bool>) -> (r: bool)
    ensures
        r == (engine != Some(false) && ui != Some(false)),
{
    let engine_ok = match engine {
        Some(ok) => ok,
        None => true,
    };
    let ui_ok = match ui {
        Some(ok) => ok,
        None => true,
    };
    engine_ok && ui_ok
}

} // verus!
