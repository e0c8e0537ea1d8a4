//! The commands that the lint command runs for each target.

use vstd::prelude::*;

verus! {

/// Lint target selection.
#[derive(Debug, Clone, Copy, PartialEq, Eq, Structural)]
pub struct LintTargets {
    pub ui: bool,
    pub engine: bool,
    pub fix: bool,
}

impl Default for LintTargets {
    fn default() -> (t: Self)
        ensures
            t == (LintTargets { ui: true, engine: true, fix: false }),
    {
        LintTargets { ui: true, engine: true, fix: false }
    }
}

/// The character view of a list of string slices.
pub open spec fn arg_views(v: Seq<&'static str>) -> Seq<Seq<char>> {
    v.map_values(|s: &'static str| s@)
}

/// `cargo fmt`, checking only unless fixing.
pub fn cargo_fmt_args(fix: bool) -> (args: Vec<&'static str>)
    ensures
        arg_views(args@) == (if fix {
            seq!["fmt"@]
        } else {
            seq!["fmt"@, "--check"@]
        }),
{
    let args = if fix {
        vec!["fmt"]
    } else {
        vec!["fmt", "--check"]
    };
    assert(arg_views(args@) =~= (if fix {
        seq!["fmt"@]
    } else {
        seq!["fmt"@, "--check"@]
    }));
    args
}

/// `cargo clippy` over the workspace with warnings denied, applying fixes
/// when asked.
pub fn cargo_clippy_args(fix: bool) -> (args: Vec<&'static str>)
    ensures
        arg_views(args@) == (if fix {
            seq![
                "clippy"@,
                "--workspace"@,
                "--fix"@,
                "--allow-dirty"@,
                "--allow-staged"@,
                "--"@,
                "-D"@,
                "warnings"@,
            ]
        } else {
            seq!["clippy"@, "--workspace"@, "--"@, "-D"@, "warnings"@]
        }),
{
    let args = if fix {
        vec!["clippy", "--workspace", "--fix", "--allow-dirty", "--allow-staged", "--", "-D", "warnings"]
    } else {
        vec!["clippy", "--workspace", "--", "-D", "warnings"]
    };
    assert(arg_views(args@) =~= (if fix {
        seq![
            "clippy"@,
            "--workspace"@,
            "--fix"@,
            "--allow-dirty"@,
            "--allow-staged"@,
            "--"@,
            "-D"@,
            "warnings"@,
        ]
    } else {
        seq!["clippy"@, "--workspace"@, "--"@, "-D"@, "warnings"@]
    }));
    args
}

/// The npm scripts of the UI lint, in order: ESLint, Prettier, type-check.
pub fn ui_lint_scripts(fix: bool) -> (scripts: Vec<&'static str>)
    ensures
        arg_views(scripts@) == (if fix {
            seq!["lint:fix"@, "format"@, "typecheck"@]
        } else {
            seq!["lint"@, "format:check"@, "typecheck"@]
        }),
{
    let scripts = if fix {
        vec!["lint:fix", "format", "typecheck"]
    } else {
        vec!["lint", "format:check", "typecheck"]
    };
    assert(arg_views(scripts@) =~= (if fix {
        seq!["lint:fix"@, "format"@, "typecheck"@]
    } else {
        seq!["lint"@, "format:check"@, "typecheck"@]
    }));
    scripts
}

/// The message when the `step`-th UI lint script (0 ESLint, 1 Prettier,
/// 2 type-check) fails.
pub open spec fn ui_lint_failure_text(step: int, fix: bool) -> Seq<char> {
    if step == 0 {
        "ESLint found issues. Run 'cargo xtask lint --ui --fix' or 'npm run lint:fix' to auto-fix."@
    } else if step == 1 {
        if fix {
            "Prettier formatting failed"@
        } else {
            "Formatting issues found. Run 'cargo xtask lint --ui --fix' or 'npm run format' to fix."@
        }
    } else {
        "TypeScript type-check failed. Run 'npm run typecheck' in ui/ to inspect errors."@
    }
}

/// The message when a UI lint script fails.
pub fn ui_lint_failure(step: usize, fix: bool) -> (s: &'static str)
    requires
        step < 3,
    ensures
        s@ == ui_lint_failure_text(step as int, fix),
{
    if step == 0 {
        "ESLint found issues. Run 'cargo xtask lint --ui --fix' or 'npm run lint:fix' to auto-fix."
    } else if step == 1 {
        if fix {
            "Prettier formatting failed"
        } else {
            "Formatting issues found. Run 'cargo xtask lint --ui --fix' or 'npm run format' to fix."
        }
    } else {
        "TypeScript type-check failed. Run 'npm run typecheck' in ui/ to inspect errors."
    }
}

} // verus!
