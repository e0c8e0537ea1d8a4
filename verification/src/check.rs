//! Decisions of the pre-push check: which phases run and whether the run
//! passed.

use std::time::Duration;
use vstd::prelude::*;

verus! {

/// Check configuration options.
#[derive(Debug, Clone)]
pub struct CheckConfig {
    /// Auto-fix linting issues where possible
    pub fix: bool,
    /// Skip documentation checks
    pub skip_docs: bool,
    /// Skip linting
    pub skip_lint: bool,
    /// Skip automated tests
    pub skip_tests: bool,
    /// Enable extended checks (template validation + CD dry-run)
    pub full: bool,
    /// Skip template validation phase (only applicable with --full)
    pub skip_template: bool,
    /// Skip CD dry-run phase (only applicable with --full)
    pub skip_cd: bool,
    /// Show verbose output
    pub verbose: bool,
}

impl Default for CheckConfig {
    fn default() -> (config: Self)
        ensures
            !config.fix && !config.skip_docs && !config.skip_lint && !config.skip_tests
                && !config.full && !config.skip_template && !config.skip_cd && !config.verbose,
    {
        CheckConfig {
            fix: false,
            skip_docs: false,
            skip_lint: false,
            skip_tests: false,
            full: false,
            skip_template: false,
            skip_cd: false,
            verbose: false,
        }
    }
}

/// Result of each check phase: `None` when the phase did not run, the
/// elapsed time when it passed, the error text when it failed.
#[derive(Debug)]
pub struct CheckResults {
    pub docs: Option<Result<Duration, String>>,
    pub lint: Option<Result<Duration, String>>,
    pub test: Option<Result<Duration, String>>,
    pub template: Option<Result<Duration, String>>,
    pub cd_dry_run: Option<Result<Duration, String>>,
}

/// A phase that did not run, or ran and passed.
pub open spec fn phase_ok(r: Option<Result<Duration, String>>) -> bool {
    match r {
        None => true,
        Some(res) => res is Ok,
    }
}

impl CheckResults {
    /// No phase has run yet.
    pub fn new() -> (results: Self)
        ensures
            results.docs is None && results.lint is None && results.test is None
                && results.template is None && results.cd_dry_run is None,
    {
        CheckResults { docs: None, lint: None, test: None, template: None, cd_dry_run: None }
    }

    /// Whether every phase that ran passed.
    pub fn all_passed(&self) -> (r: bool)
        ensures
            r == (phase_ok(self.docs) && phase_ok(self.lint) && phase_ok(self.test) && phase_ok(
                self.template,
            ) && phase_ok(self.cd_dry_run)),
    {
        let docs_ok = match &self.docs {
            None => true,
            Some(r) => r.is_ok(),
        };
        let lint_ok = match &self.lint {
            None => true,
            Some(r) => r.is_ok(),
        };
        let test_ok = match &self.test {
            None => true,
            Some(r) => r.is_ok(),
        };
        let template_ok = match &self.template {
            None => true,
            Some(r) => r.is_ok(),
        };
        let cd_ok = match &self.cd_dry_run {
            None => true,
            Some(r) => r.is_ok(),
        };
        docs_ok && lint_ok && test_ok && template_ok && cd_ok
    }
}

/// What happens to one phase of the check.
#[derive(Debug, Clone, Copy, PartialEq, Eq, Structural)]
pub enum PhaseAction {
    /// The phase runs.
    Run,
    /// The phase is skipped on request, and the skip is announced.
    AnnounceSkip,
    /// The phase is not part of this run at all.
    Omit,
}

/// The action for each phase of a check run, in phase order.
#[derive(Debug, Clone, Copy, PartialEq, Eq, Structural)]
pub struct CheckPlan {
    pub docs: PhaseAction,
    pub lint: PhaseAction,
    pub test: PhaseAction,
    pub template: PhaseAction,
    pub cd_dry_run: PhaseAction,
}

/// A phase that runs unless skipped on request.
pub open spec fn optional_phase(skip: bool) -> PhaseAction {
    if skip {
        PhaseAction::AnnounceSkip
    } else {
        PhaseAction::Run
    }
}

/// A phase that belongs to `--full` runs only.
pub open spec fn full_only_phase(full: bool, skip: bool) -> PhaseAction {
    if !full {
        PhaseAction::Omit
    } else if skip {
        PhaseAction::AnnounceSkip
    } else {
        PhaseAction::Run
    }
}

fn optional_phase_exec(skip: bool) -> (a: PhaseAction)
    ensures
        a == optional_phase(skip),
{
    if skip {
        PhaseAction::AnnounceSkip
    } else {
        PhaseAction::Run
    }
}

fn full_only_phase_exec(full: bool, skip: bool) -> (a: PhaseAction)
    ensures
        a == full_only_phase(full, skip),
{
    if !full {
        PhaseAction::Omit
    } else if skip {
        PhaseAction::AnnounceSkip
    } else {
        PhaseAction::Run
    }
}

/// Which phases a check run performs: documentation, linting and tests run
/// unless skipped; template validation and the CD dry-run belong to `--full`
/// runs and can be skipped there.
pub fn plan_phases(config: &CheckConfig) -> (plan: CheckPlan)
    ensures
        plan == (CheckPlan {
            docs: optional_phase(config.skip_docs),
            lint: optional_phase(config.skip_lint),
            test: optional_phase(config.skip_tests),
            template: full_only_phase(config.full, config.skip_template),
            cd_dry_run: full_only_phase(config.full, config.skip_cd),
        }),
{
    CheckPlan {
        docs: optional_phase_exec(config.skip_docs),
        lint: optional_phase_exec(config.skip_lint),
        test: optional_phase_exec(config.skip_tests),
        template: full_only_phase_exec(config.full, config.skip_template),
        cd_dry_run: full_only_phase_exec(config.full, config.skip_cd),
    }
}

/// How a phase ended, as the summary reports it.
#[derive(Debug)]
pub enum PhaseReport {
    /// It passed after this long.
    Passed(Duration),
    /// It failed with this error.
    Failed(String),
    /// It did not run.
    Skipped,
}

/// One line of the summary: a phase's name and how it ended.
#[derive(Debug)]
pub struct SummaryEntry {
    pub label: &'static str,
    pub report: PhaseReport,
}

/// Whether a report says what a phase's result says.
pub open spec fn reports(report: PhaseReport, r: Option<Result<Duration, String>>) -> bool {
    match r {
        Some(Ok(d)) => report == PhaseReport::Passed(d),
        Some(Err(e)) => report matches PhaseReport::Failed(m) && m@ == e@,
        None => report is Skipped,
    }
}

/// The phases the summary lists, with their names: documentation, linting
/// and tests always; template validation and the CD dry-run when they ran
/// or the run was `--full`.
pub open spec fn summary_phases(results: CheckResults, full: bool) -> Seq<
    (Seq<char>, Option<Result<Duration, String>>),
> {
    seq![
        ("Documentation"@, results.docs),
        ("Linting"@, results.lint),
        ("Automated Tests"@, results.test),
    ] + (if results.template is Some || full {
        seq![("Template Validation"@, results.template)]
    } else {
        seq![]
    }) + (if results.cd_dry_run is Some || full {
        seq![("CD Dry-Run"@, results.cd_dry_run)]
    } else {
        seq![]
    })
}

fn report_of(r: &Option<Result<Duration, String>>) -> (report: PhaseReport)
    ensures
        reports(report, *r),
{
    match r {
        Some(Ok(d)) => PhaseReport::Passed(*d),
        Some(Err(e)) => PhaseReport::Failed(e.clone()),
        None => PhaseReport::Skipped,
    }
}

/// The phase lines of the summary, in phase order.
pub fn summary_entries(results: &CheckResults, full: bool) -> (entries: Vec<SummaryEntry>)
    ensures
        entries@.len() == summary_phases(*results, full).len(),
        forall|i: int|
            0 <= i < entries@.len() ==> (#[trigger] entries@[i]).label@ == summary_phases(
                *results,
                full,
            )[i].0 && reports(entries@[i].report, summary_phases(*results, full)[i].1),
{
    let mut entries: Vec<SummaryEntry> = Vec::new();
    entries.push(SummaryEntry { label: "Documentation", report: report_of(&results.docs) });
    entries.push(SummaryEntry { label: "Linting", report: report_of(&results.lint) });
    entries.push(SummaryEntry { label: "Automated Tests", report: report_of(&results.test) });
    if results.template.is_some() || full {
        entries.push(SummaryEntry { label: "Template Validation", report: report_of(&results.template) });
    }
    if results.cd_dry_run.is_some() || full {
        entries.push(SummaryEntry { label: "CD Dry-Run", report: report_of(&results.cd_dry_run) });
    }
    let ghost ph = summary_phases(*results, full);
    assert(entries@.len() == ph.len());
    assert forall|i: int| 0 <= i < entries@.len() implies (#[trigger] entries@[i]).label@ == ph[i].0
        && reports(entries@[i].report, ph[i].1) by {
        if i >= 3 {
            if results.template is Some || full {
                if i == 4 {
                    assert(ph[4] == ("CD Dry-Run"@, results.cd_dry_run));
                } else {
                    assert(ph[3] == ("Template Validation"@, results.template));
                }
            } else {
                assert(ph[3] == ("CD Dry-Run"@, results.cd_dry_run));
            }
        }
    }
    entries
}

/// A run that skips every phase passes.
pub proof fn law_no_phase_run_passes(results: CheckResults)
    requires
        results.docs is None && results.lint is None && results.test is None
            && results.template is None && results.cd_dry_run is None,
    ensures
        phase_ok(results.docs) && phase_ok(results.lint) && phase_ok(results.test) && phase_ok(
            results.template,
        ) && phase_ok(results.cd_dry_run),
{
}

} // verus!
