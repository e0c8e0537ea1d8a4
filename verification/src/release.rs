//! The steps of a release build.

use vstd::prelude::*;

verus! {

/// One step of a release build.
#[derive(Debug, Clone, Copy, PartialEq, Eq, Structural)]
pub enum ReleaseStep {
    /// Build release bundles.
    Bundle,
    /// Sign the bundles.
    Sign,
    /// Notarize the bundles (blocking).
    Notarize,
}

/// The steps of a release: bundle, sign, then notarize unless skipped.
pub fn run(skip_notarize: bool) -> (steps: Vec<ReleaseStep>)
    ensures
        steps@ == (if skip_notarize {
            seq![ReleaseStep::Bundle, ReleaseStep::Sign]
        } else {
            seq![ReleaseStep::Bundle, ReleaseStep::Sign, ReleaseStep::Notarize]
        }),
{
    let mut steps: Vec<ReleaseStep> = vec![ReleaseStep::Bundle, ReleaseStep::Sign];
    if !skip_notarize {
        steps.push(ReleaseStep::Notarize);
    }
    assert(steps@ =~= (if skip_notarize {
        seq![ReleaseStep::Bundle, ReleaseStep::Sign]
    } else {
        seq![ReleaseStep::Bundle, ReleaseStep::Sign, ReleaseStep::Notarize]
    }));
    steps
}

} // verus!
