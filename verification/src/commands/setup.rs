//! Setup: which shell features are installed, each of them once.

use vstd::prelude::*;

verus! {

/// Which features `setup` has installed.
#[derive(Debug, Clone, Copy, PartialEq, Eq, PartialOrd, Ord, Hash, Default)]
pub struct SetupMetadata {
    pub feature_ensurepath: bool,
    pub feature_completions: bool,
    pub feature_activate: bool,
}

/// Which features a run of `setup` installs.
#[derive(Debug, Clone, Copy, PartialEq, Eq)]
pub struct SetupPlan {
    pub ensurepath: bool,
    pub completions: bool,
    pub activate: bool,
}

/// A feature is installed if it is asked for and either was not installed
/// before or `force` is set.
pub open spec fn installs(wanted: bool, done: bool, force: bool) -> bool {
    wanted && (!done || force)
}

impl SetupMetadata {
    /// Nothing installed yet.
    pub fn new() -> (out: Self)
        ensures
            !out.feature_ensurepath,
            !out.feature_completions,
            !out.feature_activate,
    {
        SetupMetadata {
            feature_ensurepath: false,
            feature_completions: false,
            feature_activate: false,
        }
    }
}

/// Which features to install now, and the record of what is installed
/// afterwards: a feature that is tried counts as installed, even if it failed.
pub fn setup_for_bash(
    metadata: SetupMetadata,
    do_ensurepath: bool,
    do_completions: bool,
    do_activate: bool,
    force: bool,
) -> (out: (SetupPlan, SetupMetadata))
    ensures
        out.0.ensurepath == installs(do_ensurepath, metadata.feature_ensurepath, force),
        out.0.completions == installs(do_completions, metadata.feature_completions, force),
        out.0.activate == installs(do_activate, metadata.feature_activate, force),
        out.1.feature_ensurepath == (metadata.feature_ensurepath || out.0.ensurepath),
        out.1.feature_completions == (metadata.feature_completions || out.0.completions),
        out.1.feature_activate == (metadata.feature_activate || out.0.activate),
{
    let plan = SetupPlan {
        ensurepath: do_ensurepath && (!metadata.feature_ensurepath || force),
        completions: do_completions && (!metadata.feature_completions || force),
        activate: do_activate && (!metadata.feature_activate || force),
    };
    let after = SetupMetadata {
        feature_ensurepath: metadata.feature_ensurepath || plan.ensurepath,
        feature_completions: metadata.feature_completions || plan.completions,
        feature_activate: metadata.feature_activate || plan.activate,
    };
    (plan, after)
}

/// The exit code of `setup`: 1 if anything went wrong on the way, else 0.
pub fn setup_exit_code(any_warnings: bool) -> (out: i32)
    ensures
        out == (if any_warnings {
            1i32
        } else {
            0i32
        }),
{
    if any_warnings {
        1
    } else {
        0
    }
}

} // verus!
