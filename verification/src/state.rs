//! The states of a package: what of its environment, its record and its
//! launchers is there, and which operation may start from which state.

use vstd::prelude::*;
use crate::metadata::Metadata;
use crate::scripts::broken_in;

verus! {

/// Where a package stands.
#[derive(Debug, Clone, Copy, PartialEq, Eq, Structural)]
pub enum State {
    /// No environment, and no launcher of its name.
    Absent,
    /// An environment without a record that can be read.
    Creating,
    /// An environment with its record, and every launcher in order.
    Installed,
    /// An environment with its record, and a launcher that is not in order.
    Stale,
    /// A launcher of its name, but no environment.
    OrphanSymlink,
}

/// An operation on one package.
#[derive(Debug, Clone, Copy, PartialEq, Eq, Structural)]
pub enum Operation {
    Install,
    Create,
    Upgrade,
    Reinstall,
    Uninstall,
    Inject,
    Uninject,
}

/// The state that what was found amounts to.
pub open spec fn state_for(
    env_exists: bool,
    scripts: Option<Seq<(Seq<char>, bool)>>,
    launcher_in_bin: bool,
) -> State {
    if !env_exists {
        if launcher_in_bin {
            State::OrphanSymlink
        } else {
            State::Absent
        }
    } else {
        match scripts {
            None => State::Creating,
            Some(s) => if all_valid(s) {
                State::Installed
            } else {
                State::Stale
            },
        }
    }
}

/// Every launcher is in order.
pub open spec fn all_valid(scripts: Seq<(Seq<char>, bool)>) -> bool {
    forall|i: int| 0 <= i < scripts.len() ==> (#[trigger] scripts[i]).1
}

/// Whether an environment stands in the state.
pub open spec fn has_env(state: State) -> bool {
    state == State::Creating || state == State::Installed || state == State::Stale
}

/// Whether the operation may start from the state: what builds an
/// environment needs none to be there, what works on one needs it to be
/// there, and `force` sets both conditions aside where an operation has it.
pub open spec fn may_start(op: Operation, state: State, force: bool) -> bool {
    match op {
        Operation::Install | Operation::Create => force || !has_env(state),
        Operation::Reinstall | Operation::Uninstall => force || has_env(state),
        Operation::Upgrade | Operation::Inject | Operation::Uninject => has_env(state),
    }
}

/// The state that an operation leaves a package in when it has succeeded.
pub open spec fn state_after(op: Operation) -> State {
    match op {
        Operation::Uninstall => State::Absent,
        _ => State::Installed,
    }
}

/// No launcher is listed as broken exactly if every launcher is in order.
pub proof fn none_broken_means_all_valid(scripts: Seq<(Seq<char>, bool)>)
    ensures
        broken_in(scripts).len() == 0 <==> all_valid(scripts),
    decreases scripts.len(),
{
    if scripts.len() > 0 {
        none_broken_means_all_valid(scripts.drop_last());
        if all_valid(scripts) {
            assert(scripts[scripts.len() - 1].1);
            assert forall|i: int| 0 <= i < scripts.drop_last().len() implies (
            #[trigger] scripts.drop_last()[i]).1 by {
                assert(scripts[i].1);
            }
        }
        if broken_in(scripts).len() == 0 {
            assert forall|i: int| 0 <= i < scripts.len() implies (#[trigger] scripts[i]).1 by {
                if i < scripts.len() - 1 {
                    assert(scripts.drop_last()[i].1);
                }
            }
        }
    }
}

/// Where a package stands, given whether its environment exists, the record
/// that was read from it if one could be, and whether the bin directory
/// holds a launcher of its name.
pub fn state_of(env_exists: bool, metadata: Option<&Metadata>, launcher_in_bin: bool) -> (out: State)
    ensures
        out == state_for(
            env_exists,
            match metadata {
                Some(m) => Some(m.scripts@),
                None => None,
            },
            launcher_in_bin,
        ),
{
    if !env_exists {
        if launcher_in_bin {
            State::OrphanSymlink
        } else {
            State::Absent
        }
    } else {
        match metadata {
            None => State::Creating,
            Some(m) => {
                proof {
                    none_broken_means_all_valid(m.scripts@);
                }
                if m.invalid_scripts().len() == 0 {
                    State::Installed
                } else {
                    State::Stale
                }
            },
        }
    }
}

/// Whether the operation may start from the state.
pub fn can_start(op: Operation, state: State, force: bool) -> (out: bool)
    ensures
        out == may_start(op, state, force),
{
    let env = match state {
        State::Creating | State::Installed | State::Stale => true,
        State::Absent | State::OrphanSymlink => false,
    };
    match op {
        Operation::Install | Operation::Create => force || !env,
        Operation::Reinstall | Operation::Uninstall => force || env,
        Operation::Upgrade | Operation::Inject | Operation::Uninject => env,
    }
}

} // verus!
