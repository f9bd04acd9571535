//! Run: install a package into a throwaway environment and start one of its
//! launchers.

use vstd::prelude::*;
use vstd::string::*;
use crate::error::Error;
use crate::paths::{join_path, joined_path};
use crate::symlinks::{is_listed, listed};
use crate::text::{copy_strings, texts};

verus! {

/// What a run does next.
#[derive(Debug, Clone, Copy, PartialEq, Eq, Structural)]
pub enum RunStep {
    /// Read the spec.
    Parse,
    /// Create the throwaway environment.
    CreateVenv,
    /// Make it the active one.
    Activate,
    /// Have the installer install the package.
    RunInstaller,
    /// Start the launcher and wait for it.
    Launch,
    /// Remove the environment; `launched` says whether the launcher could be
    /// started.
    RemoveVenv { launched: bool },
    /// The launcher has run; its exit code is that of the run.
    Done,
    /// The run has failed.
    Failed,
}

/// The step that follows `step`, which has succeeded if `ok` is set. Once
/// the launcher was tried the environment is removed unless it is to be
/// kept, whether the launcher could be started or not.
pub open spec fn run_follows(step: RunStep, ok: bool, keep: bool) -> RunStep {
    match step {
        RunStep::Parse => if ok {
            RunStep::CreateVenv
        } else {
            RunStep::Failed
        },
        RunStep::CreateVenv => if ok {
            RunStep::Activate
        } else {
            RunStep::Failed
        },
        RunStep::Activate => if ok {
            RunStep::RunInstaller
        } else {
            RunStep::Failed
        },
        RunStep::RunInstaller => if ok {
            RunStep::Launch
        } else {
            RunStep::Failed
        },
        RunStep::Launch => if !keep {
            RunStep::RemoveVenv { launched: ok }
        } else if ok {
            RunStep::Done
        } else {
            RunStep::Failed
        },
        RunStep::RemoveVenv { launched } => if ok && launched {
            RunStep::Done
        } else {
            RunStep::Failed
        },
        RunStep::Done => RunStep::Done,
        RunStep::Failed => RunStep::Failed,
    }
}

/// The prefix of the environments that `run` creates.
pub open spec fn run_prefix() -> Seq<char> {
    "/tmp/uvenv-"@
}

/// The launcher to start.
pub open spec fn chosen_launcher(
    name: Seq<char>,
    package_spec: Seq<char>,
    symlinks: Seq<Seq<char>>,
) -> Option<Seq<char>> {
    if symlinks.len() == 0 {
        Some(name)
    } else if symlinks.len() == 1 {
        Some(symlinks[0])
    } else if listed(symlinks, package_spec) {
        Some(package_spec)
    } else {
        None
    }
}

/// The step of a run that follows `step`.
pub fn run_package(step: RunStep, ok: bool, keep: bool) -> (out: RunStep)
    ensures
        out == run_follows(step, ok, keep),
{
    match step {
        RunStep::Parse => if ok {
            RunStep::CreateVenv
        } else {
            RunStep::Failed
        },
        RunStep::CreateVenv => if ok {
            RunStep::Activate
        } else {
            RunStep::Failed
        },
        RunStep::Activate => if ok {
            RunStep::RunInstaller
        } else {
            RunStep::Failed
        },
        RunStep::RunInstaller => if ok {
            RunStep::Launch
        } else {
            RunStep::Failed
        },
        RunStep::Launch => if !keep {
            RunStep::RemoveVenv { launched: ok }
        } else if ok {
            RunStep::Done
        } else {
            RunStep::Failed
        },
        RunStep::RemoveVenv { launched } => if ok && launched {
            RunStep::Done
        } else {
            RunStep::Failed
        },
        RunStep::Done => RunStep::Done,
        RunStep::Failed => RunStep::Failed,
    }
}

/// A run that is not to keep its environment does not end after the launcher
/// was tried without the environment having been removed.
pub proof fn run_cleans_up(ok: bool)
    ensures
        run_follows(RunStep::Launch, ok, false) == (RunStep::RemoveVenv { launched: ok }),
        run_follows(RunStep::Launch, ok, true) != (RunStep::RemoveVenv { launched: ok }),
{
}

/// The prefix below which `run` puts its environments.
pub fn temp_prefix() -> (out: String)
    ensures
        out@ == run_prefix(),
{
    String::from_str("/tmp/uvenv-")
}

/// Which launcher of a package to start, given those it has.
///
/// Without any, the package's own name is tried. A single one is taken. Of
/// several, the one that is named exactly like the spec is taken; if there
/// is none, the choice is left to the user.
pub fn _find_executable(requirement_name: &str, package_spec: &str, symlinks: &Vec<String>) -> (out:
    Result<String, Error>)
    ensures
        match chosen_launcher(requirement_name@, package_spec@, texts(symlinks@)) {
            Some(launcher) => out is Ok && out->Ok_0@ == launcher,
            None => out matches Err(Error::AmbiguousExecutable { name, spec, candidates })
                && name@ == requirement_name@ && spec@ == package_spec@ && texts(candidates@)
                == texts(symlinks@),
        },
{
    if symlinks.len() == 0 {
        Ok(String::from_str(requirement_name))
    } else if symlinks.len() == 1 {
        Ok(symlinks[0].clone())
    } else if is_listed(symlinks, package_spec) {
        Ok(String::from_str(package_spec))
    } else {
        Err(
            Error::AmbiguousExecutable {
                name: String::from_str(requirement_name),
                spec: String::from_str(package_spec),
                candidates: copy_strings(symlinks),
            },
        )
    }
}

/// The file to start: the launcher asked for, or else the one found, in the
/// `bin` directory of the environment.
pub fn find_executable(binary: Option<&String>, found: &str, venv_path: &str) -> (out: String)
    ensures
        out@ == joined_path(
            joined_path(venv_path@, "bin"@),
            match binary {
                Some(b) => b@,
                None => found@,
            },
        ),
{
    let bin = join_path(venv_path, "bin");
    match binary {
        Some(b) => join_path(bin.as_str(), b.as_str()),
        None => join_path(bin.as_str(), found),
    }
}

} // verus!
