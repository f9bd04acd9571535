//! Install: create an environment, install the package into it, record it
//! and link its launchers.

use vstd::prelude::*;
use vstd::string::*;
use crate::error::Error;
use crate::metadata::{python_label, Metadata, MetadataView};
use crate::names::NameSet;
use crate::paint::{cyan, cyan_text};
use crate::requirement::Requirement;
use crate::scripts::{state_in, ScriptMap};
use crate::text::{append_strings, push_text, texts};
use crate::venv::Environment;

verus! {

/// Where the environment of an install comes from.
#[derive(Debug, Clone, PartialEq, Eq)]
pub enum VenvSource {
    /// The environment exists already, at this path.
    Existing(String),
    /// It has to be created.
    Create,
}

/// What an install does next.
#[derive(Debug, Clone, Copy, PartialEq, Eq, Structural)]
pub enum InstallStep {
    /// Read the install spec.
    Parse,
    /// Find or create the environment.
    EnsureVenv,
    /// Make the environment the active one.
    Activate,
    /// Have the installer install the package.
    RunInstaller,
    /// Remove the environment again, because the installer failed.
    RemoveVenv,
    /// Write the record of the package.
    StoreRecord,
    /// Link the launchers; a launcher that cannot be linked is recorded as
    /// not in order and does not stop the install.
    LinkLaunchers,
    /// Write the record again, now with the launchers.
    SaveRecord,
    /// The package is installed.
    Done,
    /// The install has failed.
    Failed,
}

/// The step that follows `step`, which has succeeded if `ok` is set. A
/// failure ends the install; a failure of the installer first has the
/// environment removed, so that no half-built one is left.
pub open spec fn install_follows(step: InstallStep, ok: bool) -> InstallStep {
    match step {
        InstallStep::Parse => if ok {
            InstallStep::EnsureVenv
        } else {
            InstallStep::Failed
        },
        InstallStep::EnsureVenv => if ok {
            InstallStep::Activate
        } else {
            InstallStep::Failed
        },
        InstallStep::Activate => if ok {
            InstallStep::RunInstaller
        } else {
            InstallStep::Failed
        },
        InstallStep::RunInstaller => if ok {
            InstallStep::StoreRecord
        } else {
            InstallStep::RemoveVenv
        },
        InstallStep::RemoveVenv => InstallStep::Failed,
        InstallStep::StoreRecord => if ok {
            InstallStep::LinkLaunchers
        } else {
            InstallStep::Failed
        },
        InstallStep::LinkLaunchers => if ok {
            InstallStep::SaveRecord
        } else {
            InstallStep::Failed
        },
        InstallStep::SaveRecord => if ok {
            InstallStep::Done
        } else {
            InstallStep::Failed
        },
        InstallStep::Done => InstallStep::Done,
        InstallStep::Failed => InstallStep::Failed,
    }
}

/// The place of a step in an install that succeeds.
pub open spec fn install_rank(step: InstallStep) -> nat {
    match step {
        InstallStep::Parse => 0,
        InstallStep::EnsureVenv => 1,
        InstallStep::Activate => 2,
        InstallStep::RunInstaller => 3,
        InstallStep::StoreRecord => 4,
        InstallStep::LinkLaunchers => 5,
        InstallStep::SaveRecord => 6,
        InstallStep::Done => 7,
        InstallStep::RemoveVenv => 8,
        InstallStep::Failed => 9,
    }
}

/// The step reached from `Parse` after `n` steps that all succeeded.
pub open spec fn install_reached(n: nat) -> InstallStep
    decreases n,
{
    if n == 0 {
        InstallStep::Parse
    } else {
        install_follows(install_reached((n - 1) as nat), true)
    }
}

/// The arguments that make the installer install a package.
pub open spec fn install_args(
    package_name: Seq<char>,
    inject: Seq<Seq<char>>,
    no_cache: bool,
    force: bool,
    editable: bool,
) -> Seq<Seq<char>> {
    seq!["pip"@, "install"@] + inject + (if no_cache || force {
        seq!["--no-cache"@]
    } else {
        Seq::empty()
    }) + (if editable {
        seq!["--editable"@]
    } else {
        Seq::empty()
    }) + seq![package_name]
}

/// What is said after an install.
pub open spec fn installed_message(name: Seq<char>, version: Seq<char>) -> Seq<char> {
    "📦 "@ + name + " ("@ + cyan_text(version) + ") installed!"@
}

/// What the spinner says during an install.
pub open spec fn installing_message(package_name: Seq<char>) -> Seq<char> {
    "installing "@ + package_name
}

/// The flags of the launchers after the outcomes `results`, of which a later
/// one for the same name overrides an earlier one.
pub open spec fn recorded_state(results: Seq<(Seq<char>, bool)>, name: Seq<char>) -> Option<bool>
    decreases results.len(),
{
    if results.len() == 0 {
        None
    } else if results.last().0 == name {
        Some(results.last().1)
    } else {
        recorded_state(results.drop_last(), name)
    }
}

/// The outcomes as plain values.
pub open spec fn outcomes(results: Seq<(String, bool)>) -> Seq<(Seq<char>, bool)> {
    Seq::new(results.len(), |i: int| (results[i].0@, results[i].1))
}

/// The arguments for the installer that install `package_name`, with the
/// packages of `inject` before it. The cache is left out if `no_cache` or
/// `force` is set, and `--editable` stands right before the package.
pub fn _install_package(
    package_name: &str,
    inject: &Vec<String>,
    no_cache: bool,
    force: bool,
    editable: bool,
) -> (out: Vec<String>)
    ensures
        texts(out@) == install_args(package_name@, texts(inject@), no_cache, force, editable),
{
    let mut args: Vec<String> = Vec::new();
    push_text(&mut args, "pip");
    push_text(&mut args, "install");
    append_strings(&mut args, inject);
    if no_cache || force {
        push_text(&mut args, "--no-cache");
    }
    if editable {
        push_text(&mut args, "--editable");
    }
    push_text(&mut args, package_name);
    assert(texts(args@) =~= install_args(package_name@, texts(inject@), no_cache, force, editable));
    args
}

/// The step of an install that follows `step`.
pub fn install_package(step: InstallStep, ok: bool) -> (out: InstallStep)
    ensures
        out == install_follows(step, ok),
{
    match step {
        InstallStep::Parse => if ok {
            InstallStep::EnsureVenv
        } else {
            InstallStep::Failed
        },
        InstallStep::EnsureVenv => if ok {
            InstallStep::Activate
        } else {
            InstallStep::Failed
        },
        InstallStep::Activate => if ok {
            InstallStep::RunInstaller
        } else {
            InstallStep::Failed
        },
        InstallStep::RunInstaller => if ok {
            InstallStep::StoreRecord
        } else {
            InstallStep::RemoveVenv
        },
        InstallStep::RemoveVenv => InstallStep::Failed,
        InstallStep::StoreRecord => if ok {
            InstallStep::LinkLaunchers
        } else {
            InstallStep::Failed
        },
        InstallStep::LinkLaunchers => if ok {
            InstallStep::SaveRecord
        } else {
            InstallStep::Failed
        },
        InstallStep::SaveRecord => if ok {
            InstallStep::Done
        } else {
            InstallStep::Failed
        },
        InstallStep::Done => InstallStep::Done,
        InstallStep::Failed => InstallStep::Failed,
    }
}

/// An install that succeeds takes its steps in one order: the environment is
/// there before the installer runs, the installer has run before the record
/// is written, the record is written before the launchers are linked, and
/// the launchers are linked before the record is written for the last time.
/// After seven steps it is done.
pub proof fn install_takes_steps_in_order(n: nat)
    requires
        n <= 7,
    ensures
        install_rank(install_reached(n)) == n,
        install_reached(7) == InstallStep::Done,
    decreases n,
{
    reveal_with_fuel(install_reached, 8);
    if n > 0 {
        install_takes_steps_in_order((n - 1) as nat);
    }
}

/// An install never ends well once a step has failed, and an environment
/// whose installer failed is removed before the install ends.
pub proof fn install_failure_is_final(step: InstallStep)
    ensures
        install_follows(step, false) == InstallStep::Failed || (step == InstallStep::RunInstaller
            && install_follows(step, false) == InstallStep::RemoveVenv) || step
            == InstallStep::Done,
        install_follows(InstallStep::RemoveVenv, true) == InstallStep::Failed,
        install_follows(InstallStep::RemoveVenv, false) == InstallStep::Failed,
        install_follows(InstallStep::Failed, true) == InstallStep::Failed,
{
}

/// What the spinner says while `package_name` is installed.
pub fn installing(package_name: &str) -> (out: String)
    ensures
        out@ == installing_message(package_name@),
{
    let mut out = String::from_str("installing ");
    out.append(package_name);
    out
}

/// Where the environment of an install comes from: the one supplied, which
/// must exist, or a new one.
pub fn ensure_venv(maybe_venv: Option<&str>, exists: bool) -> (out: Result<VenvSource, Error>)
    ensures
        match maybe_venv {
            Some(given) => if exists {
                out matches Ok(VenvSource::Existing(path)) && path@ == given@
            } else {
                out == Err::<VenvSource, Error>(Error::MissingVenv)
            },
            None => out == Ok::<VenvSource, Error>(VenvSource::Create),
        },
{
    match maybe_venv {
        Some(path) => {
            if exists {
                Ok(VenvSource::Existing(String::from_str(path)))
            } else {
                Err(Error::MissingVenv)
            }
        },
        None => Ok(VenvSource::Create),
    }
}

/// The record of a package that was just installed.
pub fn store_metadata(
    requirement: &Requirement,
    inject: &Vec<String>,
    editable: bool,
    install_spec: &str,
    venv: &Environment,
    installed_version: Option<String>,
) -> (out: Metadata)
    ensures
        out.extras.members() == texts(requirement.extras@).to_set(),
        out.injected.members() == texts(inject@).to_set(),
        out@ == (MetadataView {
            name: requirement.name@,
            scripts: Seq::empty(),
            install_spec: install_spec@,
            extras: out.extras@,
            requested_version: requirement.version@,
            installed_version: match installed_version {
                Some(v) => v@,
                None => Seq::empty(),
            },
            python: python_label(venv.python),
            python_raw: venv.python.stdlib@,
            injected: out.injected@,
            editable,
            available_version: Seq::empty(),
            outdated: false,
        }),
{
    let mut metadata = Metadata::new(requirement.name.as_str());
    let _ = metadata.fill(Some(&venv.python));
    metadata.editable = editable;
    metadata.install_spec = String::from_str(install_spec);
    metadata.requested_version = requirement.version.clone();
    metadata.extras = NameSet::from_vec(&requirement.extras);
    metadata.injected = NameSet::from_vec(inject);
    match installed_version {
        Some(v) => {
            metadata.installed_version = v;
        },
        None => {},
    }
    metadata
}

/// Records the launchers of a package: for each name of `results` whether
/// its link was made.
pub fn install_symlinks(meta: &mut Metadata, results: &Vec<(String, bool)>)
    ensures
        forall|name: Seq<char>| #[trigger]
            state_in(final(meta).scripts@, name) == recorded_state(outcomes(results@), name),
        final(meta)@ == (MetadataView { scripts: final(meta).scripts@, ..old(meta)@ }),
{
    let mut scripts = ScriptMap::new();
    let mut i: usize = 0;
    assert(outcomes(results@).take(0) =~= Seq::<(Seq<char>, bool)>::empty());
    assert forall|name: Seq<char>| #[trigger]
        state_in(scripts@, name) == recorded_state(outcomes(results@).take(0), name) by {}
    while i < results.len()
        invariant
            i <= results.len(),
            forall|name: Seq<char>| #[trigger]
                state_in(scripts@, name) == recorded_state(
                    outcomes(results@).take(i as int),
                    name,
                ),
        decreases results.len() - i,
    {
        let ghost before = scripts@;
        proof {
            let next = outcomes(results@).take(i + 1);
            assert(next.drop_last() == outcomes(results@).take(i as int));
            assert(next.last() == (results@[i as int].0@, results@[i as int].1));
        }
        scripts.insert(results[i].0.clone(), results[i].1);
        assert forall|name: Seq<char>| #[trigger]
            state_in(scripts@, name) == recorded_state(
                outcomes(results@).take(i + 1),
                name,
            ) by {
            if name != results@[i as int].0@ {
                assert(scripts.state_of(name) == state_in(before, name));
            }
        }
        i += 1;
    }
    assert(outcomes(results@).take(i as int) == outcomes(results@));
    meta.scripts = scripts;
}

/// What is said after the package `requirement_name` was installed.
pub fn installed(requirement_name: &str, installed_version: &str) -> (out: String)
    ensures
        out@ == installed_message(requirement_name@, installed_version@),
{
    let mut out = String::from_str("📦 ");
    out.append(requirement_name);
    out.append(" (");
    out.append(cyan(installed_version).as_str());
    out.append(") installed!");
    out
}

} // verus!
