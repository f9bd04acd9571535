//! Uninstall: remove the launchers of an environment, then the environment.

use vstd::prelude::*;
use vstd::string::*;
use crate::error::Error;
use crate::metadata::Metadata;
use crate::paint::{cyan, cyan_text};
use crate::scripts::keys_of;
use crate::text::texts;

verus! {

/// What an uninstall does.
#[derive(Debug, Clone, PartialEq, Eq)]
pub enum UninstallPlan {
    /// There is no environment. With `orphan`, the launcher of that name in
    /// the bin directory is removed if it is a link. Either way the
    /// operation then ends with `error`.
    Missing { orphan: Option<String>, error: Error },
    /// Remove each of `launchers` from the bin directory if it is a link,
    /// then remove the environment.
    Remove { launchers: Vec<String> },
}

/// The launchers that an uninstall removes: those of the record, and no
/// other.
pub open spec fn launchers_to_remove(scripts: Seq<(Seq<char>, bool)>) -> Seq<Seq<char>> {
    keys_of(scripts)
}

/// What is said after an uninstall.
pub open spec fn removed_message(package_name: Seq<char>, installed_version: Seq<char>) -> Seq<
    char,
> {
    "🗑️  "@ + package_name + (if installed_version.len() > 0 {
        " ("@ + cyan_text(installed_version) + ")"@
    } else {
        Seq::empty()
    }) + " removed!"@
}

/// How to uninstall the package `requirement_name`.
///
/// Without an environment nothing is uninstalled: that is an error, before
/// which `force` still has a launcher of the package's name removed. With one,
/// every launcher of the record goes, and then the environment; a launcher
/// that the record does not list is left alone.
pub fn uninstall_package(
    requirement_name: &str,
    venv_exists: bool,
    force: bool,
    metadata: &Metadata,
) -> (out: UninstallPlan)
    ensures
        !venv_exists && force ==> (out matches UninstallPlan::Missing {
            orphan: Some(launcher),
            error: Error::OrphanRemoved { name },
        } && launcher@ == requirement_name@ && name@ == requirement_name@),
        !venv_exists && !force ==> (out matches UninstallPlan::Missing {
            orphan: None,
            error: Error::NothingToUninstall { name },
        } && name@ == requirement_name@),
        venv_exists ==> (out matches UninstallPlan::Remove { launchers } && texts(launchers@)
            == launchers_to_remove(metadata.scripts@)),
{
    if !venv_exists {
        if force {
            return UninstallPlan::Missing {
                orphan: Some(String::from_str(requirement_name)),
                error: Error::OrphanRemoved { name: String::from_str(requirement_name) },
            };
        } else {
            return UninstallPlan::Missing {
                orphan: None,
                error: Error::NothingToUninstall { name: String::from_str(requirement_name) },
            };
        }
    }
    UninstallPlan::Remove { launchers: metadata.scripts.names() }
}

/// An uninstall removes every launcher of the record.
pub proof fn uninstall_covers_scripts(scripts: Seq<(Seq<char>, bool)>, i: int)
    requires
        0 <= i < scripts.len(),
    ensures
        launchers_to_remove(scripts).contains(scripts[i].0),
{
    assert(keys_of(scripts)[i] == scripts[i].0);
}

/// An uninstall removes no launcher that the record does not list.
pub proof fn uninstall_spares_others(scripts: Seq<(Seq<char>, bool)>, name: Seq<char>)
    requires
        launchers_to_remove(scripts).contains(name),
    ensures
        exists|i: int| 0 <= i < scripts.len() && (#[trigger] scripts[i]).0 == name,
{
    let k = choose|k: int| 0 <= k < keys_of(scripts).len() && keys_of(scripts)[k] == name;
    assert(scripts[k].0 == name);
}

/// What is said after the package was removed.
pub fn removed(package_name: &str, installed_version: &str) -> (out: String)
    ensures
        out@ == removed_message(package_name@, installed_version@),
{
    let mut version = String::new();
    if !installed_version.is_empty() {
        version.append(" (");
        version.append(cyan(installed_version).as_str());
        version.append(")");
        assert(version@ =~= " ("@ + cyan_text(installed_version@) + ")"@);
    }
    let mut out = String::from_str("🗑️  ");
    out.append(package_name);
    out.append(version.as_str());
    out.append(" removed!");
    out
}

/// The exit code of an operation that ended with `error`: 2 where the goal
/// was met already and only a warning is due, 1 otherwise.
pub fn exit_code(error: &Error) -> (out: i32)
    ensures
        out == (if error is OrphanRemoved {
            2i32
        } else {
            1i32
        }),
{
    match error {
        Error::OrphanRemoved { .. } => 2,
        _ => 1,
    }
}

} // verus!
