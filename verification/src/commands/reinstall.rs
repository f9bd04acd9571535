//! Reinstall: remove an environment and build it again, from the recorded
//! spec unless the new one changes something.

use vstd::prelude::*;
use vstd::string::*;
use crate::error::Error;
use crate::metadata::{Metadata, MetadataView};
use crate::names::{ascending, ascending_unique};
use crate::requirement::Requirement;
use crate::text::texts;

verus! {

/// How an environment is built again.
#[derive(Debug, Clone, PartialEq, Eq)]
pub enum ReinstallPlan {
    /// The record holds no install spec: the environment was created bare and
    /// is created bare again.
    Create { name: String, seed: bool, force: bool },
    /// Install `install_spec`, with these injected packages.
    Install { install_spec: String, inject: Vec<String>, editable: bool },
}

/// A plan as plain values.
pub enum ReinstallPlanView {
    Create { name: Seq<char>, seed: bool, force: bool },
    Install { install_spec: Seq<char>, inject: Seq<Seq<char>>, editable: bool },
}

impl View for ReinstallPlan {
    type V = ReinstallPlanView;

    open spec fn view(&self) -> ReinstallPlanView {
        match *self {
            ReinstallPlan::Create { name, seed, force } => ReinstallPlanView::Create {
                name: name@,
                seed,
                force,
            },
            ReinstallPlan::Install { install_spec, inject, editable } => ReinstallPlanView::Install {
                install_spec: install_spec@,
                inject: texts(inject@),
                editable,
            },
        }
    }
}

/// Whether the new spec changes something: it asks for an editable install,
/// for a version or for extras.
pub open spec fn spec_changes(version: Seq<char>, extras: Seq<Seq<char>>, editable: bool) -> bool {
    editable || version.len() > 0 || extras.len() > 0
}

/// The plan for building the environment again.
pub open spec fn planned(
    install_spec: Seq<char>,
    version: Seq<char>,
    extras: Seq<Seq<char>>,
    current: MetadataView,
    force: bool,
    with_injected: bool,
    editable: bool,
) -> ReinstallPlanView {
    let changed = spec_changes(version, extras, editable);
    let spec = if changed {
        install_spec
    } else {
        current.install_spec
    };
    if spec.len() == 0 {
        ReinstallPlanView::Create { name: current.name, seed: true, force }
    } else {
        ReinstallPlanView::Install {
            install_spec: spec,
            inject: if with_injected {
                current.injected
            } else {
                Seq::empty()
            },
            editable: if changed {
                editable
            } else {
                current.editable
            },
        }
    }
}

/// What a plan leaves in the record of the environment it builds.
pub open spec fn records(plan: ReinstallPlanView, record: MetadataView) -> bool {
    match plan {
        ReinstallPlanView::Create { name, .. } => record.name == name && record.install_spec.len()
            == 0,
        ReinstallPlanView::Install { install_spec, inject, editable } => record.install_spec
            == install_spec && record.injected.to_set() == inject.to_set() && record.editable
            == editable,
    }
}

/// How to reinstall the package of `requirement`.
///
/// A package without an environment is not reinstalled unless `force` is set.
/// A spec that asks for an editable install, a version or extras replaces the
/// recorded one, and then `editable` is taken from the caller; otherwise the
/// recorded spec and its editable flag are used again. The injected packages
/// are carried over if `with_injected` is set. A record with an empty install
/// spec stands for a bare environment, which is created again.
pub fn reinstall(
    install_spec: &str,
    requirement: &Requirement,
    current_metadata: &Metadata,
    venv_exists: bool,
    force: bool,
    with_injected: bool,
    editable: bool,
) -> (out: Result<ReinstallPlan, Error>)
    ensures
        !venv_exists && !force ==> (out matches Err(Error::NotInstalled { name, spec }) && name@
            == requirement.name@ && spec@ == install_spec@),
        venv_exists || force ==> out is Ok && out->Ok_0@ == planned(
            install_spec@,
            requirement.version@,
            texts(requirement.extras@),
            current_metadata@,
            force,
            with_injected,
            editable,
        ),
{
    if !venv_exists && !force {
        return Err(
            Error::NotInstalled {
                name: requirement.name.clone(),
                spec: String::from_str(install_spec),
            },
        );
    }
    let changed = editable || !requirement.version.as_str().is_empty()
        || requirement.extras.len() > 0;
    let new_install_spec = if changed {
        String::from_str(install_spec)
    } else {
        current_metadata.install_spec.clone()
    };
    if new_install_spec.as_str().is_empty() {
        return Ok(ReinstallPlan::Create { name: current_metadata.name.clone(), seed: true, force });
    }
    let inject = if with_injected {
        current_metadata.vec_injected()
    } else {
        let none: Vec<String> = Vec::new();
        assert(texts(none@) =~= Seq::<Seq<char>>::empty());
        none
    };
    let as_editable = if changed {
        editable
    } else {
        current_metadata.editable
    };
    Ok(ReinstallPlan::Install { install_spec: new_install_spec, inject, editable: as_editable })
}

/// Reinstalling twice comes to the same: if the record after a reinstall
/// holds what the plan installed, under the same name and with its injected
/// packages in ascending order, the same request gives the same plan again.
pub proof fn reinstall_twice_plans_alike(
    install_spec: Seq<char>,
    version: Seq<char>,
    extras: Seq<Seq<char>>,
    before: MetadataView,
    after: MetadataView,
    force: bool,
    with_injected: bool,
    editable: bool,
)
    requires
        ascending(before.injected),
        ascending(after.injected),
        after.name == before.name,
        records(
            planned(install_spec, version, extras, before, force, with_injected, editable),
            after,
        ),
    ensures
        planned(install_spec, version, extras, after, force, with_injected, editable) == planned(
            install_spec,
            version,
            extras,
            before,
            force,
            with_injected,
            editable,
        ),
{
    let first = planned(install_spec, version, extras, before, force, with_injected, editable);
    match first {
        ReinstallPlanView::Create { .. } => {},
        ReinstallPlanView::Install { install_spec: spec, inject, editable: e } => {
            if with_injected {
                ascending_unique(before.injected, after.injected);
            } else {
                assert(after.injected.len() == 0) by {
                    if after.injected.len() > 0 {
                        assert(after.injected.contains(after.injected[0]));
                        assert(after.injected.to_set().contains(after.injected[0]));
                        assert(inject.contains(after.injected[0]));
                    }
                }
            }
        },
    }
}

} // verus!
