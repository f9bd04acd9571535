//! Upgrade: ask the installer for a newer version inside an existing
//! environment, and say what came of it.

use vstd::prelude::*;
use vstd::string::*;
use crate::metadata::{Metadata, MetadataView};
use crate::names::NameSet;
use crate::paint::{cyan, cyan_text, green, green_text};
use crate::requirement::Requirement;
use crate::text::{append_strings, join, joined, push_text, same_text, texts};

verus! {

/// What an upgrade asks of the installer, and the constraint it records.
#[derive(Debug, Clone, PartialEq, Eq)]
pub struct UpgradePlan {
    /// The arguments for the installer.
    pub args: Vec<String>,
    /// The constraint that holds from now on.
    pub requested_version: String,
    /// The extras asked for, in ascending order.
    pub extras: Vec<String>,
}

/// The constraint that an upgrade works under: that of the new spec if it has
/// one; else none if `force` is set; else the recorded one.
pub open spec fn effective_version(new_version: Seq<char>, recorded: Seq<char>, force: bool) -> Seq<
    char,
> {
    if new_version.len() > 0 {
        new_version
    } else if force {
        Seq::empty()
    } else {
        recorded
    }
}

/// The spec handed to the installer: the name, the extras in brackets if
/// there are any, and the constraint.
pub open spec fn upgrade_spec(name: Seq<char>, extras: Seq<Seq<char>>, version: Seq<char>) -> Seq<
    char,
> {
    name + (if extras.len() > 0 {
        "["@ + joined(extras, ","@) + "]"@
    } else {
        Seq::empty()
    }) + version
}

/// The arguments of an upgrade.
pub open spec fn upgrade_args(
    spec: Seq<char>,
    injected: Seq<Seq<char>>,
    force: bool,
    no_cache: bool,
    skip_injected: bool,
) -> Seq<Seq<char>> {
    seq!["pip"@, "install"@, "--upgrade"@] + (if force || no_cache {
        seq!["--no-cache"@]
    } else {
        Seq::empty()
    }) + seq![spec] + (if skip_injected {
        Seq::empty()
    } else {
        injected
    })
}

/// What is said after an upgrade.
pub open spec fn upgrade_message(old_version: Seq<char>, new_version: Seq<char>, m: MetadataView) -> Seq<
    char,
> {
    if old_version == new_version {
        "🌟 '"@ + green_text(m.name) + "' is already up to date at version "@ + cyan_text(
            new_version,
        ) + "!"@ + (if m.requested_version.len() > 0 {
            "\n💡 This package was installed with a version constraint ("@ + cyan_text(
                m.requested_version,
            ) + "). If you want to ignore this constraint, use `"@ + green_text(
                "uvenv upgrade --force "@ + m.name,
            ) + "`."@
        } else {
            Seq::empty()
        })
    } else {
        "🚀 Successfully updated '"@ + green_text(m.name) + "' from version "@ + cyan_text(
            old_version,
        ) + " to version "@ + cyan_text(new_version) + "!"@
    }
}

/// Records what an upgrade came to; hands the new version back.
pub fn update_metadata(metadata: &mut Metadata, requested_version: String, new_version: String) -> (out:
    String)
    ensures
        out@ == new_version@,
        final(metadata)@ == (MetadataView {
            requested_version: requested_version@,
            installed_version: new_version@,
            ..old(metadata)@
        }),
{
    metadata.requested_version = requested_version;
    metadata.installed_version = new_version.clone();
    new_version
}

/// What is said after an upgrade from `old_version` to `new_version`: that
/// the package moved, or that it was up to date already, with a hint at the
/// constraint it was installed with if there is one.
pub fn build_msg(old_version: &str, new_version: &str, metadata: &Metadata) -> (out: String)
    ensures
        out@ == upgrade_message(old_version@, new_version@, metadata@),
{
    if same_text(old_version, new_version) {
        let mut out = String::from_str("🌟 '");
        out.append(green(metadata.name.as_str()).as_str());
        out.append("' is already up to date at version ");
        out.append(cyan(new_version).as_str());
        out.append("!");
        let mut hint = String::new();
        if !metadata.requested_version.as_str().is_empty() {
            let mut command = String::from_str("uvenv upgrade --force ");
            command.append(metadata.name.as_str());
            hint.append("\n💡 This package was installed with a version constraint (");
            hint.append(cyan(metadata.requested_version.as_str()).as_str());
            hint.append("). If you want to ignore this constraint, use `");
            hint.append(green(command.as_str()).as_str());
            hint.append("`.");
            assert(hint@ =~= "\n💡 This package was installed with a version constraint ("@
                + cyan_text(metadata.requested_version@)
                + "). If you want to ignore this constraint, use `"@ + green_text(
                "uvenv upgrade --force "@ + metadata.name@,
            ) + "`."@);
        }
        out.append(hint.as_str());
        out
    } else {
        let mut out = String::from_str("🚀 Successfully updated '");
        out.append(green(metadata.name.as_str()).as_str());
        out.append("' from version ");
        out.append(cyan(old_version).as_str());
        out.append(" to version ");
        out.append(cyan(new_version).as_str());
        out.append("!");
        out
    }
}

/// The extras of an upgrade: the recorded ones and those of the new spec.
pub fn upgrade_extras(metadata: &Metadata, requirement: &Requirement) -> (out: NameSet)
    ensures
        out.members() == metadata.extras.members().union(texts(requirement.extras@).to_set()),
{
    let mut extras = metadata.extras.clone();
    extras.extend(&requirement.extras);
    extras
}

/// What an upgrade of the package of `metadata` asks of the installer.
///
/// The constraint is that of the new spec if it has one, else the recorded
/// one unless `force` is set. The recorded extras and those of the new spec
/// are asked for, and the injected packages are upgraded along unless
/// `skip_injected` is set.
pub fn _upgrade_package(
    requirement: &Requirement,
    metadata: &Metadata,
    force: bool,
    no_cache: bool,
    skip_injected: bool,
) -> (out: UpgradePlan)
    ensures
        out.requested_version@ == effective_version(
            requirement.version@,
            metadata.requested_version@,
            force,
        ),
        crate::names::ascending(texts(out.extras@)),
        texts(out.extras@).to_set() == metadata.extras.members().union(
            texts(requirement.extras@).to_set(),
        ),
        texts(out.args@) == upgrade_args(
            upgrade_spec(metadata.name@, texts(out.extras@), out.requested_version@),
            metadata.injected@,
            force,
            no_cache,
            skip_injected,
        ),
{
    let version = if !requirement.version.as_str().is_empty() {
        requirement.version.clone()
    } else if force {
        String::new()
    } else {
        metadata.requested_version.clone()
    };
    let extras = upgrade_extras(metadata, requirement);
    let names = extras.to_vec();
    let mut spec = metadata.name.clone();
    let mut bracket = String::new();
    if names.len() > 0 {
        bracket.append("[");
        bracket.append(join(&names, ",").as_str());
        bracket.append("]");
        assert(bracket@ =~= "["@ + joined(texts(names@), ","@) + "]"@);
    }
    spec.append(bracket.as_str());
    spec.append(version.as_str());
    assert(spec@ == upgrade_spec(metadata.name@, texts(names@), version@));

    let mut args: Vec<String> = Vec::new();
    push_text(&mut args, "pip");
    push_text(&mut args, "install");
    push_text(&mut args, "--upgrade");
    if force || no_cache {
        push_text(&mut args, "--no-cache");
    }
    push_text(&mut args, spec.as_str());
    if !skip_injected {
        let injected = metadata.vec_injected();
        append_strings(&mut args, &injected);
    }
    assert(texts(args@) =~= upgrade_args(
        upgrade_spec(metadata.name@, texts(names@), version@),
        metadata.injected@,
        force,
        no_cache,
        skip_injected,
    ));
    UpgradePlan { args, requested_version: version, extras: names }
}

} // verus!
