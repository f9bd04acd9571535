//! Inject: add packages to an environment beside its main package.

use vstd::prelude::*;
use vstd::string::*;
use crate::metadata::{Metadata, MetadataView};
use crate::paint::{green, green_text};
use crate::text::{append_strings, join, joined, push_text, texts};

verus! {

/// The arguments that make the installer add `specs`.
pub open spec fn inject_args(specs: Seq<Seq<char>>, no_cache: bool) -> Seq<Seq<char>> {
    seq!["pip"@, "install"@] + (if no_cache {
        seq!["--no-cache"@]
    } else {
        Seq::empty()
    }) + specs
}

/// What is said after an inject.
pub open spec fn injected_message(specs: Seq<Seq<char>>, name: Seq<char>) -> Seq<char> {
    "💉 Injected ["@ + joined(specs, ", "@) + "] into "@ + green_text(name) + "."@
}

/// What the spinner says while packages are injected.
pub open spec fn injecting_message(specs: Seq<Seq<char>>, name: Seq<char>) -> Seq<char> {
    "injecting "@ + joined(specs, ", "@) + " into "@ + name
}

/// The arguments for the installer that add `to_inject_specs` to the active
/// environment.
pub fn inject_package(to_inject_specs: &Vec<String>, no_cache: bool) -> (out: Vec<String>)
    ensures
        texts(out@) == inject_args(texts(to_inject_specs@), no_cache),
{
    let mut args: Vec<String> = Vec::new();
    push_text(&mut args, "pip");
    push_text(&mut args, "install");
    if no_cache {
        push_text(&mut args, "--no-cache");
    }
    append_strings(&mut args, to_inject_specs);
    assert(texts(args@) =~= inject_args(texts(to_inject_specs@), no_cache));
    args
}

/// Records that `specs` were injected: they join the injected packages of
/// the record, and nothing else changes.
pub fn record_injected(metadata: &mut Metadata, specs: &Vec<String>)
    ensures
        final(metadata).injected.members() == old(metadata).injected.members().union(
            texts(specs@).to_set(),
        ),
        final(metadata)@ == (MetadataView { injected: final(metadata).injected@, ..old(metadata)@ }),
{
    metadata.injected.extend(specs);
}

/// What the spinner says while `specs` are injected.
pub fn injecting(specs: &Vec<String>, name: &str) -> (out: String)
    ensures
        out@ == injecting_message(texts(specs@), name@),
{
    let mut out = String::from_str("injecting ");
    out.append(join(specs, ", ").as_str());
    out.append(" into ");
    out.append(name);
    out
}

/// What is said after `specs` were injected into the environment of `name`.
pub fn injected(specs: &Vec<String>, name: &str) -> (out: String)
    ensures
        out@ == injected_message(texts(specs@), name@),
{
    let mut out = String::from_str("💉 Injected [");
    out.append(join(specs, ", ").as_str());
    out.append("] into ");
    out.append(green(name).as_str());
    out.append(".");
    out
}

} // verus!
