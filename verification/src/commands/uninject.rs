//! Uninject: take injected packages out of an environment again.

use vstd::prelude::*;
use vstd::string::*;
use crate::metadata::{Metadata, MetadataView};
use crate::paint::{green, green_text};
use crate::text::{append_strings, join, joined, push_text, texts};

verus! {

/// The arguments that make the installer remove `specs`.
pub open spec fn eject_args(specs: Seq<Seq<char>>) -> Seq<Seq<char>> {
    seq!["pip"@, "uninstall"@] + specs
}

/// Each item in green.
pub open spec fn all_green(items: Seq<Seq<char>>) -> Seq<Seq<char>> {
    Seq::new(items.len(), |i: int| green_text(items[i]))
}

/// What is said after an uninject.
pub open spec fn ejected_message(specs: Seq<Seq<char>>, name: Seq<char>) -> Seq<char> {
    "⏏️  Ejected ["@ + joined(all_green(specs), ", "@) + "] from "@ + green_text(name) + "."@
}

/// The arguments for the installer that remove `to_eject_specs` from the
/// active environment.
pub fn eject_package(to_eject_specs: &Vec<String>) -> (out: Vec<String>)
    ensures
        texts(out@) == eject_args(texts(to_eject_specs@)),
{
    let mut args: Vec<String> = Vec::new();
    push_text(&mut args, "pip");
    push_text(&mut args, "uninstall");
    append_strings(&mut args, to_eject_specs);
    assert(texts(args@) =~= eject_args(texts(to_eject_specs@)));
    args
}

/// Records that `specs` were taken out: they leave the injected packages of
/// the record, and nothing else changes.
pub fn record_ejected(metadata: &mut Metadata, specs: &Vec<String>)
    ensures
        final(metadata).injected.members() == old(metadata).injected.members().difference(
            texts(specs@).to_set(),
        ),
        final(metadata)@ == (MetadataView { injected: final(metadata).injected@, ..old(metadata)@ }),
{
    metadata.injected.remove_all(specs);
}

/// What is said after `specs` were taken out of the environment of `name`.
pub fn ejected(specs: &Vec<String>, name: &str) -> (out: String)
    ensures
        out@ == ejected_message(texts(specs@), name@),
{
    let mut coloured: Vec<String> = Vec::new();
    let mut i: usize = 0;
    while i < specs.len()
        invariant
            i <= specs.len(),
            coloured@.len() == i,
            forall|j: int| 0 <= j < i ==> (#[trigger] coloured@[j])@ == green_text(specs@[j]@),
        decreases specs.len() - i,
    {
        coloured.push(green(specs[i].as_str()));
        i += 1;
    }
    assert(texts(coloured@) =~= all_green(texts(specs@)));
    let mut out = String::from_str("⏏️  Ejected [");
    out.append(join(&coloured, ", ").as_str());
    out.append("] from ");
    out.append(green(name).as_str());
    out.append(".");
    out
}

/// Injecting packages into a record and taking the same ones out again
/// leaves none of them, and leaves every other member in place.
pub proof fn eject_undoes_inject(before: Set<Seq<char>>, specs: Set<Seq<char>>)
    ensures
        before.union(specs).difference(specs) == before.difference(specs),
        before.disjoint(specs) ==> before.union(specs).difference(specs) == before,
{
    assert(before.union(specs).difference(specs) =~= before.difference(specs));
    if before.disjoint(specs) {
        assert(before.difference(specs) =~= before);
    }
}

} // verus!
