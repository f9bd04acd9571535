//! Create: make a bare environment, without a main package.

use vstd::prelude::*;
use vstd::string::*;
use crate::metadata::{fresh_record, python_label, Metadata, MetadataView, PythonInfo};
use crate::paint::{green, green_text};

verus! {

/// What is said after a bare environment was created.
pub open spec fn created_message(name: Seq<char>) -> Seq<char> {
    "🏗️ Succesfully created '"@ + green_text(name) + "'!"@
}

/// The record of a bare environment: its install spec is empty, which marks
/// it as holding no package.
pub fn create(name: &str, python: &PythonInfo) -> (out: Metadata)
    ensures
        out@ == (MetadataView {
            python: python_label(*python),
            python_raw: python.stdlib@,
            ..fresh_record(name@)
        }),
{
    let mut metadata = Metadata::new(name);
    metadata.fill_python(python);
    metadata
}

/// What is said after the environment `name` was created.
pub fn created(name: &str) -> (out: String)
    ensures
        out@ == created_message(name@),
{
    let mut out = String::from_str("🏗️ Succesfully created '");
    out.append(green(name).as_str());
    out.append("'!");
    out
}

} // verus!
