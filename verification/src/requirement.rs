//! An install spec as the installer understands it: a name, extras, and a
//! version constraint or a location.

use vstd::prelude::*;
use vstd::string::*;
use crate::names::NameSet;
use crate::text::{texts, to_chars};

verus! {

/// What the operations read of a parsed install spec.
#[derive(Debug, Clone, PartialEq, Eq, Default)]
pub struct Requirement {
    /// The normalized name of the distribution.
    pub name: String,
    /// The extras asked for, without brackets.
    pub extras: Vec<String>,
    /// The version constraint as text; empty where the spec has none or names
    /// a location instead.
    pub version: String,
}

/// What can be read off an install spec.
pub trait ExtractInfo {
    /// The version constraint as text, empty where there is none.
    fn version(&self) -> String;

    /// The extras.
    fn extras(&self) -> NameSet;
}

impl ExtractInfo for Requirement {
    fn version(&self) -> (out: String)
        ensures
            out@ == self.version@,
    {
        self.version.clone()
    }

    fn extras(&self) -> (out: NameSet)
        ensures
            out.members() == texts(self.extras@).to_set(),
    {
        NameSet::from_vec(&self.extras)
    }
}

/// What became of an install spec.
#[derive(Debug, Clone, PartialEq, Eq)]
pub enum Parsed {
    /// It is a requirement; the text is the spec as it was given.
    Standard(Requirement, String),
    /// It is none: a dry install has to say what it names.
    Local,
    /// It holds `${`, which may stand for a variable of the environment:
    /// whoever can read the environment has to parse it.
    Placeholder,
}

/// What `uv_pep508::Requirement::from_str` makes of a text without `${`:
/// nothing if the text is no requirement, else the name, the extras and the
/// version constraint of the requirement, each as text.
pub uninterp spec fn pep508_requirement(text: Seq<char>) -> Option<
    (Seq<char>, Seq<Seq<char>>, Seq<char>),
>;

/// The text holds a `$` with a `{` right behind it.
pub open spec fn has_placeholder(text: Seq<char>) -> bool {
    exists|i: int| 0 <= i && i + 1 < text.len() && text[i] == '$' && #[trigger] text[i + 1] == '{'
}

/// The name, the extras and the version constraint of a requirement.
pub open spec fn parts(requirement: Requirement) -> (Seq<char>, Seq<Seq<char>>, Seq<char>) {
    (requirement.name@, texts(requirement.extras@), requirement.version@)
}

/// What a text without `${` reads as.
pub open spec fn reads_as(out: Parsed, install_spec: Seq<char>) -> bool {
    match pep508_requirement(install_spec) {
        Some(found) => out matches Parsed::Standard(requirement, spec) && parts(requirement)
            == found && spec@ == install_spec,
        None => out == Parsed::Local,
    }
}

/// `uv_pep508::Requirement::from_str`, with the name, the extras and the
/// version constraint of the result as text. The parser fills in variables of
/// the environment only where the text holds `${`; on a text without it the
/// outcome depends on the text alone.
#[verifier::external_body]
fn parse_pep508(text: &str) -> (out: Option<Requirement>)
    requires
        !has_placeholder(text@),
    ensures
        match pep508_requirement(text@) {
            Some(found) => out is Some && parts(out->0) == found,
            None => out is None,
        },
{
    match text.parse::<uv_pep508::Requirement>() {
        Err(_) => None,
        Ok(req) => Some(
            Requirement {
                name: req.name.to_string(),
                extras: req.extras.iter().map(|e| e.to_string()).collect(),
                version: match &req.version_or_url {
                    Some(uv_pep508::VersionOrUrl::VersionSpecifier(v)) => v.to_string(),
                    _ => String::new(),
                },
            },
        ),
    }
}

/// Whether the text holds `${`.
pub fn holds_placeholder(text: &str) -> (out: bool)
    ensures
        out == has_placeholder(text@),
{
    let chars = to_chars(text);
    let mut i: usize = 1;
    while i < chars.len()
        invariant
            1 <= i,
            chars@ == text@,
            forall|j: int|
                0 <= j && j + 1 < i ==> !(chars@[j] == '$' && #[trigger] chars@[j + 1] == '{'),
        decreases chars.len() - i,
    {
        if chars[i - 1] == '$' && chars[i] == '{' {
            assert(text@[i - 1] == '$' && text@[(i - 1) + 1] == '{');
            return true;
        }
        i += 1;
    }
    false
}

/// Reads an install spec. A spec that is a requirement is kept as it was
/// given; one that is not has to be resolved by a dry install; one that holds
/// `${` is left to the caller, who reads it with the environment at hand and
/// passes the outcome to `classify`.
pub fn parse_requirement(install_spec: &str) -> (out: Parsed)
    ensures
        has_placeholder(install_spec@) ==> out == Parsed::Placeholder,
        !has_placeholder(install_spec@) ==> reads_as(out, install_spec@),
{
    if holds_placeholder(install_spec) {
        Parsed::Placeholder
    } else {
        classify(parse_pep508(install_spec), install_spec)
    }
}

/// What a parse of `install_spec` amounts to.
pub fn classify(parsed: Option<Requirement>, install_spec: &str) -> (out: Parsed)
    ensures
        match parsed {
            Some(r) => out matches Parsed::Standard(requirement, spec) && requirement == r
                && spec@ == install_spec@,
            None => out == Parsed::Local,
        },
{
    match parsed {
        Some(r) => Parsed::Standard(r, String::from_str(install_spec)),
        None => Parsed::Local,
    }
}

/// Reads the spec that a dry install has resolved: the requirement together
/// with the spec, or nothing if the spec is no requirement. A spec that holds
/// `${` is not read here either; the caller reads it and passes the outcome
/// to `with_spec`.
pub fn parse_resolved(resolved_spec: String) -> (out: Option<(Requirement, String)>)
    ensures
        match pep508_requirement(resolved_spec@) {
            Some(found) => if has_placeholder(resolved_spec@) {
                out is None
            } else {
                out matches Some(pair) && parts(pair.0) == found && pair.1@ == resolved_spec@
            },
            None => out is None,
        },
{
    if holds_placeholder(resolved_spec.as_str()) {
        None
    } else {
        with_spec(parse_pep508(resolved_spec.as_str()), resolved_spec)
    }
}

/// What a parse of a resolved spec amounts to: the requirement together with
/// the spec it was read from, or nothing if the spec is no requirement.
pub fn with_spec(parsed: Option<Requirement>, resolved_spec: String) -> (out: Option<
    (Requirement, String),
>)
    ensures
        match parsed {
            Some(r) => out == Some((r, resolved_spec)),
            None => out is None,
        },
{
    match parsed {
        Some(r) => Some((r, resolved_spec)),
        None => None,
    }
}

} // verus!
