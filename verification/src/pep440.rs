//! Version numbers and version specifiers. Parsing, ordering and matching are
//! done by `uv_pep440`; a `Version` or `VersionSpecifier` of this module holds
//! a text that it has accepted.

use vstd::prelude::*;
use vstd::string::*;

verus! {

/// Whether `uv_pep440::Version::from_str` accepts `text`.
pub uninterp spec fn pep440_version(text: Seq<char>) -> bool;

/// Whether the version that `text` parses to is an alpha, beta, rc or dev release.
pub uninterp spec fn pep440_prerelease(text: Seq<char>) -> bool;

/// Whether the version that `a` parses to is at most the one that `b` parses to.
pub uninterp spec fn pep440_le(a: Seq<char>, b: Seq<char>) -> bool;

/// Whether `uv_pep440::VersionSpecifier::from_str` accepts `text`.
pub uninterp spec fn pep440_specifier(text: Seq<char>) -> bool;

/// Whether the specifier that `spec` parses to admits the version that
/// `version` parses to.
pub uninterp spec fn pep440_contains(spec: Seq<char>, version: Seq<char>) -> bool;

/// `a` is strictly below `b`.
pub open spec fn version_lt(a: Seq<char>, b: Seq<char>) -> bool {
    !pep440_le(b, a)
}

/// The text of the version that stands for "nothing installed".
pub open spec fn zero_text() -> Seq<char> {
    "0.0.0"@
}

/// `Version::from_str`: says whether the text is a version. The text `0.0.0`
/// is one.
#[verifier::external_body]
fn parses_as_version(text: &str) -> (ok: bool)
    ensures
        ok == pep440_version(text@),
        text@ == zero_text() ==> ok,
{
    text.parse::<uv_pep440::Version>().is_ok()
}

/// `Version::any_prerelease` of the parsed text.
#[verifier::external_body]
fn any_prerelease(text: &str) -> (r: bool)
    requires
        pep440_version(text@),
    ensures
        r == pep440_prerelease(text@),
{
    text.parse::<uv_pep440::Version>().map_or(false, |v| v.any_prerelease())
}

/// `Ord` of `Version`, on the parsed texts. The crate documents it as a total
/// order: of two versions one is at most the other, and what is at most a
/// version is at most everything above that version.
#[verifier::external_body]
fn at_most(a: &str, b: &str) -> (r: bool)
    requires
        pep440_version(a@),
        pep440_version(b@),
    ensures
        r == pep440_le(a@, b@),
        !r ==> pep440_le(b@, a@),
        r ==> forall|c: Seq<char>|
            pep440_version(c) && #[trigger] pep440_le(b@, c) ==> pep440_le(a@, c),
{
    match (a.parse::<uv_pep440::Version>(), b.parse::<uv_pep440::Version>()) {
        (Ok(x), Ok(y)) => x <= y,
        _ => false,
    }
}

/// `VersionSpecifier::from_str`: says whether the text is a specifier.
#[verifier::external_body]
fn parses_as_specifier(text: &str) -> (ok: bool)
    ensures
        ok == pep440_specifier(text@),
{
    text.parse::<uv_pep440::VersionSpecifier>().is_ok()
}

/// `VersionSpecifier::contains`, on the parsed texts.
#[verifier::external_body]
fn admits(spec: &str, version: &str) -> (r: bool)
    requires
        pep440_specifier(spec@),
        pep440_version(version@),
    ensures
        r == pep440_contains(spec@, version@),
{
    match (spec.parse::<uv_pep440::VersionSpecifier>(), version.parse::<uv_pep440::Version>()) {
        (Ok(s), Ok(v)) => s.contains(&v),
        _ => false,
    }
}

/// A version number. Its view is the text it was parsed from.
#[derive(Debug, PartialEq, Eq)]
pub struct Version {
    text: String,
}

impl View for Version {
    type V = Seq<char>;

    closed spec fn view(&self) -> Seq<char> {
        self.text@
    }
}

impl Version {
    #[verifier::type_invariant]
    pub(crate) open spec fn accepted(self) -> bool {
        pep440_version(self@)
    }

    /// The version that `text` states, if it states one.
    pub fn parse(text: &str) -> (out: Option<Version>)
        ensures
            out is Some <==> pep440_version(text@),
            out is Some ==> out->0@ == text@,
    {
        if parses_as_version(text) {
            Some(Version { text: String::from_str(text) })
        } else {
            None
        }
    }

    /// The version `0.0.0`.
    pub fn zero() -> (out: Version)
        ensures
            out@ == zero_text(),
            pep440_version(zero_text()),
    {
        let text = String::from_str("0.0.0");
        // The parser takes `0.0.0`; asking it makes that known here.
        let accepted = parses_as_version(text.as_str());
        assert(accepted);
        Version { text }
    }

    /// The version that `text` states, or `0.0.0` where it states none.
    pub fn parse_or_zero(text: &str) -> (out: Version)
        ensures
            out@ == (if pep440_version(text@) {
                text@
            } else {
                zero_text()
            }),
            pep440_version(out@),
    {
        match Version::parse(text) {
            Some(v) => {
                proof {
                    use_type_invariant(&v);
                }
                v
            },
            None => Version::zero(),
        }
    }

    /// The text of the version. Every version holds an accepted text.
    pub fn as_str(&self) -> (out: &str)
        ensures
            out@ == self@,
            pep440_version(self@),
    {
        proof {
            use_type_invariant(self);
        }
        self.text.as_str()
    }

    /// The text of the version.
    pub fn to_string(&self) -> (out: String)
        ensures
            out@ == self@,
    {
        self.text.clone()
    }

    /// Whether this is an alpha, beta, rc or dev release.
    pub fn any_prerelease(&self) -> (r: bool)
        ensures
            r == pep440_prerelease(self@),
    {
        proof {
            use_type_invariant(self);
        }
        any_prerelease(self.text.as_str())
    }

    /// Whether `self` is at most `other`. The order is total and transitive.
    pub fn le(&self, other: &Version) -> (r: bool)
        ensures
            r == pep440_le(self@, other@),
            !r ==> pep440_le(other@, self@),
            r ==> forall|c: Seq<char>|
                pep440_version(c) && #[trigger] pep440_le(other@, c) ==> pep440_le(self@, c),
    {
        proof {
            use_type_invariant(self);
            use_type_invariant(other);
        }
        at_most(self.text.as_str(), other.text.as_str())
    }

    /// Whether `self` is strictly above `other`.
    pub fn gt(&self, other: &Version) -> (r: bool)
        ensures
            r == version_lt(other@, self@),
    {
        !self.le(other)
    }
}

/// One clause of a version constraint, such as `>=1.2` or `==4.1.*`. Its view
/// is the text it was parsed from.
#[derive(Debug, PartialEq, Eq)]
pub struct VersionSpecifier {
    text: String,
}

impl View for VersionSpecifier {
    type V = Seq<char>;

    closed spec fn view(&self) -> Seq<char> {
        self.text@
    }
}

impl VersionSpecifier {
    #[verifier::type_invariant]
    pub(crate) open spec fn accepted(self) -> bool {
        pep440_specifier(self@)
    }

    /// The specifier that `text` states, if it states one.
    pub fn parse(text: &str) -> (out: Option<VersionSpecifier>)
        ensures
            out is Some <==> pep440_specifier(text@),
            out is Some ==> out->0@ == text@,
    {
        if parses_as_specifier(text) {
            Some(VersionSpecifier { text: String::from_str(text) })
        } else {
            None
        }
    }

    /// The text of the specifier.
    pub fn as_str(&self) -> (out: &str)
        ensures
            out@ == self@,
            pep440_specifier(self@),
    {
        proof {
            use_type_invariant(self);
        }
        self.text.as_str()
    }

    /// Whether `version` satisfies the specifier.
    pub fn contains(&self, version: &Version) -> (r: bool)
        ensures
            r == pep440_contains(self@, version@),
    {
        proof {
            use_type_invariant(self);
            use_type_invariant(version);
        }
        admits(self.text.as_str(), version.text.as_str())
    }
}

impl Clone for Version {
    fn clone(&self) -> (out: Self)
        ensures
            out@ == self@,
    {
        proof {
            use_type_invariant(self);
        }
        Version { text: self.text.clone() }
    }
}

impl Clone for VersionSpecifier {
    fn clone(&self) -> (out: Self)
        ensures
            out@ == self@,
    {
        proof {
            use_type_invariant(self);
        }
        VersionSpecifier { text: self.text.clone() }
    }
}

/// The version `0.0.0`.
pub fn version_0() -> (out: Version)
    ensures
        out@ == zero_text(),
{
    Version::zero()
}

} // verus!
