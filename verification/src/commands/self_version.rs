//! The version of this program and whether a newer one is out.

use vstd::prelude::*;
use vstd::string::*;
use crate::metadata::version_or_zero;
use crate::paint::{green, green_text, red, red_text};
use crate::pep440::{pep440_le, Version};

verus! {

/// The version of this program.
pub open spec fn own_version() -> Seq<char> {
    "3.4.0"@
}

/// `text` in green if `ok`, in red if not.
pub fn red_or_green(text: &str, ok: bool) -> (out: String)
    ensures
        out@ == (if ok {
            green_text(text@)
        } else {
            red_text(text@)
        }),
{
    if ok {
        green(text)
    } else {
        red(text)
    }
}

/// Whether `current` is at least `latest`, as versions: `1.10` is above
/// `1.9`, and `1.0.0` above `1.0.0rc1`. A text that is no version counts as
/// `0.0.0`.
pub fn _compare_versions(current: &str, latest: &str) -> (out: bool)
    ensures
        out == pep440_le(version_or_zero(latest@), version_or_zero(current@)),
{
    let have = Version::parse_or_zero(current);
    let want = Version::parse_or_zero(latest);
    want.le(&have)
}

/// Whether `current` is the latest version; it is not if none is known.
pub fn is_latest(current: &str, latest: Option<&Version>) -> (out: bool)
    ensures
        out == (latest is Some && pep440_le(latest->0@, version_or_zero(current@))),
{
    match latest {
        Some(version) => {
            let text = version.as_str();
            _compare_versions(current, text)
        },
        None => false,
    }
}

/// The version of this program.
pub fn uvenv_version() -> (out: &'static str)
    ensures
        out@ == own_version(),
{
    "3.4.0"
}

/// Whether this program is outdated: whether it is not the latest version.
pub fn is_uvenv_outdated(latest: Option<&Version>) -> (out: bool)
    ensures
        out == !(latest is Some && pep440_le(latest->0@, version_or_zero(own_version()))),
{
    !is_latest(uvenv_version(), latest)
}

} // verus!
