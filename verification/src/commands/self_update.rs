//! Self-update: how this program and its companions are upgraded, and what
//! is said about it.

use vstd::prelude::*;
use vstd::string::*;
use crate::paint::{blue, blue_text, green, green_text, red, red_text};
use crate::text::{push_text, same_text, texts};

verus! {

/// What the `regex` crate finds for `pattern` in `haystack`: nothing if the
/// crate does not take the pattern; else nothing if it matches nowhere; else
/// the text of each group of the first match, the whole match first, a group
/// that took no part being empty.
pub uninterp spec fn regex_first_match(pattern: Seq<char>, haystack: Seq<char>) -> Option<
    Option<Seq<Seq<char>>>,
>;

/// The pattern that finds `needle` in the output of `pip freeze`: at the
/// start of a line the name with `==` or ` @` behind it, then the rest of
/// the line.
pub open spec fn freeze_pattern(needle: Seq<char>) -> Seq<char> {
    "(?m)^("@ + needle + "==|"@ + needle + " @)(.+)"@
}

/// The version that the output of `pip freeze` gives for `needle`.
pub open spec fn frozen_version(found: Option<Option<Seq<Seq<char>>>>) -> Option<Seq<char>> {
    match found {
        Some(Some(groups)) => if groups.len() == 3 {
            Some(groups[2])
        } else {
            None
        },
        _ => None,
    }
}

/// The line that reports on one package after an update.
pub open spec fn update_line(package: Seq<char>, before: Seq<char>, after: Seq<char>) -> Seq<char> {
    if before == after {
        "🌟 '"@ + blue_text(package) + "' not updated (version: "@ + green_text(before) + ")"@
    } else {
        "🚀 '"@ + blue_text(package) + "' updated from "@ + red_text(before) + " to "@
            + green_text(after)
    }
}

/// The arguments with which Python upgrades this program.
pub open spec fn update_args(with_uv: bool, with_patchelf: bool) -> Seq<Seq<char>> {
    seq!["-m"@, "pip"@, "install"@, "--no-cache-dir"@, "--upgrade"@, "uvenv"@] + (if with_uv {
        seq!["uv"@]
    } else {
        Seq::empty()
    }) + (if with_patchelf {
        seq!["patchelf"@]
    } else {
        Seq::empty()
    })
}

/// The arguments with which the installer upgrades this program for the
/// Python at `python`.
pub open spec fn uv_update_args(python: Seq<char>, with_uv: bool, with_patchelf: bool) -> Seq<
    Seq<char>,
> {
    seq!["pip"@, "install"@, "--no-cache-dir"@, "--python"@, python, "--upgrade"@, "uvenv"@] + (
    if with_uv {
        seq!["uv"@]
    } else {
        Seq::empty()
    }) + (if with_patchelf {
        seq!["patchelf"@]
    } else {
        Seq::empty()
    })
}

/// The packages whose versions are compared before and after.
pub open spec fn watched(with_uv: bool, with_patchelf: bool) -> Seq<Seq<char>> {
    seq!["uvenv"@] + (if with_uv {
        seq!["uv"@]
    } else {
        Seq::empty()
    }) + (if with_patchelf {
        seq!["patchelf"@]
    } else {
        Seq::empty()
    })
}

/// What is updated, in words.
pub open spec fn update_subject(with_uv: bool, with_patchelf: bool) -> Seq<char> {
    "uvenv"@ + (if with_uv {
        " and uv"@
    } else {
        Seq::empty()
    }) + (if with_patchelf {
        " and patchelf"@
    } else {
        Seq::empty()
    })
}

/// What a self-update does.
#[derive(Debug, Clone, PartialEq, Eq)]
pub struct SelfUpdatePlan {
    /// The arguments for Python.
    pub args: Vec<String>,
    /// The packages whose versions are compared before and after.
    pub to_track: Vec<String>,
    /// What is updated, in words.
    pub subject: String,
}

/// `Regex::new`, then `Regex::captures`, with each group's text.
#[verifier::external_body]
fn first_match(pattern: &str, haystack: &str) -> (out: Option<Option<Vec<String>>>)
    ensures
        match regex_first_match(pattern@, haystack@) {
            None => out is None,
            Some(None) => out == Some::<Option<Vec<String>>>(None),
            Some(Some(groups)) => out matches Some(Some(found)) && texts(found@) == groups,
        },
{
    let re = regex::Regex::new(pattern).ok()?;
    Some(
        re.captures(haystack).map(
            |caps|
                caps.iter().map(|m| m.map_or(String::new(), |m| m.as_str().to_owned())).collect(),
        ),
    )
}

/// The version that the output of `pip freeze` gives for `needle`: what
/// follows `needle==` or `needle @` on the first line that begins so.
pub fn extract_version(freeze_output: &str, needle: &str) -> (out: Option<String>)
    ensures
        match frozen_version(regex_first_match(freeze_pattern(needle@), freeze_output@)) {
            Some(version) => out is Some && out->0@ == version,
            None => out is None,
        },
{
    let mut pattern = String::from_str("(?m)^(");
    pattern.append(needle);
    pattern.append("==|");
    pattern.append(needle);
    pattern.append(" @)(.+)");
    version_of_match(first_match(pattern.as_str(), freeze_output))
}

/// The version in what was found: the second group of the match.
pub fn version_of_match(found: Option<Option<Vec<String>>>) -> (out: Option<String>)
    ensures
        match found {
            Some(Some(groups)) => if groups@.len() == 3 {
                out is Some && out->0@ == groups@[2]@
            } else {
                out is None
            },
            _ => out is None,
        },
{
    match found {
        Some(Some(groups)) => {
            if groups.len() == 3 {
                Some(groups[2].clone())
            } else {
                None
            }
        },
        _ => None,
    }
}

/// The versions of `packages` in the output of `pip freeze`, `default` for a
/// package that it does not list.
pub fn get_package_versions_pip(freeze_output: &str, packages: &Vec<String>, default: &str) -> (out:
    Vec<String>)
    ensures
        out@.len() == packages@.len(),
        forall|i: int|
            0 <= i < packages@.len() ==> (#[trigger] out@[i])@ == (match frozen_version(
                regex_first_match(freeze_pattern(packages@[i]@), freeze_output@),
            ) {
                Some(version) => version,
                None => default@,
            }),
{
    let mut out: Vec<String> = Vec::new();
    let mut i: usize = 0;
    while i < packages.len()
        invariant
            i <= packages.len(),
            out@.len() == i,
            forall|j: int|
                0 <= j < i ==> (#[trigger] out@[j])@ == (match frozen_version(
                    regex_first_match(freeze_pattern(packages@[j]@), freeze_output@),
                ) {
                    Some(version) => version,
                    None => default@,
                }),
        decreases packages.len() - i,
    {
        match extract_version(freeze_output, packages[i].as_str()) {
            Some(version) => out.push(version),
            None => out.push(String::from_str(default)),
        }
        i += 1;
    }
    out
}

/// How this program is upgraded through `pip`.
pub fn self_update_via_pip(with_uv: bool, with_patchelf: bool) -> (out: SelfUpdatePlan)
    ensures
        texts(out.args@) == update_args(with_uv, with_patchelf),
        texts(out.to_track@) == watched(with_uv, with_patchelf),
        out.subject@ == update_subject(with_uv, with_patchelf),
{
    let mut args: Vec<String> = Vec::new();
    push_text(&mut args, "-m");
    push_text(&mut args, "pip");
    push_text(&mut args, "install");
    push_text(&mut args, "--no-cache-dir");
    push_text(&mut args, "--upgrade");
    push_text(&mut args, "uvenv");
    let mut to_track: Vec<String> = Vec::new();
    push_text(&mut to_track, "uvenv");
    let mut subject = String::from_str("uvenv");
    let mut uv_part = String::new();
    if with_uv {
        push_text(&mut args, "uv");
        push_text(&mut to_track, "uv");
        uv_part.append(" and uv");
        assert(uv_part@ =~= " and uv"@);
    }
    let mut patchelf_part = String::new();
    if with_patchelf {
        push_text(&mut args, "patchelf");
        push_text(&mut to_track, "patchelf");
        patchelf_part.append(" and patchelf");
        assert(patchelf_part@ =~= " and patchelf"@);
    }
    subject.append(uv_part.as_str());
    subject.append(patchelf_part.as_str());
    assert(texts(args@) =~= update_args(with_uv, with_patchelf));
    assert(texts(to_track@) =~= watched(with_uv, with_patchelf));
    SelfUpdatePlan { args, to_track, subject }
}

/// How this program is upgraded through the installer, for the Python at
/// `python_exe`.
pub fn self_update_via_uv(python_exe: &str, with_uv: bool, with_patchelf: bool) -> (out:
    SelfUpdatePlan)
    ensures
        texts(out.args@) == uv_update_args(python_exe@, with_uv, with_patchelf),
        texts(out.to_track@) == watched(with_uv, with_patchelf),
        out.subject@ == update_subject(with_uv, with_patchelf),
{
    let through_pip = self_update_via_pip(with_uv, with_patchelf);
    let mut args: Vec<String> = Vec::new();
    push_text(&mut args, "pip");
    push_text(&mut args, "install");
    push_text(&mut args, "--no-cache-dir");
    push_text(&mut args, "--python");
    push_text(&mut args, python_exe);
    push_text(&mut args, "--upgrade");
    push_text(&mut args, "uvenv");
    if with_uv {
        push_text(&mut args, "uv");
    }
    if with_patchelf {
        push_text(&mut args, "patchelf");
    }
    assert(texts(args@) =~= uv_update_args(python_exe@, with_uv, with_patchelf));
    SelfUpdatePlan { args, to_track: through_pip.to_track, subject: through_pip.subject }
}

/// How this program is upgraded.
pub fn self_update(with_uv: bool, with_patchelf: bool) -> (out: SelfUpdatePlan)
    ensures
        texts(out.args@) == update_args(with_uv, with_patchelf),
        texts(out.to_track@) == watched(with_uv, with_patchelf),
        out.subject@ == update_subject(with_uv, with_patchelf),
{
    self_update_via_pip(with_uv, with_patchelf)
}

/// The line that reports on `package`, which was at `before` and is at
/// `after` now.
pub fn update_report(package: &str, before: &str, after: &str) -> (out: String)
    ensures
        out@ == update_line(package@, before@, after@),
{
    if same_text(before, after) {
        let mut out = String::from_str("🌟 '");
        out.append(blue(package).as_str());
        out.append("' not updated (version: ");
        out.append(green(before).as_str());
        out.append(")");
        out
    } else {
        let mut out = String::from_str("🚀 '");
        out.append(blue(package).as_str());
        out.append("' updated from ");
        out.append(red(before).as_str());
        out.append(" to ");
        out.append(green(after).as_str());
        out
    }
}

/// The lines that report on the watched packages: one for each package for
/// which a version before and one after is known.
pub fn handle_self_update_result(to_track: &Vec<String>, old: &Vec<String>, new: &Vec<String>) -> (out:
    Vec<String>)
    ensures
        out@.len() <= to_track@.len(),
        out@.len() <= old@.len(),
        out@.len() <= new@.len(),
        out@.len() == to_track@.len() || out@.len() == old@.len() || out@.len() == new@.len(),
        forall|i: int|
            0 <= i < out@.len() ==> (#[trigger] out@[i])@ == update_line(
                to_track@[i]@,
                old@[i]@,
                new@[i]@,
            ),
{
    let mut out: Vec<String> = Vec::new();
    let mut i: usize = 0;
    while i < to_track.len() && i < old.len() && i < new.len()
        invariant
            i <= to_track.len(),
            i <= old.len(),
            i <= new.len(),
            out@.len() == i,
            forall|j: int|
                0 <= j < i ==> (#[trigger] out@[j])@ == update_line(
                    to_track@[j]@,
                    old@[j]@,
                    new@[j]@,
                ),
        decreases to_track.len() - i,
    {
        out.push(update_report(to_track[i].as_str(), old[i].as_str(), new[i].as_str()));
        i += 1;
    }
    out
}

/// The Python to use: the one that the system offers, or else
/// `/usr/bin/python3` if it exists.
pub fn find_global_python(system_python: Option<String>, fallback_exists: bool) -> (out: Option<
    String,
>)
    ensures
        system_python is Some ==> out == system_python,
        system_python is None && fallback_exists ==> out is Some && out->0@
            == "/usr/bin/python3"@,
        system_python is None && !fallback_exists ==> out is None,
{
    match system_python {
        Some(path) => Some(path),
        None => {
            if fallback_exists {
                Some(String::from_str("/usr/bin/python3"))
            } else {
                None
            }
        },
    }
}

} // verus!
