//! Launchers: which ones a package declares, and when a link in the shared
//! bin directory is made, kept or removed.

use vstd::prelude::*;
use vstd::string::*;
use crate::error::Error;
use crate::names::{ascending, NameSet};
use crate::paths::{join_path, joined_path};
use crate::text::{replace_char, replaced, same_text, texts};

verus! {

/// What `configparser` reads from `text` for `section`, case kept: the reason
/// why it is no INI file; or nothing where it has no such section; or the keys
/// of the section.
pub uninterp spec fn ini_section_keys(text: Seq<char>, section: Seq<char>) -> Result<
    Option<Set<Seq<char>>>,
    Seq<char>,
>;

/// Whether `std::path::Path::starts_with` holds of the two paths: `base` is
/// made of the leading parts of `path`.
pub uninterp spec fn path_has_base(path: Seq<char>, base: Seq<char>) -> bool;

/// A launcher in the shared bin directory and the file it is to point at.
#[derive(Debug, Clone, PartialEq, Eq)]
pub struct LinkPaths {
    /// The file inside the environment.
    pub source: String,
    /// The link in the bin directory.
    pub target: String,
}

/// What was found in the bin directory under the name of a launcher.
#[derive(Debug, Clone, PartialEq, Eq, Default)]
pub struct LinkObservation {
    /// The name of the launcher.
    pub name: String,
    /// Whether the path of that name is a link.
    pub is_symlink: bool,
    /// Where the link points, if that could be read.
    pub target: Option<String>,
}

/// What to do about one launcher.
#[derive(Debug, Clone, PartialEq, Eq)]
pub enum LinkPlan {
    /// The launcher is not among those asked for: nothing is done.
    Skip,
    /// Make the link, after removing what stands in its place if `replace`
    /// is set.
    Create { paths: LinkPaths, replace: bool },
}

/// The name of the directory that records an installed package:
/// the name with `_` for `-`, a `-`, the version, `.dist-info`.
pub open spec fn dist_info_dir(name: Seq<char>, version: Seq<char>) -> Seq<char> {
    replaced(name, '-', '_') + "-"@ + version + ".dist-info"@
}

/// The entry point file of an installed package.
pub open spec fn entry_points_file(purelib: Seq<char>, name: Seq<char>, version: Seq<char>) -> Seq<
    char,
> {
    joined_path(joined_path(purelib, dist_info_dir(name, version)), "entry_points.txt"@)
}

/// The file of a launcher inside an environment: `<venv>/bin/<name>`.
pub open spec fn launcher_file(venv: Seq<char>, name: Seq<char>) -> Seq<char> {
    joined_path(joined_path(venv, "bin"@), name)
}

/// The observation shows a link that points into `venv`.
pub open spec fn shows_link_into(o: LinkObservation, venv: Seq<char>) -> bool {
    o.is_symlink && o.target is Some && path_has_base(o.target->0@, venv)
}

/// Some observation of the launcher `name` shows a link that points into
/// `venv`.
pub open spec fn in_order(observed: Seq<LinkObservation>, name: Seq<char>, venv: Seq<char>) -> bool {
    exists|j: int|
        0 <= j < observed.len() && (#[trigger] observed[j]).name@ == name && shows_link_into(
            observed[j],
            venv,
        )
}

/// Whether `name` is among `names`.
pub open spec fn listed(names: Seq<Seq<char>>, name: Seq<char>) -> bool {
    names.contains(name)
}

/// `Ini::new_cs` and `Ini::read`, then the keys of one section of the map
/// read. The map does not say in which order it hands out its keys.
#[verifier::external_body]
fn read_section_keys(text: &str, section: &str) -> (out: Result<Option<Vec<String>>, String>)
    ensures
        match ini_section_keys(text@, section@) {
            Err(reason) => out is Err && out->Err_0@ == reason,
            Ok(None) => out == Ok::<Option<Vec<String>>, String>(None),
            Ok(Some(keys)) => out matches Ok(Some(found)) && texts(found@).to_set() == keys,
        },
{
    let map = configparser::ini::Ini::new_cs().read(text.to_owned())?;
    Ok(map.get(section).map(|keys| keys.keys().cloned().collect()))
}

/// `Path::starts_with` of std, on paths given as text.
#[verifier::external_body]
fn path_starts_with(path: &str, base: &str) -> (out: bool)
    ensures
        out == path_has_base(path@, base@),
{
    std::path::Path::new(path).starts_with(base)
}

/// The launchers that an entry point file declares under `console_scripts`,
/// in ascending order. A package without the file, or a file without the
/// section, declares none.
pub fn console_scripts(entry_points: Option<&str>) -> (out: Result<Vec<String>, Error>)
    ensures
        entry_points is None ==> out is Ok && out->Ok_0@.len() == 0,
        entry_points is Some ==> (match ini_section_keys(entry_points->0@, "console_scripts"@) {
            Err(reason) => out matches Err(Error::InvalidEntryPoints { reason: r }) && r@
                == reason,
            Ok(None) => out is Ok && out->Ok_0@.len() == 0,
            Ok(Some(keys)) => out is Ok && texts(out->Ok_0@).to_set() == keys && ascending(
                texts(out->Ok_0@),
            ),
        }),
{
    match entry_points {
        None => Ok(Vec::new()),
        Some(text) => scripts_of_section(read_section_keys(text, "console_scripts")),
    }
}

/// What a read of the `console_scripts` section amounts to.
pub fn scripts_of_section(read: Result<Option<Vec<String>>, String>) -> (out: Result<
    Vec<String>,
    Error,
>)
    ensures
        match read {
            Err(reason) => out matches Err(Error::InvalidEntryPoints { reason: r }) && r@
                == reason@,
            Ok(None) => out is Ok && out->Ok_0@.len() == 0,
            Ok(Some(keys)) => out is Ok && texts(out->Ok_0@).to_set() == texts(keys@).to_set()
                && ascending(texts(out->Ok_0@)),
        },
{
    match read {
        Err(reason) => Err(Error::InvalidEntryPoints { reason }),
        Ok(None) => Ok(Vec::new()),
        Ok(Some(keys)) => {
            let set = NameSet::from_vec(&keys);
            Ok(set.to_vec())
        },
    }
}

/// The entry point file of the package `name` at `installed_version`.
pub fn entry_points_path(purelib: &str, name: &str, installed_version: &str) -> (out: String)
    ensures
        out@ == entry_points_file(purelib@, name@, installed_version@),
{
    let mut dir = replace_char(name, '-', '_');
    dir.append("-");
    dir.append(installed_version);
    dir.append(".dist-info");
    let below = join_path(purelib, dir.as_str());
    join_path(below.as_str(), "entry_points.txt")
}

/// The launchers of a package: those it declares, or one of its own name if
/// it declares none.
pub fn find_symlinks(name: &str, scripts: Vec<String>) -> (out: Vec<String>)
    ensures
        scripts@.len() > 0 ==> out == scripts,
        scripts@.len() == 0 ==> texts(out@) == seq![name@],
{
    if scripts.len() == 0 {
        let mut out: Vec<String> = Vec::new();
        out.push(String::from_str(name));
        assert(texts(out@) =~= seq![name@]);
        out
    } else {
        scripts
    }
}

/// Whether `name` is among `names`.
pub fn is_listed(names: &Vec<String>, name: &str) -> (out: bool)
    ensures
        out == listed(texts(names@), name@),
{
    let mut i: usize = 0;
    while i < names.len()
        invariant
            i <= names.len(),
            forall|j: int| 0 <= j < i ==> texts(names@)[j] != name@,
        decreases names.len() - i,
    {
        if same_text(names[i].as_str(), name) {
            assert(texts(names@)[i as int] == name@);
            return true;
        }
        i += 1;
    }
    false
}

/// What to do about the launcher `symlink` of the environment `venv`.
///
/// With a non-empty list of `binaries`, a launcher that is not on it is
/// skipped. A link that already exists is an error unless `force` is set; a
/// launcher that the environment does not hold is an error; else the link is
/// made, in place of the old one if there was one.
pub fn create_symlink(
    symlink: &str,
    venv: &str,
    bin_dir: &str,
    force: bool,
    binaries: &Vec<String>,
    link_exists: bool,
    source_exists: bool,
) -> (out: Result<LinkPlan, Error>)
    ensures
        if binaries@.len() > 0 && !listed(texts(binaries@), symlink@) {
            out == Ok::<LinkPlan, Error>(LinkPlan::Skip)
        } else if link_exists && !force {
            out matches Err(Error::ScriptExists { name, bin_dir: dir }) && name@ == symlink@
                && dir@ == bin_dir@
        } else if !source_exists {
            out matches Err(Error::ScriptMissing { path }) && path@ == launcher_file(
                venv@,
                symlink@,
            )
        } else {
            out matches Ok(LinkPlan::Create { paths, replace }) && replace == link_exists
                && paths.source@ == launcher_file(venv@, symlink@) && paths.target@
                == joined_path(bin_dir@, symlink@)
        },
{
    if binaries.len() > 0 && !is_listed(binaries, symlink) {
        return Ok(LinkPlan::Skip);
    }
    if link_exists && !force {
        return Err(
            Error::ScriptExists {
                name: String::from_str(symlink),
                bin_dir: String::from_str(bin_dir),
            },
        );
    }
    let bin = join_path(venv, "bin");
    let source = join_path(bin.as_str(), symlink);
    if !source_exists {
        return Err(Error::ScriptMissing { path: source });
    }
    let target = join_path(bin_dir, symlink);
    Ok(LinkPlan::Create { paths: LinkPaths { source, target }, replace: link_exists })
}

/// Whether a link with the given target points into `target_path`.
pub fn points_to(link_target: Option<&str>, target_path: &str) -> (out: bool)
    ensures
        out == (link_target is Some && path_has_base(link_target->0@, target_path@)),
{
    match link_target {
        Some(target) => path_starts_with(target, target_path),
        None => false,
    }
}

/// Whether the launcher in the bin directory is in order: it is a link, and
/// the link points into the environment.
pub fn check_symlink(is_symlink: bool, link_target: Option<&str>, venv: &str) -> (out: bool)
    ensures
        out == (is_symlink && link_target is Some && path_has_base(link_target->0@, venv@)),
{
    is_symlink && points_to(link_target, venv)
}

/// The launchers that were found in order: those of which an observation
/// shows a link that points into the environment `venv`.
pub fn valid_links(observed: &Vec<LinkObservation>, venv: &str) -> (out: NameSet)
    ensures
        forall|name: Seq<char>|
            out.members().contains(name) <==> #[trigger] in_order(observed@, name, venv@),
{
    let mut out = NameSet::new();
    let mut i: usize = 0;
    assert(out.members() =~= Set::<Seq<char>>::empty());
    while i < observed.len()
        invariant
            i <= observed.len(),
            forall|name: Seq<char>|
                out.members().contains(name) <==> #[trigger] in_order(
                    observed@.take(i as int),
                    name,
                    venv@,
                ),
        decreases observed.len() - i,
    {
        let o = &observed[i];
        let ghost before = out.members();
        let ok = check_symlink(
            o.is_symlink,
            match &o.target {
                Some(t) => Some(t.as_str()),
                None => None,
            },
            venv,
        );
        if ok {
            let _ = out.insert(o.name.clone());
        }
        proof {
            let head = observed@.take(i as int);
            let next = observed@.take(i + 1);
            assert forall|name: Seq<char>| out.members().contains(name) <==> #[trigger] in_order(
                next,
                name,
                venv@,
            ) by {
                if in_order(next, name, venv@) {
                    let j = choose|j: int|
                        0 <= j < next.len() && (#[trigger] next[j]).name@ == name
                            && shows_link_into(next[j], venv@);
                    if j < i {
                        assert(head[j] == next[j]);
                        assert(in_order(head, name, venv@));
                    }
                }
                if before.contains(name) {
                    assert(in_order(head, name, venv@));
                    let j = choose|j: int|
                        0 <= j < head.len() && (#[trigger] head[j]).name@ == name
                            && shows_link_into(head[j], venv@);
                    assert(next[j] == head[j]);
                }
                if ok && name == o.name@ {
                    assert(next[i as int] == observed@[i as int]);
                    assert(shows_link_into(next[i as int], venv@));
                }
            }
        }
        i += 1;
    }
    assert(observed@.take(i as int) == observed@);
    out
}

/// Whether the launcher in the bin directory may be removed: only a link is;
/// a file of another kind is never touched.
pub fn remove_symlink(is_symlink: bool) -> (out: bool)
    ensures
        out == is_symlink,
{
    is_symlink
}

/// Of the launchers found in the bin directory, each with the answer to
/// whether it is a link, those that may be removed.
pub open spec fn removable(found: Seq<(String, bool)>) -> Seq<Seq<char>>
    decreases found.len(),
{
    if found.len() == 0 {
        Seq::empty()
    } else if found.last().1 {
        removable(found.drop_last()).push(found.last().0@)
    } else {
        removable(found.drop_last())
    }
}

/// The launchers to remove from the bin directory: of those found, the ones
/// that are links.
pub fn remove_symlinks(found: &Vec<(String, bool)>) -> (out: Vec<String>)
    ensures
        texts(out@) == removable(found@),
{
    let mut out: Vec<String> = Vec::new();
    let mut i: usize = 0;
    assert(texts(out@) =~= removable(found@.take(0)));
    while i < found.len()
        invariant
            i <= found.len(),
            texts(out@) == removable(found@.take(i as int)),
        decreases found.len() - i,
    {
        proof {
            let next = found@.take(i + 1);
            assert(next.drop_last() == found@.take(i as int));
            assert(next.last() == found@[i as int]);
        }
        if remove_symlink(found[i].1) {
            let ghost before = texts(out@);
            out.push(found[i].0.clone());
            assert(texts(out@) =~= before.push(found@[i as int].0@));
        }
        i += 1;
    }
    assert(found@.take(i as int) == found@);
    out
}

} // verus!
