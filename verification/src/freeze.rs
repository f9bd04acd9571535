//! The installed packages of an environment, in the lines of `pip freeze`.

use vstd::prelude::*;
use vstd::string::*;

verus! {

/// An installed package.
#[derive(Debug, Clone, PartialEq, Eq)]
pub enum InstalledDist {
    /// Installed from an index.
    Registry { name: String, version: String },
    /// Installed from a location.
    Url { name: String, url: String, editable: bool },
    /// Recorded by an `.egg-info` file.
    EggInfoFile { name: String, version: String },
    /// Recorded by an `.egg-info` directory.
    EggInfoDirectory { name: String, version: String },
    /// Linked in by an `.egg-link`.
    LegacyEditable { target: String },
}

/// The line for one package.
pub open spec fn freeze_line(dist: InstalledDist) -> Seq<char> {
    match dist {
        InstalledDist::Registry { name, version } => name@ + "=="@ + version@ + "\n"@,
        InstalledDist::Url { name, url, editable } => if editable {
            "-e "@ + url@ + "\n"@
        } else {
            name@ + " @ "@ + url@ + "\n"@
        },
        InstalledDist::EggInfoFile { name, version } => name@ + "=="@ + version@ + "\n"@,
        InstalledDist::EggInfoDirectory { name, version } => name@ + "=="@ + version@ + "\n"@,
        InstalledDist::LegacyEditable { target } => "-e "@ + target@ + "\n"@,
    }
}

/// The lines for all packages, in their order.
pub open spec fn freeze_text(dists: Seq<InstalledDist>) -> Seq<char>
    decreases dists.len(),
{
    if dists.len() == 0 {
        Seq::empty()
    } else {
        freeze_text(dists.drop_last()) + freeze_line(dists.last())
    }
}

/// The line for a package with a name and a version.
fn pinned(name: &str, version: &str) -> (out: String)
    ensures
        out@ == name@ + "=="@ + version@ + "\n"@,
{
    let mut out = String::from_str(name);
    out.append("==");
    out.append(version);
    out.append("\n");
    out
}

/// The line for a package that is installed in place.
fn in_place(location: &str) -> (out: String)
    ensures
        out@ == "-e "@ + location@ + "\n"@,
{
    let mut out = String::from_str("-e ");
    out.append(location);
    out.append("\n");
    out
}

/// The installed packages as `pip freeze` lists them, in the order given.
pub fn uv_freeze_environ(dists: &Vec<InstalledDist>) -> (out: String)
    ensures
        out@ == freeze_text(dists@),
{
    let mut out = String::new();
    let mut i: usize = 0;
    while i < dists.len()
        invariant
            i <= dists.len(),
            out@ == freeze_text(dists@.take(i as int)),
        decreases dists.len() - i,
    {
        proof {
            let next = dists@.take(i + 1);
            assert(next.drop_last() == dists@.take(i as int));
            assert(next.last() == dists@[i as int]);
        }
        let line = match &dists[i] {
            InstalledDist::Registry { name, version } => pinned(name.as_str(), version.as_str()),
            InstalledDist::Url { name, url, editable } => {
                if *editable {
                    in_place(url.as_str())
                } else {
                    let mut line = name.clone();
                    line.append(" @ ");
                    line.append(url.as_str());
                    line.append("\n");
                    line
                }
            },
            InstalledDist::EggInfoFile { name, version } => pinned(name.as_str(), version.as_str()),
            InstalledDist::EggInfoDirectory { name, version } => pinned(
                name.as_str(),
                version.as_str(),
            ),
            InstalledDist::LegacyEditable { target } => in_place(target.as_str()),
        };
        out.append(line.as_str());
        i += 1;
    }
    assert(dists@.take(i as int) == dists@);
    out
}

} // verus!
