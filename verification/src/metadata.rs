//! The record kept beside each environment: what was installed, with which
//! interpreter, which packages were injected and which launchers it owns.

use vstd::prelude::*;
use vstd::string::*;
use crate::error::Error;
use crate::names::NameSet;
use crate::paths::{file_name, last_part};
use crate::paint::{
    bright_blue, bright_blue_text, cyan, cyan_text, green, green_text, red, red_text, yellow,
    yellow_text,
};
use crate::pep440::{pep440_specifier, pep440_version, version_lt, zero_text, Version, VersionSpecifier};
use crate::scripts::{broken_in, ScriptMap};
use crate::symlinks::{in_order, valid_links, LinkObservation};
use crate::text::{join, joined, texts};

verus! {

/// What a record needs to know of an interpreter.
#[derive(Debug, Clone, PartialEq, Eq, Default)]
pub struct PythonInfo {
    /// The implementation, such as `CPython`.
    pub implementation: String,
    /// The full version, such as `3.12.4`.
    pub version: String,
    /// The absolute path of the standard library.
    pub stdlib: String,
}

/// The record of one environment.
#[derive(Debug, Clone, PartialEq, Eq, Default)]
pub struct Metadata {
    pub name: String,
    pub scripts: ScriptMap,
    pub install_spec: String,
    pub extras: NameSet,
    pub requested_version: String,
    pub installed_version: String,
    pub python: String,
    pub python_raw: String,
    pub injected: NameSet,
    pub editable: bool,
    pub available_version: String,
    pub outdated: bool,
}

/// The record as plain values.
pub struct MetadataView {
    pub name: Seq<char>,
    pub scripts: Seq<(Seq<char>, bool)>,
    pub install_spec: Seq<char>,
    pub extras: Seq<Seq<char>>,
    pub requested_version: Seq<char>,
    pub installed_version: Seq<char>,
    pub python: Seq<char>,
    pub python_raw: Seq<char>,
    pub injected: Seq<Seq<char>>,
    pub editable: bool,
    pub available_version: Seq<char>,
    pub outdated: bool,
}

impl View for Metadata {
    type V = MetadataView;

    open spec fn view(&self) -> MetadataView {
        MetadataView {
            name: self.name@,
            scripts: self.scripts@,
            install_spec: self.install_spec@,
            extras: self.extras@,
            requested_version: self.requested_version@,
            installed_version: self.installed_version@,
            python: self.python@,
            python_raw: self.python_raw@,
            injected: self.injected@,
            editable: self.editable,
            available_version: self.available_version@,
            outdated: self.outdated,
        }
    }
}

/// Which checks to run when a record is loaded.
#[derive(Debug, Copy, Clone, PartialEq, Eq, PartialOrd, Ord, Hash)]
pub struct LoadMetadataConfig {
    pub recheck_scripts: bool,
    pub updates_check: bool,
    pub updates_prereleases: bool,
    pub updates_ignore_constraints: bool,
}

impl LoadMetadataConfig {
    /// Every check.
    pub fn all() -> (out: Self)
        ensures
            out.recheck_scripts,
            out.updates_check,
            out.updates_prereleases,
            out.updates_ignore_constraints,
    {
        LoadMetadataConfig {
            recheck_scripts: true,
            updates_check: true,
            updates_prereleases: true,
            updates_ignore_constraints: true,
        }
    }

    /// No check.
    pub fn none() -> (out: Self)
        ensures
            !out.recheck_scripts,
            !out.updates_check,
            !out.updates_prereleases,
            !out.updates_ignore_constraints,
    {
        LoadMetadataConfig {
            recheck_scripts: false,
            updates_check: false,
            updates_prereleases: false,
            updates_ignore_constraints: false,
        }
    }
}

impl Default for LoadMetadataConfig {
    /// Launchers and updates are checked; pre-releases are not offered and the
    /// recorded constraint is kept.
    fn default() -> (out: Self)
        ensures
            out.recheck_scripts,
            out.updates_check,
            !out.updates_prereleases,
            !out.updates_ignore_constraints,
    {
        LoadMetadataConfig {
            recheck_scripts: true,
            updates_check: true,
            updates_prereleases: false,
            updates_ignore_constraints: false,
        }
    }
}

/// The label of an interpreter: implementation, a blank, full version.
pub open spec fn python_label(info: PythonInfo) -> Seq<char> {
    info.implementation@ + " "@ + info.version@
}

/// The record that `new` gives for `name`: the name, and every other field
/// empty or false.
pub open spec fn fresh_record(name: Seq<char>) -> MetadataView {
    MetadataView {
        name: name,
        scripts: Seq::empty(),
        install_spec: Seq::empty(),
        extras: Seq::empty(),
        requested_version: Seq::empty(),
        installed_version: Seq::empty(),
        python: Seq::empty(),
        python_raw: Seq::empty(),
        injected: Seq::empty(),
        editable: false,
        available_version: Seq::empty(),
        outdated: false,
    }
}

/// The installed version, red if an update is known and cyan if not.
pub open spec fn installed_text(m: MetadataView) -> Seq<char> {
    if m.outdated {
        red_text(m.installed_version)
    } else {
        cyan_text(m.installed_version)
    }
}

/// Each item in green between single quotes.
pub open spec fn quoted_green(items: Seq<Seq<char>>) -> Seq<Seq<char>> {
    Seq::new(items.len(), |i: int| "'"@ + green_text(items[i]) + "'"@)
}

/// Each launcher name, green if its link is in order and red if not.
pub open spec fn coloured_scripts(scripts: Seq<(Seq<char>, bool)>) -> Seq<Seq<char>> {
    Seq::new(
        scripts.len(),
        |i: int|
            if scripts[i].1 {
                green_text(scripts[i].0)
            } else {
                red_text(scripts[i].0)
            },
    )
}

/// The one-line form of a record.
pub open spec fn short_text(m: MetadataView) -> Seq<char> {
    "- "@ + m.name + " "@ + installed_text(m)
}

/// The extras in brackets, or nothing where there are none.
pub open spec fn extras_part(m: MetadataView) -> Seq<char> {
    if m.extras.len() > 0 {
        "["@ + joined(quoted_green(m.extras), ","@) + "]"@
    } else {
        Seq::empty()
    }
}

/// The requested version behind a blank, or nothing where none was asked for.
pub open spec fn requested_part(m: MetadataView) -> Seq<char> {
    if m.requested_version.len() > 0 {
        " "@ + cyan_text(m.requested_version)
    } else {
        Seq::empty()
    }
}

/// The mark of an editable install, or nothing.
pub open spec fn editable_part(m: MetadataView) -> Seq<char> {
    if m.editable {
        " "@ + yellow_text("--editable"@)
    } else {
        Seq::empty()
    }
}

/// The line of the installed version and the interpreter.
pub open spec fn installed_line(m: MetadataView) -> Seq<char> {
    "    Installed Version: "@ + installed_text(m) + " on "@ + bright_blue_text(m.python) + ".\n"@
}

/// The line of the available version, where an update is known.
pub open spec fn available_line(m: MetadataView) -> Seq<char> {
    if m.outdated && m.available_version.len() > 0 {
        "    Available Version: "@ + green_text(m.available_version) + ".\n"@
    } else {
        Seq::empty()
    }
}

/// The line of the injected packages, where there are any.
pub open spec fn injected_line(m: MetadataView) -> Seq<char> {
    if m.injected.len() > 0 {
        "    Injected Packages: "@ + joined(quoted_green(m.injected), ", "@) + "\n"@
    } else {
        Seq::empty()
    }
}

/// The line of the launchers.
pub open spec fn scripts_line(m: MetadataView) -> Seq<char> {
    "    Scripts: "@ + joined(coloured_scripts(m.scripts), " | "@) + "\n"@
}

/// The multi-line form of a record.
pub open spec fn human_text(m: MetadataView) -> Seq<char> {
    "- "@ + m.name + extras_part(m) + requested_part(m) + editable_part(m) + "\n"@
        + installed_line(m) + available_line(m) + injected_line(m) + scripts_line(m)
}

/// The constraint under which updates are looked for: none if constraints are
/// ignored or the recorded one is empty or no single specifier.
pub open spec fn update_constraint_text(requested: Seq<char>, ignore: bool) -> Option<Seq<char>> {
    if ignore || requested.len() == 0 || !pep440_specifier(requested) {
        None
    } else {
        Some(requested)
    }
}

/// The text as a version, `0.0.0` where it is none.
pub open spec fn version_or_zero(text: Seq<char>) -> Seq<char> {
    if pep440_version(text) {
        text
    } else {
        zero_text()
    }
}

/// Each item in green between single quotes.
fn quote_green(items: &NameSet) -> (out: Vec<String>)
    ensures
        texts(out@) == quoted_green(items@),
{
    let mut out: Vec<String> = Vec::new();
    let n = items.len();
    let mut i: usize = 0;
    while i < n
        invariant
            i <= n,
            n == items@.len(),
            out@.len() == i,
            forall|j: int| 0 <= j < i ==> (#[trigger] out@[j])@ == quoted_green(items@)[j],
        decreases n - i,
    {
        let mut piece = String::from_str("'");
        let coloured = green(items.get(i).as_str());
        piece.append(coloured.as_str());
        piece.append("'");
        out.push(piece);
        i += 1;
    }
    assert(texts(out@) =~= quoted_green(items@));
    out
}

/// Each launcher name in the colour of its state.
fn colour_scripts(scripts: &ScriptMap) -> (out: Vec<String>)
    ensures
        texts(out@) == coloured_scripts(scripts@),
{
    let mut out: Vec<String> = Vec::new();
    let n = scripts.len();
    let mut i: usize = 0;
    while i < n
        invariant
            i <= n,
            n == scripts@.len(),
            out@.len() == i,
            forall|j: int| 0 <= j < i ==> (#[trigger] out@[j])@ == coloured_scripts(scripts@)[j],
        decreases n - i,
    {
        let piece = if scripts.state(i) {
            green(scripts.name(i).as_str())
        } else {
            red(scripts.name(i).as_str())
        };
        out.push(piece);
        i += 1;
    }
    assert(texts(out@) =~= coloured_scripts(scripts@));
    out
}

impl Metadata {
    /// The record of the environment at `dirname`, if one was read; the
    /// environment is named in the failure if none was.
    pub fn for_owned_dir(dirname: &str, loaded: Option<Metadata>) -> (out: Result<Metadata, Error>)
        ensures
            loaded is Some ==> out == Ok::<Metadata, Error>(loaded->0),
            loaded is None ==> (out matches Err(Error::MetadataUnreadable { name }) && name@
                == last_part(dirname@)),
    {
        match loaded {
            Some(metadata) => Ok(metadata),
            None => Err(Error::MetadataUnreadable { name: file_name(dirname) }),
        }
    }

    /// The record of the package `name`: the one that was read, or else what
    /// can be found out without one.
    pub fn for_requirement(
        name: &str,
        loaded: Option<Metadata>,
        installed_version: Option<String>,
        python: Option<&PythonInfo>,
    ) -> (out: Self)
        ensures
            loaded is Some ==> out == loaded->0,
            loaded is None ==> out@ == (MetadataView {
                install_spec: name@,
                installed_version: match installed_version {
                    Some(v) => v@,
                    None => Seq::empty(),
                },
                python: match python {
                    Some(info) => python_label(*info),
                    None => Seq::empty(),
                },
                python_raw: match python {
                    Some(info) => info.stdlib@,
                    None => Seq::empty(),
                },
                ..fresh_record(name@)
            }),
    {
        match loaded {
            Some(metadata) => metadata,
            None => Metadata::find(name, installed_version, python),
        }
    }

    /// The record of a package of which nothing is known but its name. Its
    /// install spec is empty, as that of an environment without a package.
    pub fn new(name: &str) -> (out: Self)
        ensures
            out@ == fresh_record(name@),
    {
        Metadata {
            name: String::from_str(name),
            scripts: ScriptMap::new(),
            install_spec: String::new(),
            extras: NameSet::new(),
            requested_version: String::new(),
            installed_version: String::new(),
            python: String::new(),
            python_raw: String::new(),
            injected: NameSet::new(),
            editable: false,
            available_version: String::new(),
            outdated: false,
        }
    }

    /// The requested version, `0.0.0` where the text is no version.
    pub fn requested_version_parsed(&self) -> (out: Version)
        ensures
            out@ == version_or_zero(self.requested_version@),
    {
        Version::parse_or_zero(self.requested_version.as_str())
    }

    /// The installed version, `0.0.0` where the text is no version.
    pub fn installed_version_parsed(&self) -> (out: Version)
        ensures
            out@ == version_or_zero(self.installed_version@),
    {
        Version::parse_or_zero(self.installed_version.as_str())
    }

    /// The record of a package for which no stored record could be read:
    /// the name, which is taken as the install spec too, the installed version
    /// if one was found, and the interpreter if one is known.
    pub fn find(name: &str, installed_version: Option<String>, python: Option<&PythonInfo>) -> (out:
        Self)
        ensures
            out@ == (MetadataView {
                install_spec: name@,
                installed_version: match installed_version {
                    Some(v) => v@,
                    None => Seq::empty(),
                },
                python: match python {
                    Some(info) => python_label(*info),
                    None => Seq::empty(),
                },
                python_raw: match python {
                    Some(info) => info.stdlib@,
                    None => Seq::empty(),
                },
                ..fresh_record(name@)
            }),
    {
        let mut out = Metadata::new(name);
        out.installed_version =
        match installed_version {
            Some(v) => v,
            None => String::new(),
        };
        let _ = out.fill(python);
        out
    }

    /// Takes the interpreter's label and library path where the record has
    /// none yet.
    pub fn fill_python(&mut self, python: &PythonInfo)
        ensures
            final(self)@ == (MetadataView {
                python: if old(self).python@.len() == 0 {
                    python_label(*python)
                } else {
                    old(self).python@
                },
                python_raw: if old(self).python_raw@.len() == 0 {
                    python.stdlib@
                } else {
                    old(self).python_raw@
                },
                ..old(self)@
            }),
    {
        if self.python.as_str().is_empty() {
            let mut label = python.implementation.clone();
            label.append(" ");
            label.append(python.version.as_str());
            self.python = label;
        }
        if self.python_raw.as_str().is_empty() {
            self.python_raw = python.stdlib.clone();
        }
    }

    /// Fills in what can be deduced: an empty install spec becomes the name,
    /// and the interpreter is recorded if one is given. Says whether one was.
    pub fn fill(&mut self, python: Option<&PythonInfo>) -> (out: Option<()>)
        ensures
            out is Some <==> python is Some,
            final(self)@ == (MetadataView {
                install_spec: if old(self).install_spec@.len() == 0 {
                    old(self).name@
                } else {
                    old(self).install_spec@
                },
                python: if python is Some && old(self).python@.len() == 0 {
                    python_label(*python->0)
                } else {
                    old(self).python@
                },
                python_raw: if python is Some && old(self).python_raw@.len() == 0 {
                    python->0.stdlib@
                } else {
                    old(self).python_raw@
                },
                ..old(self)@
            }),
    {
        if self.install_spec.as_str().is_empty() {
            self.install_spec = self.name.clone();
        }
        match python {
            Some(info) => {
                self.fill_python(info);
                Some(())
            },
            None => None,
        }
    }

    /// The constraint under which to look for updates.
    pub fn update_constraint(&self, ignore_constraints: bool) -> (out: Option<VersionSpecifier>)
        ensures
            match update_constraint_text(self.requested_version@, ignore_constraints) {
                Some(text) => out is Some && out->0@ == text,
                None => out is None,
            },
    {
        if ignore_constraints || self.requested_version.as_str().is_empty() {
            None
        } else {
            VersionSpecifier::parse(self.requested_version.as_str())
        }
    }

    /// Records the outcome of a look at the index: with a latest version, it
    /// becomes the available one and the record is outdated exactly if it is
    /// above the installed one; without, the record stays as it is.
    pub fn check_for_update(&mut self, latest: Option<&Version>)
        ensures
            final(self)@ == (match latest {
                Some(v) => MetadataView {
                    available_version: v@,
                    outdated: version_lt(version_or_zero(old(self).installed_version@), v@),
                    ..old(self)@
                },
                None => old(self)@,
            }),
    {
        match latest {
            Some(v) => {
                let installed = self.installed_version_parsed();
                self.available_version = v.to_string();
                self.outdated = v.gt(&installed);
            },
            None => {},
        }
    }

    /// Sets the flag of every launcher: true exactly if its name is among
    /// `valid`, the launchers whose link was found to point into the
    /// environment.
    pub fn check_scripts(&mut self, valid: &NameSet)
        ensures
            final(self)@ == (MetadataView {
                scripts: Seq::new(
                    old(self).scripts@.len(),
                    |i: int| (old(self).scripts@[i].0, valid.members().contains(old(self).scripts@[i].0)),
                ),
                ..old(self)@
            }),
    {
        let n = self.scripts.len();
        let mut i: usize = 0;
        while i < n
            invariant
                i <= n,
                n == old(self).scripts@.len(),
                self.scripts@.len() == n,
                forall|j: int|
                    0 <= j < i ==> #[trigger] self.scripts@[j] == (
                        old(self).scripts@[j].0,
                        valid.members().contains(old(self).scripts@[j].0),
                    ),
                forall|j: int| i <= j < n ==> #[trigger] self.scripts@[j] == old(self).scripts@[j],
                self@ == (MetadataView { scripts: self.scripts@, ..old(self)@ }),
            decreases n - i,
        {
            let ok = valid.contains(self.scripts.name(i).as_str());
            self.scripts.set_state(i, ok);
            i += 1;
        }
        assert(self.scripts@ =~= Seq::new(
            old(self).scripts@.len(),
            |i: int| (old(self).scripts@[i].0, valid.members().contains(old(self).scripts@[i].0)),
        ));
    }

    /// Sets the flag of every launcher from what was found in the bin
    /// directory: true exactly if the launcher was seen there as a link that
    /// points into the environment at `venv_path`.
    pub fn check_symlinks(&mut self, venv_path: &str, observed: &Vec<LinkObservation>)
        ensures
            final(self)@ == (MetadataView {
                scripts: Seq::new(
                    old(self).scripts@.len(),
                    |i: int|
                        (
                            old(self).scripts@[i].0,
                            in_order(observed@, old(self).scripts@[i].0, venv_path@),
                        ),
                ),
                ..old(self)@
            }),
    {
        let valid = valid_links(observed, venv_path);
        self.check_scripts(&valid);
        assert(self.scripts@ =~= Seq::new(
            old(self).scripts@.len(),
            |i: int|
                (old(self).scripts@[i].0, in_order(observed@, old(self).scripts@[i].0, venv_path@)),
        ));
    }

    /// The launchers whose link is not in order.
    pub fn invalid_scripts(&self) -> (out: Vec<String>)
        ensures
            texts(out@) == broken_in(self.scripts@),
    {
        self.scripts.broken()
    }

    /// The installed version, red if an update is known and cyan if not.
    pub fn format_installed_version(&self) -> (out: String)
        ensures
            out@ == installed_text(self@),
    {
        if self.outdated {
            red(self.installed_version.as_str())
        } else {
            cyan(self.installed_version.as_str())
        }
    }

    /// The one-line form.
    pub fn format_short(&self) -> (out: String)
        ensures
            out@ == short_text(self@),
    {
        let mut out = String::from_str("- ");
        out.append(self.name.as_str());
        out.append(" ");
        out.append(self.format_installed_version().as_str());
        out
    }

    /// The extras, in ascending order.
    pub fn vec_extras(&self) -> (out: Vec<String>)
        ensures
            texts(out@) == self.extras@,
    {
        self.extras.to_vec()
    }

    /// The injected packages, in ascending order.
    pub fn vec_injected(&self) -> (out: Vec<String>)
        ensures
            texts(out@) == self.injected@,
    {
        self.injected.to_vec()
    }

    /// The extras, each in green between single quotes, with commas between.
    pub fn format_extras(&self) -> (out: String)
        ensures
            out@ == joined(quoted_green(self.extras@), ","@),
    {
        let pieces = quote_green(&self.extras);
        join(&pieces, ",")
    }

    /// The injected packages, each in green between single quotes, with a
    /// comma and a blank between.
    pub fn format_injected(&self) -> (out: String)
        ensures
            out@ == joined(quoted_green(self.injected@), ", "@),
    {
        let pieces = quote_green(&self.injected);
        join(&pieces, ", ")
    }

    /// The multi-line form.
    pub fn format_human(&self) -> (out: String)
        ensures
            out@ == human_text(self@),
    {
        let mut extras = String::new();
        if !self.extras.is_empty() {
            extras.append("[");
            extras.append(self.format_extras().as_str());
            extras.append("]");
            assert(extras@ =~= extras_part(self@));
        }
        let mut requested = String::new();
        if !self.requested_version.as_str().is_empty() {
            requested.append(" ");
            requested.append(cyan(self.requested_version.as_str()).as_str());
            assert(requested@ =~= requested_part(self@));
        }
        let mut editable = String::new();
        if self.editable {
            editable.append(" ");
            editable.append(yellow("--editable").as_str());
            assert(editable@ =~= editable_part(self@));
        }
        let mut installed = String::from_str("    Installed Version: ");
        installed.append(self.format_installed_version().as_str());
        installed.append(" on ");
        installed.append(bright_blue(self.python.as_str()).as_str());
        installed.append(".\n");
        let mut available = String::new();
        if self.outdated && !self.available_version.as_str().is_empty() {
            available.append("    Available Version: ");
            available.append(green(self.available_version.as_str()).as_str());
            available.append(".\n");
            assert(available@ =~= available_line(self@));
        }
        let mut injected = String::new();
        if !self.injected.is_empty() {
            injected.append("    Injected Packages: ");
            injected.append(self.format_injected().as_str());
            injected.append("\n");
            assert(injected@ =~= injected_line(self@));
        }
        let mut scripts = String::from_str("    Scripts: ");
        let pieces = colour_scripts(&self.scripts);
        scripts.append(join(&pieces, " | ").as_str());
        scripts.append("\n");

        let mut out = String::from_str("- ");
        out.append(self.name.as_str());
        out.append(extras.as_str());
        out.append(requested.as_str());
        out.append(editable.as_str());
        out.append("\n");
        out.append(installed.as_str());
        out.append(available.as_str());
        out.append(injected.as_str());
        out.append(scripts.as_str());
        out
    }
}

} // verus!
