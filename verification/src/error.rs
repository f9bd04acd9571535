//! What can go wrong in an operation, and the words in which it is reported.

use vstd::prelude::*;
use vstd::string::*;
use crate::paint::{green, green_text, red, red_text, yellow, yellow_text};

verus! {

/// A failure of an operation of this library.
#[derive(Debug, Clone, PartialEq, Eq)]
pub enum Error {
    /// An environment already stands at the path and `force` was not given.
    AlreadyInstalled { path: String },
    /// The package has no environment.
    NoVirtualenv { spec: String },
    /// The package has no environment; uninstall stops.
    NothingToUninstall { name: String },
    /// The package had no environment; a launcher of its name was removed if
    /// it was a link.
    OrphanRemoved { name: String },
    /// Reinstall of a package that was never installed, without `force`.
    NotInstalled { name: String, spec: String },
    /// The environment handed to an install does not exist.
    MissingVenv,
    /// A launcher of that name already stands in the bin directory.
    ScriptExists { name: String, bin_dir: String },
    /// The environment holds no such launcher.
    ScriptMissing { path: String },
    /// The installer was called without a subcommand.
    NoSubcommand,
    /// A dry install reported no package.
    NoLocalPackage,
    /// No version of the package is installed in the environment.
    NoVersionFound { name: String },
    /// Several launchers could be meant.
    AmbiguousExecutable { name: String, spec: String, candidates: Vec<String> },
    /// The entry point file could not be read as an INI file.
    InvalidEntryPoints { reason: String },
    /// The record of an environment could not be read.
    MetadataUnreadable { name: String },
    /// An outside tool failed; `text` is its report with the prefix, if any.
    Tool { text: String },
}

/// The hint for one launcher that could be meant.
pub open spec fn candidate_line(spec: Seq<char>, option: Seq<char>) -> Seq<char> {
    "\t- "@ + green_text(option) + " | `"@ + crate::paint::blue_text(
        "uvenv run "@ + spec + " --binary "@ + option + " ..."@,
    ) + "` \n"@
}

/// The hints for all launchers that could be meant.
pub open spec fn candidate_lines(spec: Seq<char>, options: Seq<Seq<char>>) -> Seq<char>
    decreases options.len(),
{
    if options.len() == 0 {
        Seq::empty()
    } else {
        candidate_lines(spec, options.drop_last()) + candidate_line(spec, options.last())
    }
}

/// The words in which `e` is reported.
pub open spec fn message_text(e: Error) -> Seq<char> {
    match e {
        Error::AlreadyInstalled { path } => "'"@ + green_text(path@)
            + "' is already installed.\nUse '"@ + green_text("uvenv upgrade"@)
            + "' to update existing tools or pass '"@ + green_text("--force"@)
            + "' to this command to ignore this message."@,
        Error::NoVirtualenv { spec } => "No virtualenv for '"@ + green_text(spec@) + "'."@,
        Error::NothingToUninstall { name } => "No virtualenv for '"@ + green_text(name@)
            + "', stopping.\nUse '"@ + green_text("--force"@)
            + "' to remove an executable with that name anyway."@,
        Error::OrphanRemoved { name } => yellow_text("Warning"@) + ": No virtualenv for '"@
            + green_text(name@) + "'."@,
        Error::NotInstalled { name, spec } => "'"@ + name@
            + "' was not previously installed. Please run 'uvenv install "@ + spec@
            + "' or pass `--force` instead."@,
        Error::MissingVenv => "Package could not be installed because supplied venv was misssing."@,
        Error::ScriptExists { name, bin_dir } => "Script "@ + name@ + " already exists in \""@
            + bin_dir@ + "\". Use --force to ignore this warning."@,
        Error::ScriptMissing { path } => "Could not symlink \""@ + path@
            + "\" because the script didn't exist."@,
        Error::NoSubcommand => "No subcommand passed"@,
        Error::NoLocalPackage => "Failed to find package name for local install."@,
        Error::NoVersionFound { name } => "No version found for '"@ + yellow_text(name@) + "'."@,
        Error::AmbiguousExecutable { name, spec, candidates } => "'"@ + green_text(name@)
            + "' executable not found for install spec '"@ + green_text(spec@)
            + "'.\nMultiple related scripts were found:\n"@ + candidate_lines(
            spec@,
            crate::text::texts(candidates@),
        ),
        Error::InvalidEntryPoints { reason } => "entry_points.txt is invalid: "@ + reason@,
        Error::MetadataUnreadable { name } => "Metadata for '"@ + red_text(name@)
            + "' could not be loaded."@,
        Error::Tool { text } => text@,
    }
}

/// The hints for all launchers that could be meant.
fn candidate_hints(spec: &str, options: &Vec<String>) -> (out: String)
    ensures
        out@ == candidate_lines(spec@, crate::text::texts(options@)),
{
    let mut out = String::new();
    let mut i: usize = 0;
    let ghost all = crate::text::texts(options@);
    while i < options.len()
        invariant
            i <= options.len(),
            all == crate::text::texts(options@),
            out@ == candidate_lines(spec@, all.take(i as int)),
        decreases options.len() - i,
    {
        proof {
            let next = all.take(i + 1);
            assert(next.drop_last() == all.take(i as int));
            assert(next.last() == options@[i as int]@);
        }
        let option = options[i].as_str();
        let mut code = String::from_str("uvenv run ");
        code.append(spec);
        code.append(" --binary ");
        code.append(option);
        code.append(" ...");
        let mut line = String::from_str("\t- ");
        line.append(green(option).as_str());
        line.append(" | `");
        line.append(crate::paint::blue(code.as_str()).as_str());
        line.append("` \n");
        out.append(line.as_str());
        i += 1;
    }
    assert(all.take(i as int) == all);
    out
}

impl Error {
    /// The words in which the failure is reported.
    pub fn message(&self) -> (out: String)
        ensures
            out@ == message_text(*self),
    {
        match self {
            Error::AlreadyInstalled { path } => {
                let mut out = String::from_str("'");
                out.append(green(path.as_str()).as_str());
                out.append("' is already installed.\nUse '");
                out.append(green("uvenv upgrade").as_str());
                out.append("' to update existing tools or pass '");
                out.append(green("--force").as_str());
                out.append("' to this command to ignore this message.");
                out
            },
            Error::NoVirtualenv { spec } => {
                let mut out = String::from_str("No virtualenv for '");
                out.append(green(spec.as_str()).as_str());
                out.append("'.");
                out
            },
            Error::NothingToUninstall { name } => {
                let mut out = String::from_str("No virtualenv for '");
                out.append(green(name.as_str()).as_str());
                out.append("', stopping.\nUse '");
                out.append(green("--force").as_str());
                out.append("' to remove an executable with that name anyway.");
                out
            },
            Error::OrphanRemoved { name } => {
                let mut out = yellow("Warning");
                out.append(": No virtualenv for '");
                out.append(green(name.as_str()).as_str());
                out.append("'.");
                out
            },
            Error::NotInstalled { name, spec } => {
                let mut out = String::from_str("'");
                out.append(name.as_str());
                out.append("' was not previously installed. Please run 'uvenv install ");
                out.append(spec.as_str());
                out.append("' or pass `--force` instead.");
                out
            },
            Error::MissingVenv => String::from_str(
                "Package could not be installed because supplied venv was misssing.",
            ),
            Error::ScriptExists { name, bin_dir } => {
                let mut out = String::from_str("Script ");
                out.append(name.as_str());
                out.append(" already exists in \"");
                out.append(bin_dir.as_str());
                out.append("\". Use --force to ignore this warning.");
                out
            },
            Error::ScriptMissing { path } => {
                let mut out = String::from_str("Could not symlink \"");
                out.append(path.as_str());
                out.append("\" because the script didn't exist.");
                out
            },
            Error::NoSubcommand => String::from_str("No subcommand passed"),
            Error::NoLocalPackage => String::from_str(
                "Failed to find package name for local install.",
            ),
            Error::NoVersionFound { name } => {
                let mut out = String::from_str("No version found for '");
                out.append(yellow(name.as_str()).as_str());
                out.append("'.");
                out
            },
            Error::AmbiguousExecutable { name, spec, candidates } => {
                let mut out = String::from_str("'");
                out.append(green(name.as_str()).as_str());
                out.append("' executable not found for install spec '");
                out.append(green(spec.as_str()).as_str());
                out.append("'.\nMultiple related scripts were found:\n");
                out.append(candidate_hints(spec.as_str(), candidates).as_str());
                out
            },
            Error::InvalidEntryPoints { reason } => {
                let mut out = String::from_str("entry_points.txt is invalid: ");
                out.append(reason.as_str());
                out
            },
            Error::MetadataUnreadable { name } => {
                let mut out = String::from_str("Metadata for '");
                out.append(red(name.as_str()).as_str());
                out.append("' could not be loaded.");
                out
            },
            Error::Tool { text } => text.clone(),
        }
    }
}

} // verus!
