//! What a dry run of `pip install --report` says, and the durable spec that
//! is made of it.

use vstd::prelude::*;
use vstd::string::*;
use crate::error::Error;
use crate::text::{join, joined, texts};

verus! {

/// Where a package was taken from.
#[derive(Debug, Clone, PartialEq, Eq, Default)]
pub struct PipDownloadInfo {
    pub url: String,
}

/// The core metadata of a package in a report.
#[derive(Debug, Clone, PartialEq, Eq, Default)]
pub struct PipMetadata {
    pub metadata_version: String,
    pub name: String,
    pub version: String,
    pub classifier: Vec<String>,
    pub requires_dist: Vec<String>,
    pub requires_python: String,
}

/// One package of a report.
#[derive(Debug, Clone, PartialEq, Eq, Default)]
pub struct PipInstallItem {
    pub download_info: PipDownloadInfo,
    pub is_direct: bool,
    pub is_yanked: bool,
    pub requested: bool,
    pub requested_extras: Option<Vec<String>>,
    pub metadata: PipMetadata,
}

/// A report.
#[derive(Debug, Clone, PartialEq, Eq, Default)]
pub struct PipData {
    pub version: String,
    pub pip_version: String,
    pub install: Vec<PipInstallItem>,
}

/// What a dry install found out: the name, with extras in brackets if any
/// were asked for, and the location.
#[derive(Debug, Clone, PartialEq, Eq, Default)]
pub struct FakeInstallResult {
    pub name: String,
    pub file_url: String,
}

/// The name of a package with its extras in brackets, where any were asked for.
pub open spec fn name_with_extras(name: Seq<char>, extras: Option<Seq<Seq<char>>>) -> Seq<char> {
    match extras {
        Some(e) => name + "["@ + joined(e, ","@) + "]"@,
        None => name,
    }
}

/// The extras of an item as plain values.
pub open spec fn extras_view(extras: Option<Vec<String>>) -> Option<Seq<Seq<char>>> {
    match extras {
        Some(e) => Some(texts(e@)),
        None => None,
    }
}

/// The durable spec: name, ` @ `, location.
pub open spec fn durable_spec(name: Seq<char>, url: Seq<char>) -> Seq<char> {
    name + " @ "@ + url
}

/// The arguments of the dry run that writes its report to `report_path`.
pub open spec fn dry_run_args(report_path: Seq<char>, install_spec: Seq<char>) -> Seq<Seq<char>> {
    seq![
        "install"@,
        "--no-deps"@,
        "--dry-run"@,
        "--ignore-installed"@,
        "--report"@,
        report_path,
        install_spec,
    ]
}

/// The prefix of a failure of `pip`: `pip`, a blank, the first argument.
pub open spec fn pip_prefix(args: Seq<Seq<char>>) -> Seq<char> {
    "pip "@ + (if args.len() > 0 {
        args[0]
    } else {
        Seq::empty()
    })
}

impl FakeInstallResult {
    /// The spec that installs the same package again from anywhere.
    pub fn to_spec(&self) -> (out: String)
        ensures
            out@ == durable_spec(self.name@, self.file_url@),
    {
        let mut out = self.name.clone();
        out.append(" @ ");
        out.append(self.file_url.as_str());
        out
    }
}

/// The prefix under which a failure of `pip` with these arguments is reported.
pub fn pip_error_prefix(args: &Vec<String>) -> (out: String)
    ensures
        out@ == pip_prefix(texts(args@)),
{
    let mut out = String::from_str("pip ");
    if args.len() > 0 {
        out.append(args[0].as_str());
    } else {
        assert(out@ =~= pip_prefix(texts(args@)));
    }
    out
}

/// The arguments of the dry run for `install_spec`.
pub fn fake_install_args(report_path: &str, install_spec: &str) -> (out: Vec<String>)
    ensures
        texts(out@) == dry_run_args(report_path@, install_spec@),
{
    let mut out: Vec<String> = Vec::new();
    out.push(String::from_str("install"));
    out.push(String::from_str("--no-deps"));
    out.push(String::from_str("--dry-run"));
    out.push(String::from_str("--ignore-installed"));
    out.push(String::from_str("--report"));
    out.push(String::from_str(report_path));
    out.push(String::from_str(install_spec));
    assert(texts(out@) =~= dry_run_args(report_path@, install_spec@));
    out
}

/// What the report of a dry install says of the package asked for: the first
/// item's name, with its extras, and its location. A report without items
/// names nothing.
pub fn fake_install(report: &PipData) -> (out: Result<FakeInstallResult, Error>)
    ensures
        report.install@.len() == 0 ==> out == Err::<FakeInstallResult, Error>(Error::NoLocalPackage),
        report.install@.len() > 0 ==> out is Ok && out->Ok_0.name@ == name_with_extras(
            report.install@[0].metadata.name@,
            extras_view(report.install@[0].requested_extras),
        ) && out->Ok_0.file_url@ == report.install@[0].download_info.url@,
{
    if report.install.len() == 0 {
        return Err(Error::NoLocalPackage);
    }
    let item = &report.install[0];
    let mut name = item.metadata.name.clone();
    match &item.requested_extras {
        Some(extras) => {
            name.append("[");
            name.append(join(extras, ",").as_str());
            name.append("]");
        },
        None => {},
    }
    Ok(FakeInstallResult { name, file_url: item.download_info.url.clone() })
}

} // verus!
