//! Environments: where one is put, how the installer is asked to make it,
//! and what the operations read of one that exists.

use vstd::prelude::*;
use vstd::string::*;
use crate::error::Error;
use crate::metadata::PythonInfo;
use crate::paths::{join_path, joined_path, venv_path, venv_path_of};
use crate::requirement::Parsed;
use crate::text::texts;

verus! {

/// What the operations read of an environment.
#[derive(Debug, Clone, PartialEq, Eq, Default)]
pub struct Environment {
    /// The directory of the environment.
    pub root: String,
    /// The directory of its launchers.
    pub scripts: String,
    /// The directory of its installed packages.
    pub purelib: String,
    /// Its interpreter.
    pub python: PythonInfo,
}

/// Paths of an environment or an interpreter as text.
pub trait Helpers {
    /// The directory that stands for the value.
    fn to_path_buf(&self) -> String;

    /// The directory of the standard library.
    fn stdlib_as_string(&self) -> String;
}

impl Helpers for Environment {
    fn to_path_buf(&self) -> (out: String)
        ensures
            out@ == self.root@,
    {
        self.root.clone()
    }

    fn stdlib_as_string(&self) -> (out: String)
        ensures
            out@ == self.python.stdlib@,
    {
        self.python.stdlib.clone()
    }
}

impl Helpers for PythonInfo {
    fn to_path_buf(&self) -> (out: String)
        ensures
            out@ == self.stdlib@,
    {
        self.stdlib.clone()
    }

    fn stdlib_as_string(&self) -> (out: String)
        ensures
            out@ == self.stdlib@,
    {
        self.stdlib.clone()
    }
}

/// The arguments that make the installer create an environment.
pub open spec fn venv_args(path: Seq<char>, python: Option<Seq<char>>, with_pip: bool) -> Seq<
    Seq<char>,
> {
    seq!["venv"@, path] + (match python {
        Some(p) => seq!["--python"@, p],
        None => Seq::empty(),
    }) + (if with_pip {
        seq!["--seed"@]
    } else {
        Seq::empty()
    })
}

/// The view of a text that may be absent.
pub open spec fn maybe_text(s: Option<&String>) -> Option<Seq<char>> {
    match s {
        Some(t) => Some(t@),
        None => None,
    }
}

/// Where the environment of a package goes: behind the prefix if one is
/// given, else among the environments of `home`.
pub open spec fn venv_location(home: Seq<char>, name: Seq<char>, prefix: Option<Seq<char>>) -> Seq<
    char,
> {
    match prefix {
        Some(p) => p + name,
        None => venv_path_of(home, name),
    }
}

/// How to create the environment at `venv_path`: the installer's arguments.
/// An environment that exists is not overwritten unless `force` is set.
pub fn create_venv_raw(
    venv_path: &str,
    exists: bool,
    python: Option<&String>,
    force: bool,
    with_pip: bool,
) -> (out: Result<Vec<String>, Error>)
    ensures
        !force && exists ==> (out matches Err(Error::AlreadyInstalled { path }) && path@
            == venv_path@),
        force || !exists ==> out is Ok && texts(out->Ok_0@) == venv_args(
            venv_path@,
            maybe_text(python),
            with_pip,
        ),
{
    if !force && exists {
        return Err(Error::AlreadyInstalled { path: String::from_str(venv_path) });
    }
    let mut args: Vec<String> = Vec::new();
    args.push(String::from_str("venv"));
    args.push(String::from_str(venv_path));
    match python {
        Some(py) => {
            args.push(String::from_str("--python"));
            args.push(py.clone());
        },
        None => {},
    }
    if with_pip {
        args.push(String::from_str("--seed"));
    }
    assert(texts(args@) =~= venv_args(venv_path@, maybe_text(python), with_pip));
    Ok(args)
}

/// Where the environment of `package_name` goes.
pub fn create_venv(home: &str, package_name: &str, custom_prefix: Option<&String>) -> (out: String)
    ensures
        out@ == venv_location(home@, package_name@, maybe_text(custom_prefix)),
{
    match custom_prefix {
        Some(prefix) => {
            let mut out = prefix.clone();
            out.append(package_name);
            out
        },
        None => venv_path(home, package_name),
    }
}

/// Where the environment of the package that a parsed spec names is; nowhere
/// for a spec that was not read as a requirement.
pub fn find_venv(home: &str, parsed: &Parsed) -> (out: Option<String>)
    ensures
        match *parsed {
            Parsed::Standard(requirement, _) => out is Some && out->0@ == venv_path_of(
                home@,
                requirement.name@,
            ),
            Parsed::Local => out is None,
            Parsed::Placeholder => out is None,
        },
{
    match parsed {
        Parsed::Standard(requirement, _) => Some(venv_path(home, requirement.name.as_str())),
        Parsed::Local => None,
        Parsed::Placeholder => None,
    }
}

/// Whether an operation on the environment of `install_spec` can go on: it
/// cannot if there is no such environment.
pub fn setup_environ_from_requirement(install_spec: &str, venv_exists: bool) -> (out: Result<
    (),
    Error,
>)
    ensures
        venv_exists ==> out is Ok,
        !venv_exists ==> (out matches Err(Error::NoVirtualenv { spec }) && spec@ == install_spec@),
{
    if venv_exists {
        Ok(())
    } else {
        Err(Error::NoVirtualenv { spec: String::from_str(install_spec) })
    }
}

/// The path of a launcher inside an environment.
pub fn venv_script(venv: &Environment, script: &str) -> (out: String)
    ensures
        out@ == joined_path(venv.scripts@, script@),
{
    join_path(venv.scripts.as_str(), script)
}

} // verus!
