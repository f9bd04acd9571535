//! The options of each subcommand, as plain values, and the subcommands
//! themselves.

use vstd::prelude::*;

verus! {

/// Exit code of an operation that succeeded.
pub const EXIT_OK: i32 = 0;

/// Exit code of an operation that failed.
pub const EXIT_FAILURE: i32 = 1;

/// Exit code of an operation that found its goal already met.
pub const EXIT_WARNING: i32 = 2;

/// Exit code where the user's shell is not supported.
pub const EXIT_UNSUPPORTED_SHELL: i32 = 126;

#[derive(Debug, Clone, PartialEq, Eq, PartialOrd, Ord, Hash, Default)]
pub struct SetupOptions {
    pub skip_ensurepath: bool,
    pub skip_completions: bool,
    pub skip_activate: bool,
    pub force: bool,
}

#[derive(Debug, Clone, PartialEq, Eq, PartialOrd, Ord, Hash, Default)]
pub struct ListOptions {
    pub short: bool,
    pub verbose: bool,
    pub json: bool,
    pub skip_updates: bool,
    pub show_prereleases: bool,
    pub ignore_constraints: bool,
    pub python: Option<String>,
    pub venv_names: Vec<String>,
}

#[derive(Debug, Clone, PartialEq, Eq, PartialOrd, Ord, Hash, Default)]
pub struct InstallOptions {
    pub package_name: String,
    pub force: bool,
    pub no_cache: bool,
    pub python: Option<String>,
    pub editable: bool,
    pub with: Vec<String>,
}

#[derive(Debug, Clone, PartialEq, Eq, PartialOrd, Ord, Hash, Default)]
pub struct CreateOptions {
    pub venv_name: String,
    pub python: Option<String>,
    pub no_seed: bool,
    pub force: bool,
}

#[derive(Debug, Clone, PartialEq, Eq, PartialOrd, Ord, Hash, Default)]
pub struct ActivateOptions {
    pub venv_name: String,
}

#[derive(Debug, Clone, PartialEq, Eq, PartialOrd, Ord, Hash, Default)]
pub struct UpgradeOptions {
    pub package_name: String,
    pub force: bool,
    pub skip_injected: bool,
    pub no_cache: bool,
}

#[derive(Debug, Clone, PartialEq, Eq, PartialOrd, Ord, Hash, Default)]
pub struct UninstallOptions {
    pub package_name: String,
    pub force: bool,
}

#[derive(Debug, Clone, PartialEq, Eq, PartialOrd, Ord, Hash, Default)]
pub struct UninstallAllOptions {
    pub force: bool,
    pub venv_names: Vec<String>,
}

#[derive(Debug, Clone, PartialEq, Eq, PartialOrd, Ord, Hash, Default)]
pub struct ReinstallOptions {
    pub package: String,
    pub python: Option<String>,
    pub force: bool,
    pub without_injected: bool,
    pub no_cache: bool,
    pub editable: bool,
}

#[derive(Debug, Clone, PartialEq, Eq, PartialOrd, Ord, Hash, Default)]
pub struct ReinstallAllOptions {
    pub python: Option<String>,
    pub force: bool,
    pub without_injected: bool,
    pub no_cache: bool,
    pub editable: bool,
    pub venv_names: Vec<String>,
}

#[derive(Debug, Clone, PartialEq, Eq, PartialOrd, Ord, Hash, Default)]
pub struct UpgradeAllOptions {
    pub force: bool,
    pub skip_injected: bool,
    pub no_cache: bool,
    pub venv_names: Vec<String>,
}

#[derive(Debug, Clone, PartialEq, Eq, PartialOrd, Ord, Hash, Default)]
pub struct RunOptions {
    pub package_name: String,
    pub no_cache: bool,
    pub python: Option<String>,
    pub keep: bool,
    pub with: Vec<String>,
    pub binary: Option<String>,
    pub args: Vec<String>,
}

#[derive(Debug, Clone, PartialEq, Eq, PartialOrd, Ord, Hash, Default)]
pub struct RunuvOptions {
    pub venv: String,
    pub uv_args: Vec<String>,
}

#[derive(Debug, Clone, PartialEq, Eq, PartialOrd, Ord, Hash, Default)]
pub struct RunpipOptions {
    pub venv: String,
    pub pip_args: Vec<String>,
}

#[derive(Debug, Clone, PartialEq, Eq, PartialOrd, Ord, Hash, Default)]
pub struct RunpythonOptions {
    pub venv: String,
    pub python_args: Vec<String>,
}

#[derive(Debug, Clone, PartialEq, Eq, PartialOrd, Ord, Hash, Default)]
pub struct EnsurepathOptions {
    pub force: bool,
}

#[derive(Debug, Clone, PartialEq, Eq, PartialOrd, Ord, Hash, Default)]
pub struct InjectOptions {
    pub into: String,
    pub package_specs: Vec<String>,
    pub no_cache: bool,
}

#[derive(Debug, Clone, PartialEq, Eq, PartialOrd, Ord, Hash, Default)]
pub struct UnInjectOptions {
    pub outof: String,
    pub package_specs: Vec<String>,
}

#[derive(Debug, Clone, PartialEq, Eq, PartialOrd, Ord, Hash, Default)]
pub struct CheckOptions {
    pub skip_scripts: bool,
    pub skip_updates: bool,
    pub show_prereleases: bool,
    pub ignore_constraints: bool,
    pub json: bool,
    pub venv_names: Vec<String>,
}

#[derive(Debug, Clone, PartialEq, Eq, PartialOrd, Ord, Hash, Default)]
pub struct CompletionsOptions {
    pub install: bool,
}

#[derive(Debug, Copy, Clone, PartialEq, Eq, PartialOrd, Ord, Hash, Default)]
pub struct SelfLinkOptions {
    pub force: bool,
    pub quiet: bool,
}

#[derive(Debug, Copy, Clone, PartialEq, Eq, PartialOrd, Ord, Hash, Default)]
pub struct SelfUpdateOptions {
    pub without_uv: bool,
    pub without_patchelf: bool,
}

#[derive(Debug, Clone, PartialEq, Eq, PartialOrd, Ord, Hash, Default)]
pub struct SelfChangelogOptions;

#[derive(Debug, Clone, PartialEq, Eq, PartialOrd, Ord, Hash, Default)]
pub struct SelfMigrateOptions;

#[derive(Debug, Clone, PartialEq, Eq, PartialOrd, Ord, Hash, Default)]
pub struct SelfVersionOptions;

/// The subcommands that act on the program itself.
#[derive(Debug, Clone, PartialEq, Eq, PartialOrd, Ord, Hash)]
pub enum SelfCommands {
    Update(SelfUpdateOptions),
    Link(SelfLinkOptions),
    Changelog(SelfChangelogOptions),
    Migrate(SelfMigrateOptions),
    Version(SelfVersionOptions),
}

/// The subcommands.
#[derive(Debug, Clone, PartialEq, Eq, PartialOrd, Ord, Hash)]
pub enum Commands {
    Setup(SetupOptions),
    List(ListOptions),
    Install(InstallOptions),
    Create(CreateOptions),
    Activate(ActivateOptions),
    Upgrade(UpgradeOptions),
    UpgradeAll(UpgradeAllOptions),
    Uninstall(UninstallOptions),
    UninstallAll(UninstallAllOptions),
    Reinstall(ReinstallOptions),
    ReinstallAll(ReinstallAllOptions),
    Inject(InjectOptions),
    Uninject(UnInjectOptions),
    Check(CheckOptions),
    Run(RunOptions),
    Runuv(RunuvOptions),
    Runpip(RunpipOptions),
    Runpython(RunpythonOptions),
    Ensurepath(EnsurepathOptions),
    Completions(CompletionsOptions),
    Self_(SelfCommands),
}

} // verus!
