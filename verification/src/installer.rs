//! How the installer and other tools are called and how their outcome is
//! read: argument lists, prefixes of failures, exit codes.

use vstd::prelude::*;
use vstd::string::*;
use crate::error::Error;
use crate::text::{has_suffix, is_suffix};

verus! {

/// How a started program ended.
#[derive(Debug, Clone, Copy, PartialEq, Eq)]
pub enum ExitStatus {
    /// It ended by itself, with this code.
    Exited(u32),
    /// A signal ended it.
    Signaled(u8),
    /// It ended in another way that left a number.
    Other(i32),
    /// How it ended is not known.
    Undetermined,
}

/// The exit code that stands for the way a program ended: its own code, which
/// wraps round above the highest exit code; the number of the signal; the
/// number left; or 0 where nothing is known.
pub open spec fn exit_code_of(status: ExitStatus) -> int {
    match status {
        ExitStatus::Exited(code) => if code <= 0x7fff_ffff {
            code as int
        } else {
            code - 0x1_0000_0000
        },
        ExitStatus::Signaled(signal) => signal as int,
        ExitStatus::Other(code) => code as int,
        ExitStatus::Undetermined => 0,
    }
}

/// The report of a failed tool, behind its prefix and ` | ` if it has one.
pub open spec fn tool_text(report: Seq<char>, prefix: Option<Seq<char>>) -> Seq<char> {
    match prefix {
        Some(p) => p + " | "@ + report,
        None => report,
    }
}

/// The view of a prefix that may be absent.
pub open spec fn prefix_view(prefix: Option<&str>) -> Option<Seq<char>> {
    match prefix {
        Some(p) => Some(p@),
        None => None,
    }
}

/// The prefix of a failure of the installer: `uv`, a blank, the subcommand.
pub open spec fn uv_prefix(subcommand: Seq<char>) -> Seq<char> {
    "uv "@ + subcommand
}

/// The failure of a tool that reported `report`.
pub fn command_failure(report: &str, err_prefix: Option<&str>) -> (out: Error)
    ensures
        out matches Error::Tool { text } && text@ == tool_text(report@, prefix_view(err_prefix)),
{
    match err_prefix {
        Some(p) => {
            let mut text = String::from_str(p);
            text.append(" | ");
            text.append(report);
            Error::Tool { text }
        },
        None => Error::Tool { text: String::from_str(report) },
    }
}

/// The outcome of a tool that ran to its end: success, or the failure made of
/// what it wrote to its error stream.
pub fn run(success: bool, stderr: &str, err_prefix: Option<&str>) -> (out: Result<bool, Error>)
    ensures
        success ==> out == Ok::<bool, Error>(true),
        !success ==> (out matches Err(Error::Tool { text }) && text@ == tool_text(
            stderr@,
            prefix_view(err_prefix),
        )),
{
    if success {
        Ok(true)
    } else {
        Err(command_failure(stderr, err_prefix))
    }
}

/// The outcome of a tool whose output was captured: with exit code 0 what it
/// wrote to its output, otherwise the failure made of its error stream.
pub fn run_get_output(code: Option<i32>, stdout: String, stderr: String) -> (out: Result<
    String,
    Error,
>)
    ensures
        code == Some(0i32) ==> out == Ok::<String, Error>(stdout),
        code != Some(0i32) ==> out == Err::<String, Error>(Error::Tool { text: stderr }),
{
    match code {
        Some(0) => Ok(stdout),
        _ => Err(Error::Tool { text: stderr }),
    }
}

/// The exit code to pass on: that of the tool, or -1 if a signal ended it.
pub fn run_print_output(code: Option<i32>) -> (out: i32)
    ensures
        out == (match code {
            Some(c) => c,
            None => -1i32,
        }),
{
    match code {
        Some(c) => c,
        None => -1,
    }
}

/// The exit code to pass on for a program that was started and has ended.
pub fn process_subprocess(status: ExitStatus) -> (out: i32)
    ensures
        out == exit_code_of(status),
{
    match status {
        ExitStatus::Exited(code) => {
            if code <= 0x7fff_ffff {
                code as i32
            } else {
                let below: u32 = code - 0x8000_0000u32;
                let wrapped: i32 = below as i32;
                wrapped - 0x7fff_ffffi32 - 1i32
            }
        },
        ExitStatus::Signaled(signal) => signal as i32,
        ExitStatus::Other(code) => code,
        ExitStatus::Undetermined => 0,
    }
}

/// The installer to call: the one beside this program if there is one, else
/// whatever `uv` the system finds.
pub fn get_uv_binary(sibling: Option<String>) -> (out: String)
    ensures
        out@ == (match sibling {
            Some(path) => path@,
            None => "uv"@,
        }),
{
    match sibling {
        Some(path) => path,
        None => String::from_str("uv"),
    }
}

/// The prefix under which a failure of the installer with these arguments is
/// reported. Without a subcommand the installer is not called.
pub fn uv(args: &Vec<String>) -> (out: Result<String, Error>)
    ensures
        args@.len() == 0 ==> out == Err::<String, Error>(Error::NoSubcommand),
        args@.len() > 0 ==> out is Ok && out->Ok_0@ == uv_prefix(args@[0]@),
{
    if args.len() == 0 {
        return Err(Error::NoSubcommand);
    }
    let mut out = String::from_str("uv ");
    out.append(args[0].as_str());
    Ok(out)
}

/// Whether the user's shell is the one asked for: its path ends with the name.
pub fn run_if_shell(shell: &str, target: &str) -> (out: bool)
    ensures
        out == is_suffix(target@, shell@),
{
    has_suffix(shell, target)
}

/// The version of a package in an environment: the first one found there.
pub fn uv_get_installed_version(package_name: &str, found: &Vec<String>) -> (out: Result<
    String,
    Error,
>)
    ensures
        found@.len() > 0 ==> out is Ok && out->Ok_0@ == found@[0]@,
        found@.len() == 0 ==> (out matches Err(Error::NoVersionFound { name }) && name@
            == package_name@),
{
    if found.len() > 0 {
        Ok(found[0].clone())
    } else {
        Err(Error::NoVersionFound { name: String::from_str(package_name) })
    }
}

} // verus!
