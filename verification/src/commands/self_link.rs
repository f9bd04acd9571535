//! Self-link: put a link to this program into the bin directory.

use vstd::prelude::*;

verus! {

/// What to do about the link to this program.
#[derive(Debug, Clone, Copy, PartialEq, Eq, Structural)]
pub enum SelfLink {
    /// The program runs from the bin directory: there is nothing to link.
    Nothing,
    /// Something stands in the link's place and `force` was not given: only
    /// a warning is due.
    Warn,
    /// Make the link.
    Link,
}

/// What to do about the link, given whether this program is the file at the
/// link's place and whether anything stands there.
pub fn self_link(is_current: bool, exists: bool, force: bool) -> (out: SelfLink)
    ensures
        out == (if is_current {
            SelfLink::Nothing
        } else if exists && !force {
            SelfLink::Warn
        } else {
            SelfLink::Link
        }),
{
    if is_current {
        SelfLink::Nothing
    } else if exists && !force {
        SelfLink::Warn
    } else {
        SelfLink::Link
    }
}

/// The exit code of a self-link: 2 for the warning, else 0; always 0 when
/// `quiet` is set.
pub fn self_link_exit_code(plan: SelfLink, quiet: bool) -> (out: i32)
    ensures
        out == (if !quiet && plan == SelfLink::Warn {
            2i32
        } else {
            0i32
        }),
{
    if quiet {
        0
    } else {
        match plan {
            SelfLink::Warn => 2,
            _ => 0,
        }
    }
}

} // verus!
