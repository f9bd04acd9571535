//! Terminal colours. The escape sequences come from `owo_colors`; the
//! contracts say which bytes it puts round a text.

use vstd::prelude::*;
use owo_colors::OwoColorize;

verus! {

/// `s` between the escape that starts foreground colour `code` and the one
/// that restores the default foreground.
pub open spec fn in_colour(code: Seq<char>, s: Seq<char>) -> Seq<char> {
    "\x1b["@ + code + "m"@ + s + "\x1b[39m"@
}

/// `s` between the escape that starts style `code` and the one that resets all
/// attributes.
pub open spec fn in_style(code: Seq<char>, s: Seq<char>) -> Seq<char> {
    "\x1b["@ + code + "m"@ + s + "\x1b[0m"@
}

/// Red text.
pub open spec fn red_text(s: Seq<char>) -> Seq<char> {
    in_colour("31"@, s)
}

/// Green text.
pub open spec fn green_text(s: Seq<char>) -> Seq<char> {
    in_colour("32"@, s)
}

/// Yellow text.
pub open spec fn yellow_text(s: Seq<char>) -> Seq<char> {
    in_colour("33"@, s)
}

/// Blue text.
pub open spec fn blue_text(s: Seq<char>) -> Seq<char> {
    in_colour("34"@, s)
}

/// Cyan text.
pub open spec fn cyan_text(s: Seq<char>) -> Seq<char> {
    in_colour("36"@, s)
}

/// Bright blue text.
pub open spec fn bright_blue_text(s: Seq<char>) -> Seq<char> {
    in_colour("94"@, s)
}

/// Bold text.
pub open spec fn bold_text(s: Seq<char>) -> Seq<char> {
    in_style("1"@, s)
}

/// Underlined text.
pub open spec fn underlined_text(s: Seq<char>) -> Seq<char> {
    in_style("4"@, s)
}

/// `OwoColorize::red`, displayed: `ESC[31m`, the text, `ESC[39m`.
#[verifier::external_body]
pub(crate) fn red(s: &str) -> (out: String)
    ensures
        out@ == red_text(s@),
{
    s.red().to_string()
}

/// `OwoColorize::green`, displayed: `ESC[32m`, the text, `ESC[39m`.
#[verifier::external_body]
pub(crate) fn green(s: &str) -> (out: String)
    ensures
        out@ == green_text(s@),
{
    s.green().to_string()
}

/// `OwoColorize::yellow`, displayed: `ESC[33m`, the text, `ESC[39m`.
#[verifier::external_body]
pub(crate) fn yellow(s: &str) -> (out: String)
    ensures
        out@ == yellow_text(s@),
{
    s.yellow().to_string()
}

/// `OwoColorize::blue`, displayed: `ESC[34m`, the text, `ESC[39m`.
#[verifier::external_body]
pub(crate) fn blue(s: &str) -> (out: String)
    ensures
        out@ == blue_text(s@),
{
    s.blue().to_string()
}

/// `OwoColorize::cyan`, displayed: `ESC[36m`, the text, `ESC[39m`.
#[verifier::external_body]
pub(crate) fn cyan(s: &str) -> (out: String)
    ensures
        out@ == cyan_text(s@),
{
    s.cyan().to_string()
}

/// `OwoColorize::bright_blue`, displayed: `ESC[94m`, the text, `ESC[39m`.
#[verifier::external_body]
pub(crate) fn bright_blue(s: &str) -> (out: String)
    ensures
        out@ == bright_blue_text(s@),
{
    s.bright_blue().to_string()
}

/// `OwoColorize::bold`, displayed: `ESC[1m`, the text, `ESC[0m`.
#[verifier::external_body]
pub(crate) fn bold(s: &str) -> (out: String)
    ensures
        out@ == bold_text(s@),
{
    s.bold().to_string()
}

/// `OwoColorize::underline`, displayed: `ESC[4m`, the text, `ESC[0m`.
#[verifier::external_body]
pub(crate) fn underline(s: &str) -> (out: String)
    ensures
        out@ == underlined_text(s@),
{
    s.underline().to_string()
}

} // verus!
