//! Check: which environments are outdated and which have broken launchers.

use vstd::prelude::*;
use vstd::string::*;
use crate::cli::CheckOptions;
use crate::metadata::{LoadMetadataConfig, Metadata};
use crate::paint::{
    blue, blue_text, bold, bold_text, green, green_text, red, red_text, underline,
    underlined_text, yellow, yellow_text,
};
use crate::scripts::broken_in;
use crate::text::texts;

verus! {

/// The broken launchers of one environment.
#[derive(Debug, Clone, PartialEq, Eq, Default)]
pub struct ScriptIssue {
    pub name: String,
    pub scripts: Vec<String>,
}

/// What a check found.
#[derive(Debug, Clone, PartialEq, Eq, Default)]
pub struct Issues {
    /// The environments for which an update is known.
    pub outdated: Vec<String>,
    /// The environments with launchers that are not in order.
    pub scripts: Vec<ScriptIssue>,
}

/// The number of broken launchers in all of `issues`.
pub open spec fn script_total(issues: Seq<ScriptIssue>) -> nat
    decreases issues.len(),
{
    if issues.len() == 0 {
        0
    } else {
        script_total(issues.drop_last()) + issues.last().scripts@.len()
    }
}

/// `n` as an exit code: itself, or the highest code if it is above that.
pub open spec fn as_code(n: nat) -> i32 {
    if n <= i32::MAX as nat {
        n as i32
    } else {
        i32::MAX
    }
}

/// The names of the records that are outdated, in order; none if updates are
/// skipped.
pub open spec fn outdated_names(items: Seq<Metadata>, skip_updates: bool) -> Seq<Seq<char>>
    decreases items.len(),
{
    if items.len() == 0 {
        Seq::empty()
    } else if !skip_updates && items.last().outdated {
        outdated_names(items.drop_last(), skip_updates).push(items.last().name@)
    } else {
        outdated_names(items.drop_last(), skip_updates)
    }
}

/// The records with broken launchers, each with those launchers, in order;
/// none if launchers are skipped.
pub open spec fn script_issues(items: Seq<Metadata>, skip_scripts: bool) -> Seq<
    (Seq<char>, Seq<Seq<char>>),
>
    decreases items.len(),
{
    if items.len() == 0 {
        Seq::empty()
    } else if !skip_scripts && broken_in(items.last().scripts@).len() > 0 {
        script_issues(items.drop_last(), skip_scripts).push(
            (items.last().name@, broken_in(items.last().scripts@)),
        )
    } else {
        script_issues(items.drop_last(), skip_scripts)
    }
}

/// The script issues as plain values.
pub open spec fn issue_views(issues: Seq<ScriptIssue>) -> Seq<(Seq<char>, Seq<Seq<char>>)> {
    Seq::new(issues.len(), |i: int| (issues[i].name@, texts(issues[i].scripts@)))
}

/// One line for each item: the lead, the item in red, a line break.
pub open spec fn red_lines(lead: Seq<char>, items: Seq<Seq<char>>) -> Seq<char>
    decreases items.len(),
{
    if items.len() == 0 {
        Seq::empty()
    } else {
        red_lines(lead, items.drop_last()) + (lead + red_text(items.last()) + "\n"@)
    }
}

/// The lines for one environment with broken launchers: its name, then each
/// launcher.
pub open spec fn issue_block(issue: (Seq<char>, Seq<Seq<char>>)) -> Seq<char> {
    "  - "@ + bold_text(red_text(issue.0 + ":"@)) + "\n"@ + red_lines("    - "@, issue.1)
}

/// The lines for all environments with broken launchers.
pub open spec fn issue_blocks(issues: Seq<(Seq<char>, Seq<Seq<char>>)>) -> Seq<char>
    decreases issues.len(),
{
    if issues.len() == 0 {
        Seq::empty()
    } else {
        issue_blocks(issues.drop_last()) + issue_block(issues.last())
    }
}

/// The part of the report on outdated environments.
pub open spec fn outdated_part(outdated: Seq<Seq<char>>) -> Seq<char> {
    if outdated.len() > 0 {
        yellow_text(bold_text("\n🔶 Outdated:"@)) + "\n"@ + red_lines("  - "@, outdated)
            + blue_text(
            "💡 Tip: you can use `uvenv upgrade <package>` to update a specific environment."@,
        ) + "\n"@
    } else {
        Seq::empty()
    }
}

/// The part of the report on broken launchers.
pub open spec fn scripts_part(issues: Seq<(Seq<char>, Seq<Seq<char>>)>) -> Seq<char> {
    if issues.len() > 0 {
        yellow_text(bold_text("\n🔶 Missing Scripts:"@)) + "\n"@ + issue_blocks(issues)
            + blue_text(
            "💡 Tip: you can use `uvenv reinstall <package>` to reinstall an environment, which might fix the missing scripts."@,
        ) + "\n"@
    } else {
        Seq::empty()
    }
}

/// The report for a reader: one line if nothing is wrong, else a heading and
/// a part for each kind of issue that was found.
pub open spec fn human_report(issues: Issues) -> Seq<char> {
    if issues.outdated@.len() + script_total(issues.scripts@) == 0 {
        bold_text(
            green_text(
                "✅ No issues found. Everything is up-to-date and all scripts are properly installed!"@,
            ),
        ) + "\n"@
    } else {
        underlined_text(bold_text("🚨 Issues Overview:"@)) + "\n"@ + outdated_part(
            texts(issues.outdated@),
        ) + scripts_part(issue_views(issues.scripts@))
    }
}

/// One line for each item: the lead, the item in red, a line break.
fn write_red_lines(lead: &str, items: &Vec<String>) -> (out: String)
    ensures
        out@ == red_lines(lead@, texts(items@)),
{
    let mut out = String::new();
    let mut i: usize = 0;
    let ghost all = texts(items@);
    while i < items.len()
        invariant
            i <= items.len(),
            all == texts(items@),
            out@ == red_lines(lead@, all.take(i as int)),
        decreases items.len() - i,
    {
        proof {
            let next = all.take(i + 1);
            assert(next.drop_last() == all.take(i as int));
            assert(next.last() == items@[i as int]@);
        }
        let mut line = String::from_str(lead);
        line.append(red(items[i].as_str()).as_str());
        line.append("\n");
        out.append(line.as_str());
        i += 1;
    }
    assert(all.take(i as int) == all);
    out
}

/// `n` as an exit code.
fn to_code(n: usize) -> (out: i32)
    ensures
        out == as_code(n as nat),
{
    if n <= 0x7fff_ffff {
        n as i32
    } else {
        0x7fff_ffffi32
    }
}

impl Issues {
    /// No issue.
    pub fn new() -> (out: Self)
        ensures
            out.outdated@.len() == 0,
            out.scripts@.len() == 0,
    {
        Issues { outdated: Vec::new(), scripts: Vec::new() }
    }

    /// The number of outdated environments.
    pub fn count_outdated(&self) -> (out: i32)
        ensures
            out == as_code(self.outdated@.len()),
    {
        to_code(self.outdated.len())
    }

    /// The number of broken launchers.
    pub fn count_scripts(&self) -> (out: i32)
        ensures
            out == as_code(script_total(self.scripts@)),
    {
        let mut total: usize = 0;
        let mut i: usize = 0;
        let ghost all = self.scripts@;
        while i < self.scripts.len()
            invariant
                i <= self.scripts.len(),
                all == self.scripts@,
                total as nat == (if script_total(all.take(i as int)) <= usize::MAX as nat {
                    script_total(all.take(i as int))
                } else {
                    usize::MAX as nat
                }),
            decreases self.scripts.len() - i,
        {
            proof {
                let next = all.take(i + 1);
                assert(next.drop_last() == all.take(i as int));
                assert(next.last() == all[i as int]);
            }
            total = total.saturating_add(self.scripts[i].scripts.len());
            i += 1;
        }
        assert(all.take(i as int) == all);
        to_code(total)
    }

    /// The report for a reader, and the number of issues as the exit code.
    pub fn print_human(&self) -> (out: (String, i32))
        ensures
            out.0@ == human_report(*self),
            out.1 == as_code(self.outdated@.len() + script_total(self.scripts@)),
    {
        let issue_count = self.count();
        if issue_count == 0 {
            let mut text = bold(
                green(
                    "✅ No issues found. Everything is up-to-date and all scripts are properly installed!",
                ).as_str(),
            );
            text.append("\n");
            return (text, 0);
        }
        let mut outdated = String::new();
        if self.outdated.len() > 0 {
            outdated.append(yellow(bold("\n🔶 Outdated:").as_str()).as_str());
            outdated.append("\n");
            outdated.append(write_red_lines("  - ", &self.outdated).as_str());
            outdated.append(
                blue(
                    "💡 Tip: you can use `uvenv upgrade <package>` to update a specific environment.",
                ).as_str(),
            );
            outdated.append("\n");
            assert(outdated@ =~= outdated_part(texts(self.outdated@)));
        }
        let mut scripts = String::new();
        if self.scripts.len() > 0 {
            let mut blocks = String::new();
            let mut i: usize = 0;
            let ghost all = issue_views(self.scripts@);
            while i < self.scripts.len()
                invariant
                    i <= self.scripts.len(),
                    all == issue_views(self.scripts@),
                    blocks@ == issue_blocks(all.take(i as int)),
                decreases self.scripts.len() - i,
            {
                proof {
                    let next = all.take(i + 1);
                    assert(next.drop_last() == all.take(i as int));
                    assert(next.last() == (
                        self.scripts@[i as int].name@,
                        texts(self.scripts@[i as int].scripts@),
                    ));
                }
                let issue = &self.scripts[i];
                let mut title = issue.name.clone();
                title.append(":");
                let mut block = String::from_str("  - ");
                block.append(bold(red(title.as_str()).as_str()).as_str());
                block.append("\n");
                block.append(write_red_lines("    - ", &issue.scripts).as_str());
                blocks.append(block.as_str());
                i += 1;
            }
            assert(all.take(i as int) == all);
            scripts.append(yellow(bold("\n🔶 Missing Scripts:").as_str()).as_str());
            scripts.append("\n");
            scripts.append(blocks.as_str());
            scripts.append(
                blue(
                    "💡 Tip: you can use `uvenv reinstall <package>` to reinstall an environment, which might fix the missing scripts.",
                ).as_str(),
            );
            scripts.append("\n");
            assert(scripts@ =~= scripts_part(issue_views(self.scripts@)));
        }
        let mut text = underline(bold("🚨 Issues Overview:").as_str());
        text.append("\n");
        text.append(outdated.as_str());
        text.append(scripts.as_str());
        (text, issue_count)
    }

    /// The number of issues.
    pub fn count(&self) -> (out: i32)
        ensures
            out == as_code(self.outdated@.len() + script_total(self.scripts@)),
    {
        let a = self.count_outdated();
        let b = self.count_scripts();
        if a > 0x7fff_ffffi32 - b {
            0x7fff_ffffi32
        } else {
            a + b
        }
    }
}

impl CheckOptions {
    /// The checks with which records are loaded for a check.
    pub fn to_metadataconfig(&self) -> (out: LoadMetadataConfig)
        ensures
            out.recheck_scripts == !self.skip_scripts,
            out.updates_check == !self.skip_updates,
            out.updates_prereleases == self.show_prereleases,
            out.updates_ignore_constraints == self.ignore_constraints,
    {
        LoadMetadataConfig {
            recheck_scripts: !self.skip_scripts,
            updates_check: !self.skip_updates,
            updates_prereleases: self.show_prereleases,
            updates_ignore_constraints: self.ignore_constraints,
        }
    }
}

/// What is wrong with the environments of `items`: which are outdated and
/// which have broken launchers.
pub fn find_issues(items: &Vec<Metadata>, skip_scripts: bool, skip_updates: bool) -> (out: Issues)
    ensures
        texts(out.outdated@) == outdated_names(items@, skip_updates),
        issue_views(out.scripts@) == script_issues(items@, skip_scripts),
{
    let mut issues = Issues::new();
    let mut i: usize = 0;
    assert(texts(issues.outdated@) =~= outdated_names(items@.take(0), skip_updates));
    assert(issue_views(issues.scripts@) =~= script_issues(items@.take(0), skip_scripts));
    while i < items.len()
        invariant
            i <= items.len(),
            texts(issues.outdated@) == outdated_names(items@.take(i as int), skip_updates),
            issue_views(issues.scripts@) == script_issues(items@.take(i as int), skip_scripts),
        decreases items.len() - i,
    {
        let metadata = &items[i];
        proof {
            let next = items@.take(i + 1);
            assert(next.drop_last() == items@.take(i as int));
            assert(next.last() == items@[i as int]);
        }
        let invalid = metadata.invalid_scripts();
        if !skip_scripts && invalid.len() > 0 {
            let ghost before = issue_views(issues.scripts@);
            issues.scripts.push(ScriptIssue { name: metadata.name.clone(), scripts: invalid });
            assert(issue_views(issues.scripts@) =~= before.push(
                (metadata.name@, broken_in(metadata.scripts@)),
            ));
        }
        if !skip_updates && metadata.outdated {
            let ghost before = texts(issues.outdated@);
            issues.outdated.push(metadata.name.clone());
            assert(texts(issues.outdated@) =~= before.push(metadata.name@));
        }
        i += 1;
    }
    assert(items@.take(i as int) == items@);
    issues
}

} // verus!
