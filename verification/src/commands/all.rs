//! Operations on every environment: each one is tried, and the failures are
//! gathered instead of stopping at the first.

use vstd::prelude::*;
use vstd::string::*;
use crate::text::texts;

verus! {

/// The operation that is applied to every environment.
#[derive(Debug, Clone, Copy, PartialEq, Eq, Structural)]
pub enum Bulk {
    Uninstall,
    Upgrade,
    Reinstall,
}

/// Why an operation on every environment failed.
#[derive(Debug, Clone, PartialEq, Eq)]
pub struct BulkError {
    /// What is said first.
    pub headline: String,
    /// What each failed item reported, in the order in which they were tried.
    pub failures: Vec<String>,
    /// What is said last.
    pub root: String,
}

/// What is said first when an item failed.
pub open spec fn headline_of(kind: Bulk) -> Seq<char> {
    match kind {
        Bulk::Uninstall => "⚠️ Not all packages were properly uninstalled!"@,
        Bulk::Upgrade => "⚠️ Not all packages were properly upgraded!"@,
        Bulk::Reinstall => "⚠️ Not all packages were properly reinstalled!"@,
    }
}

/// What is said last when an item failed.
pub open spec fn root_of(kind: Bulk) -> Seq<char> {
    match kind {
        Bulk::Uninstall => "-> Failed uninstall-all."@,
        Bulk::Upgrade => "-> Failed upgrade-all."@,
        Bulk::Reinstall => "-> Failed reinstall-all."@,
    }
}

/// The values of the outcomes that succeeded, in order.
pub open spec fn successes_of<T>(results: Seq<Result<T, String>>) -> Seq<T>
    decreases results.len(),
{
    if results.len() == 0 {
        Seq::empty()
    } else {
        match results.last() {
            Ok(v) => successes_of(results.drop_last()).push(v),
            Err(_) => successes_of(results.drop_last()),
        }
    }
}

/// The reports of the outcomes that failed, in order.
pub open spec fn failures_of<T>(results: Seq<Result<T, String>>) -> Seq<Seq<char>>
    decreases results.len(),
{
    if results.len() == 0 {
        Seq::empty()
    } else {
        match results.last() {
            Ok(_) => failures_of(results.drop_last()),
            Err(e) => failures_of(results.drop_last()).push(e@),
        }
    }
}

/// Parts the outcomes of the items into the values of those that succeeded
/// and the reports of those that failed, each in order.
pub fn handle_promises<T>(results: Vec<Result<T, String>>) -> (out: (Vec<T>, Vec<String>))
    ensures
        out.0@ == successes_of(results@),
        texts(out.1@) == failures_of(results@),
{
    let ghost all = results@;
    let mut good: Vec<T> = Vec::new();
    let mut bad: Vec<String> = Vec::new();
    assert(texts(bad@) =~= failures_of(all.take(0)));
    assert(good@ =~= successes_of(all.take(0)));
    for item in it: results
        invariant
            it.seq() == all,
            good@ == successes_of(all.take(it.index() as int)),
            texts(bad@) == failures_of(all.take(it.index() as int)),
    {
        let ghost bad_before = texts(bad@);
        proof {
            let next = all.take(it.index() + 1);
            assert(next.drop_last() == all.take(it.index() as int));
            assert(next.last() == all[it.index() as int]);
        }
        match item {
            Ok(v) => {
                good.push(v);
            },
            Err(e) => {
                bad.push(e);
                assert(texts(bad@) =~= bad_before.push(e@));
            },
        }
    }
    assert(all.take(all.len() as int) == all);
    (good, bad)
}

/// The outcome of an operation on every environment: what the items said if
/// all of them succeeded; otherwise the failure that holds every report.
pub fn summarize(kind: Bulk, results: Vec<Result<String, String>>) -> (out: Result<
    Vec<String>,
    BulkError,
>)
    ensures
        failures_of(results@).len() == 0 ==> out is Ok && out->Ok_0@ == successes_of(results@),
        failures_of(results@).len() > 0 ==> out is Err && out->Err_0.headline@ == headline_of(kind)
            && out->Err_0.root@ == root_of(kind) && texts(out->Err_0.failures@) == failures_of(
            results@,
        ),
{
    let parts = handle_promises(results);
    let good = parts.0;
    let bad = parts.1;
    if bad.len() == 0 {
        return Ok(good);
    }
    let headline = match kind {
        Bulk::Uninstall => String::from_str("⚠️ Not all packages were properly uninstalled!"),
        Bulk::Upgrade => String::from_str("⚠️ Not all packages were properly upgraded!"),
        Bulk::Reinstall => String::from_str("⚠️ Not all packages were properly reinstalled!"),
    };
    let root = match kind {
        Bulk::Uninstall => String::from_str("-> Failed uninstall-all."),
        Bulk::Upgrade => String::from_str("-> Failed upgrade-all."),
        Bulk::Reinstall => String::from_str("-> Failed reinstall-all."),
    };
    Err(BulkError { headline, failures: bad, root })
}

} // verus!
