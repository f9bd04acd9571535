//! What an index says of a package: its releases, their files and whether a
//! file was withdrawn; and which versions of it may be offered.

use vstd::prelude::*;
use crate::names::NameSet;
use crate::pep440::{
    pep440_contains, pep440_le, pep440_prerelease, pep440_version, Version, VersionSpecifier,
};

verus! {

/// The withdrawal mark of one release file.
#[derive(Debug, Clone, PartialEq, Eq)]
pub enum Yanked {
    /// Withdrawn or not, without a reason.
    Bool(bool),
    /// Withdrawn, with the reason given.
    Reason(String),
}

/// One file of a release.
#[derive(Debug, Clone, PartialEq, Eq)]
pub struct ReleaseFile {
    pub yanked: Option<Yanked>,
}

/// One release of a package.
#[derive(Debug, PartialEq, Eq)]
pub struct Release {
    pub version: Version,
    pub files: Vec<ReleaseFile>,
}

/// A mark withdraws its file if it gives a reason or is the flag `true`.
pub open spec fn mark_yanks(yanked: Option<Yanked>) -> bool {
    match yanked {
        None => false,
        Some(Yanked::Reason(_)) => true,
        Some(Yanked::Bool(b)) => b,
    }
}

/// A release is withdrawn if any of its files is.
pub open spec fn release_yanked(release: Release) -> bool {
    exists|i: int| 0 <= i < release.files@.len() && mark_yanks(#[trigger] release.files@[i].yanked)
}

/// The version `v` is withdrawn: some release of that version has a withdrawn
/// file.
pub open spec fn version_yanked(releases: Seq<Release>, v: Seq<char>) -> bool {
    exists|i: int|
        0 <= i < releases.len() && (#[trigger] releases[i]).version@ == v && release_yanked(
            releases[i],
        )
}

/// Whether a release of the index `all` may be offered: its version is not
/// withdrawn; it is no pre-release where only stable versions are wanted; the
/// constraint admits it where there is one.
pub open spec fn offered(
    all: Seq<Release>,
    release: Release,
    stable: bool,
    constraint: Option<Seq<char>>,
) -> bool {
    &&& !version_yanked(all, release.version@)
    &&& stable ==> !pep440_prerelease(release.version@)
    &&& constraint is Some ==> pep440_contains(constraint->0, release.version@)
}

/// The version texts of those releases of `part` that may be offered from the
/// index `all`, in the order of `part`.
pub open spec fn offered_among(
    all: Seq<Release>,
    part: Seq<Release>,
    stable: bool,
    constraint: Option<Seq<char>>,
) -> Seq<Seq<char>>
    decreases part.len(),
{
    if part.len() == 0 {
        Seq::empty()
    } else if offered(all, part.last(), stable, constraint) {
        offered_among(all, part.drop_last(), stable, constraint).push(part.last().version@)
    } else {
        offered_among(all, part.drop_last(), stable, constraint)
    }
}

/// The version texts of the releases that may be offered, in the order of
/// `releases`.
pub open spec fn offered_versions(
    releases: Seq<Release>,
    stable: bool,
    constraint: Option<Seq<char>>,
) -> Seq<Seq<char>> {
    offered_among(releases, releases, stable, constraint)
}

/// Some release of `part` with version `v` may be offered from the index
/// `all`.
pub open spec fn offered_in(
    all: Seq<Release>,
    part: Seq<Release>,
    v: Seq<char>,
    stable: bool,
    constraint: Option<Seq<char>>,
) -> bool {
    exists|i: int|
        0 <= i < part.len() && (#[trigger] part[i]).version@ == v && offered(
            all,
            part[i],
            stable,
            constraint,
        )
}

/// Some release with version `v` may be offered.
pub open spec fn offered_by_some(
    releases: Seq<Release>,
    v: Seq<char>,
    stable: bool,
    constraint: Option<Seq<char>>,
) -> bool {
    offered_in(releases, releases, v, stable, constraint)
}

/// The texts of a list of versions.
pub open spec fn version_texts(v: Seq<Version>) -> Seq<Seq<char>> {
    Seq::new(v.len(), |i: int| v[i]@)
}

/// Every text is a version.
pub open spec fn all_versions(s: Seq<Seq<char>>) -> bool {
    forall|i: int| 0 <= i < s.len() ==> pep440_version(#[trigger] s[i])
}

/// Each version is at most every later one.
pub open spec fn rising(s: Seq<Seq<char>>) -> bool {
    forall|i: int, j: int| 0 <= i < j < s.len() ==> pep440_le(#[trigger] s[i], #[trigger] s[j])
}

/// The view of a constraint that may be absent.
pub open spec fn constraint_text(constraint: Option<&VersionSpecifier>) -> Option<Seq<char>> {
    match constraint {
        Some(c) => Some(c@),
        None => None,
    }
}

/// Whether the mark withdraws its file.
pub fn is_yanked(yanked: &Option<Yanked>) -> (r: bool)
    ensures
        r == mark_yanks(*yanked),
{
    match yanked {
        None => false,
        Some(Yanked::Reason(_)) => true,
        Some(Yanked::Bool(b)) => *b,
    }
}

/// Whether any file of the release was withdrawn.
pub fn is_release_yanked(release: &Release) -> (r: bool)
    ensures
        r == release_yanked(*release),
{
    let mut i: usize = 0;
    while i < release.files.len()
        invariant
            i <= release.files.len(),
            forall|j: int| 0 <= j < i ==> !mark_yanks(#[trigger] release.files@[j].yanked),
        decreases release.files.len() - i,
    {
        if is_yanked(&release.files[i].yanked) {
            return true;
        }
        i += 1;
    }
    false
}

/// The versions that are withdrawn: those of which some release has a
/// withdrawn file.
pub fn yanked_versions(releases: &Vec<Release>) -> (out: NameSet)
    ensures
        forall|v: Seq<char>| out.members().contains(v) <==> #[trigger] version_yanked(releases@, v),
{
    let mut out = NameSet::new();
    let mut i: usize = 0;
    assert(out.members() =~= Set::<Seq<char>>::empty());
    while i < releases.len()
        invariant
            i <= releases.len(),
            forall|v: Seq<char>|
                out.members().contains(v) <==> #[trigger] version_yanked(
                    releases@.take(i as int),
                    v,
                ),
        decreases releases.len() - i,
    {
        let release = &releases[i];
        let ghost before = out.members();
        let gone = is_release_yanked(release);
        if gone {
            let _ = out.insert(release.version.to_string());
        }
        proof {
            let head = releases@.take(i as int);
            let next = releases@.take(i + 1);
            assert forall|v: Seq<char>| out.members().contains(v) <==> #[trigger] version_yanked(
                next,
                v,
            ) by {
                if version_yanked(next, v) {
                    let j = choose|j: int|
                        0 <= j < next.len() && (#[trigger] next[j]).version@ == v
                            && release_yanked(next[j]);
                    if j < i {
                        assert(head[j] == next[j]);
                        assert(version_yanked(head, v));
                    } else {
                        assert(next[j] == releases@[i as int]);
                    }
                }
                if before.contains(v) {
                    assert(version_yanked(head, v));
                    let j = choose|j: int|
                        0 <= j < head.len() && (#[trigger] head[j]).version@ == v
                            && release_yanked(head[j]);
                    assert(next[j] == head[j]);
                }
                if gone && v == release.version@ {
                    assert(next[i as int] == releases@[i as int]);
                    assert(release_yanked(next[i as int]));
                }
            }
        }
        i += 1;
    }
    assert(releases@.take(i as int) == releases@);
    out
}

/// The versions of the releases whose version is not withdrawn, in the order
/// of `releases`.
pub fn find_non_yanked_versions(releases: &Vec<Release>) -> (out: Vec<Version>)
    ensures
        version_texts(out@) == offered_versions(releases@, false, None),
{
    select(releases, false, None)
}

/// The versions that may be offered, in the order of `releases`.
fn select(releases: &Vec<Release>, stable: bool, constraint: Option<&VersionSpecifier>) -> (out:
    Vec<Version>)
    ensures
        version_texts(out@) == offered_versions(releases@, stable, constraint_text(constraint)),
{
    let yanked = yanked_versions(releases);
    let mut out: Vec<Version> = Vec::new();
    let mut i: usize = 0;
    let ghost want = constraint_text(constraint);
    assert(version_texts(out@) =~= offered_among(releases@, releases@.take(0), stable, want));
    while i < releases.len()
        invariant
            i <= releases.len(),
            want == constraint_text(constraint),
            forall|v: Seq<char>|
                yanked.members().contains(v) <==> #[trigger] version_yanked(releases@, v),
            version_texts(out@) == offered_among(
                releases@,
                releases@.take(i as int),
                stable,
                want,
            ),
        decreases releases.len() - i,
    {
        let release = &releases[i];
        proof {
            let next = releases@.take(i + 1);
            assert(next.drop_last() == releases@.take(i as int));
            assert(next.last() == releases@[i as int]);
        }
        let mut keep = !yanked.contains(release.version.as_str());
        if keep && stable {
            keep = !release.version.any_prerelease();
        }
        if keep {
            match constraint {
                Some(c) => {
                    keep = c.contains(&release.version);
                },
                None => {},
            }
        }
        if keep {
            let ghost before = version_texts(out@);
            out.push(release.version.clone());
            assert(version_texts(out@) =~= before.push(release.version@));
        }
        i += 1;
    }
    assert(releases@.take(i as int) == releases@);
    out
}

/// The first place of `list` whose version `v` is at most; the length of
/// `list` if there is none.
fn place_for(list: &Vec<Version>, v: &Version) -> (at: usize)
    requires
        all_versions(version_texts(list@)),
    ensures
        at <= list.len(),
        pep440_version(v@),
        forall|j: int| 0 <= j < at ==> pep440_le(#[trigger] version_texts(list@)[j], v@),
        at < list.len() ==> pep440_le(v@, version_texts(list@)[at as int]),
        at < list.len() ==> forall|c: Seq<char>|
            pep440_version(c) && #[trigger] pep440_le(version_texts(list@)[at as int], c)
                ==> pep440_le(v@, c),
{
    proof {
        use_type_invariant(v);
    }
    let mut i: usize = 0;
    while i < list.len()
        invariant
            i <= list.len(),
            pep440_version(v@),
            forall|j: int| 0 <= j < i ==> pep440_le(#[trigger] version_texts(list@)[j], v@),
        decreases list.len() - i,
    {
        if v.le(&list[i]) {
            return i;
        }
        i += 1;
    }
    i
}

/// Puts `v` into the rising list `out`, behind the versions that are at most
/// `v` and before the first that is above it.
fn insert_rising(out: &mut Vec<Version>, v: Version)
    requires
        rising(version_texts(old(out)@)),
        all_versions(version_texts(old(out)@)),
    ensures
        rising(version_texts(final(out)@)),
        all_versions(version_texts(final(out)@)),
        version_texts(final(out)@).to_multiset() == version_texts(old(out)@).to_multiset().insert(
            v@,
        ),
{
    let ghost before = version_texts(out@);
    let ghost key = v@;
    let at = place_for(out, &v);
    proof {
        let after = before.insert(at as int, key);
        assert(rising(after)) by {
            assert forall|x: int, y: int| 0 <= x < y < after.len() implies pep440_le(
                #[trigger] after[x],
                #[trigger] after[y],
            ) by {
                if y < at {
                    assert(pep440_le(before[x], before[y]));
                } else if y == at {
                    assert(pep440_le(before[x], key));
                } else if x < at {
                    assert(pep440_le(before[x], before[y - 1]));
                } else if x == at {
                    lift_above(before, key, at as int, y - 1);
                } else {
                    assert(pep440_le(before[x - 1], before[y - 1]));
                }
            }
        }
        assert(version_texts(out@.insert(at as int, v)) =~= after);
        before.to_multiset_ensures();
        multiset_of_insert(before, at as int, key);
    }
    out.insert(at, v);
}

/// A key that is at most the version at place `at` of a rising list is at most
/// every later one.
proof fn lift_above(s: Seq<Seq<char>>, key: Seq<char>, at: int, y: int)
    requires
        rising(s),
        0 <= at <= y < s.len(),
        pep440_le(key, s[at]),
        pep440_version(s[y]),
        forall|c: Seq<char>| pep440_version(c) && #[trigger] pep440_le(s[at], c) ==> pep440_le(key, c),
    ensures
        pep440_le(key, s[y]),
{
    if at < y {
        assert(pep440_le(s[at], s[y]));
    }
}

/// The versions offered from a part of the index are those of the releases
/// of that part that may be offered.
pub proof fn offered_among_are_offered(
    all: Seq<Release>,
    part: Seq<Release>,
    stable: bool,
    constraint: Option<Seq<char>>,
)
    ensures
        forall|v: Seq<char>| #[trigger]
            offered_among(all, part, stable, constraint).contains(v) <==> offered_in(
                all,
                part,
                v,
                stable,
                constraint,
            ),
    decreases part.len(),
{
    let kept = offered_among(all, part, stable, constraint);
    if part.len() > 0 {
        let rest = part.drop_last();
        let last = part.last();
        let sub = offered_among(all, rest, stable, constraint);
        offered_among_are_offered(all, rest, stable, constraint);
        assert forall|v: Seq<char>| #[trigger] kept.contains(v) <==> offered_in(
            all,
            part,
            v,
            stable,
            constraint,
        ) by {
            if kept.contains(v) {
                let k = choose|k: int| 0 <= k < kept.len() && kept[k] == v;
                if offered(all, last, stable, constraint) && k == kept.len() - 1 {
                    assert(part[part.len() - 1].version@ == v);
                } else {
                    assert(sub[k] == v);
                    assert(sub.contains(v));
                    assert(offered_in(all, rest, v, stable, constraint));
                    let i = choose|i: int|
                        0 <= i < rest.len() && (#[trigger] rest[i]).version@ == v && offered(
                            all,
                            rest[i],
                            stable,
                            constraint,
                        );
                    assert(part[i].version@ == v);
                }
            }
            if offered_in(all, part, v, stable, constraint) {
                let i = choose|i: int|
                    0 <= i < part.len() && (#[trigger] part[i]).version@ == v && offered(
                        all,
                        part[i],
                        stable,
                        constraint,
                    );
                if i == part.len() - 1 {
                    assert(kept[kept.len() - 1] == v);
                } else {
                    assert(rest[i].version@ == v);
                    assert(offered_in(all, rest, v, stable, constraint));
                    assert(sub.contains(v));
                    let k = choose|k: int| 0 <= k < sub.len() && sub[k] == v;
                    assert(kept[k] == v);
                }
            }
        }
    }
}

/// Every version that may be offered is the version of a release whose
/// version is not withdrawn, that is no pre-release where only stable
/// versions are wanted, and that the constraint admits where there is one;
/// and the version of every such release may be offered.
pub proof fn offered_versions_are_offered(
    releases: Seq<Release>,
    stable: bool,
    constraint: Option<Seq<char>>,
)
    ensures
        forall|v: Seq<char>| #[trigger]
            offered_versions(releases, stable, constraint).contains(v) <==> offered_by_some(
                releases,
                v,
                stable,
                constraint,
            ),
{
    offered_among_are_offered(releases, releases, stable, constraint);
}

/// A version of which any release has a withdrawn file is not offered,
/// however often the version is listed.
pub proof fn yanked_versions_are_not_offered(
    releases: Seq<Release>,
    stable: bool,
    constraint: Option<Seq<char>>,
    v: Seq<char>,
)
    requires
        version_yanked(releases, v),
    ensures
        !offered_versions(releases, stable, constraint).contains(v),
{
    offered_versions_are_offered(releases, stable, constraint);
}

/// Inserting into a list adds one occurrence to what it holds.
pub proof fn multiset_of_insert(s: Seq<Seq<char>>, at: int, x: Seq<char>)
    requires
        0 <= at <= s.len(),
    ensures
        s.insert(at, x).to_multiset() == s.to_multiset().insert(x),
{
    let t = s.insert(at, x);
    assert(t.remove(at) =~= s);
    t.to_multiset_ensures();
    assert(t.remove(at).to_multiset() =~= t.to_multiset().remove(t[at]));
    assert(t.to_multiset().count(x) > 0) by {
        assert(t.contains(x)) by {
            assert(t[at] == x);
        }
    }
    assert(t.to_multiset() =~= s.to_multiset().insert(x));
}

/// The versions that may be offered, lowest first.
///
/// A version is left out if any file of any of its releases was withdrawn,
/// if it is a pre-release and `stable` is set, or if `constraint` does not
/// admit it. A version that the index lists twice is offered twice.
pub fn get_versions_for_packagename(
    releases: &Vec<Release>,
    stable: bool,
    constraint: Option<&VersionSpecifier>,
) -> (out: Vec<Version>)
    ensures
        rising(version_texts(out@)),
        version_texts(out@).to_multiset() == offered_versions(
            releases@,
            stable,
            constraint_text(constraint),
        ).to_multiset(),
        forall|k: int|
            0 <= k < out@.len() ==> offered_by_some(
                releases@,
                (#[trigger] out@[k])@,
                stable,
                constraint_text(constraint),
            ),
        forall|k: int| 0 <= k < out@.len() ==> !version_yanked(releases@, (#[trigger] out@[k])@),
        stable ==> forall|k: int| 0 <= k < out@.len() ==> !pep440_prerelease((#[trigger] out@[k])@),
        constraint is Some ==> forall|k: int|
            0 <= k < out@.len() ==> pep440_contains(constraint->0@, (#[trigger] out@[k])@),
{
    let chosen = select(releases, stable, constraint);
    let mut out: Vec<Version> = Vec::new();
    let mut i: usize = 0;
    assert(version_texts(out@) =~= version_texts(chosen@).take(0));
    while i < chosen.len()
        invariant
            i <= chosen.len(),
            rising(version_texts(out@)),
            all_versions(version_texts(out@)),
            version_texts(out@).to_multiset() == version_texts(chosen@).take(i as int).to_multiset(),
        decreases chosen.len() - i,
    {
        proof {
            let next = version_texts(chosen@).take(i + 1);
            assert(next =~= version_texts(chosen@).take(i as int).push(chosen@[i as int]@));
            version_texts(chosen@).take(i as int).to_multiset_ensures();
        }
        insert_rising(&mut out, chosen[i].clone());
        i += 1;
    }
    assert(version_texts(chosen@).take(i as int) == version_texts(chosen@));
    proof {
        let want = constraint_text(constraint);
        let all = offered_versions(releases@, stable, want);
        offered_versions_are_offered(releases@, stable, want);
        all.to_multiset_ensures();
        version_texts(out@).to_multiset_ensures();
        assert forall|k: int| 0 <= k < out@.len() implies all.contains((#[trigger] out@[k])@) by {
            assert(version_texts(out@)[k] == out@[k]@);
            assert(version_texts(out@).contains(out@[k]@));
            assert(version_texts(out@).to_multiset().count(out@[k]@) > 0);
        }
        assert forall|k: int| 0 <= k < out@.len() implies offered_by_some(
            releases@,
            (#[trigger] out@[k])@,
            stable,
            want,
        ) by {
            assert(all.contains(out@[k]@));
        }
        assert forall|k: int| 0 <= k < out@.len() implies !version_yanked(
            releases@,
            (#[trigger] out@[k])@,
        ) by {
            assert(offered_by_some(releases@, out@[k]@, stable, want));
        }
    }
    out
}

/// The highest version that may be offered, if there is one.
pub fn get_latest_version_for_packagename(
    releases: &Vec<Release>,
    stable: bool,
    constraint: Option<&VersionSpecifier>,
) -> (out: Option<Version>)
    ensures
        out is None <==> offered_versions(releases@, stable, constraint_text(constraint)).len()
            == 0,
        out is Some ==> {
            let all = offered_versions(releases@, stable, constraint_text(constraint));
            &&& all.contains(out->0@)
            &&& forall|i: int| 0 <= i < all.len() ==> #[trigger] pep440_le(all[i], out->0@) || all[i] == out->0@
        },
{
    let mut versions = get_versions_for_packagename(releases, stable, constraint);
    let ghost all = offered_versions(releases@, stable, constraint_text(constraint));
    let ghost sorted = version_texts(versions@);
    proof {
        all.to_multiset_ensures();
        sorted.to_multiset_ensures();
    }
    let n = versions.len();
    if n == 0 {
        return None;
    }
    let last = versions.pop();
    match last {
        Some(v) => {
            proof {
                assert(sorted[n - 1] == v@);
                assert(sorted.contains(v@));
                assert(all.to_multiset().count(v@) > 0);
                assert forall|i: int| 0 <= i < all.len() implies #[trigger] pep440_le(all[i], v@)
                    || all[i] == v@ by {
                    assert(all.contains(all[i]));
                    assert(sorted.to_multiset().count(all[i]) > 0);
                    assert(sorted.contains(all[i]));
                    let k = choose|k: int| 0 <= k < sorted.len() && sorted[k] == all[i];
                    if k < n - 1 {
                        assert(pep440_le(sorted[k], sorted[n - 1]));
                    }
                }
            }
            Some(v)
        },
        None => None,
    }
}

} // verus!
