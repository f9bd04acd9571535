//! A set of names, kept in the order of `str` so that equal contents always
//! read, print and store alike.

use vstd::prelude::*;
use crate::text::{copy_strings, lex_lt, lex_lt_asymmetric, lex_lt_irreflexive, lex_lt_transitive, rank_text, texts, Rank};

verus! {

/// Each item is strictly before the next one, hence before all later ones.
pub open spec fn ascending(s: Seq<Seq<char>>) -> bool {
    forall|i: int, j: int| 0 <= i < j < s.len() ==> lex_lt(#[trigger] s[i], #[trigger] s[j])
}

/// An ascending list holds nothing twice.
pub proof fn ascending_no_duplicates(s: Seq<Seq<char>>)
    requires
        ascending(s),
    ensures
        s.no_duplicates(),
{
    assert forall|i: int, j: int| 0 <= i < s.len() && 0 <= j < s.len() && i != j implies s[i]
        != s[j] by {
        if i < j {
            assert(lex_lt(s[i], s[j]));
            lex_lt_irreflexive(s[i]);
        } else {
            assert(lex_lt(s[j], s[i]));
            lex_lt_irreflexive(s[j]);
        }
    }
}

/// Two ascending lists with the same members are the same list.
pub proof fn ascending_unique(a: Seq<Seq<char>>, b: Seq<Seq<char>>)
    requires
        ascending(a),
        ascending(b),
        a.to_set() == b.to_set(),
    ensures
        a == b,
    decreases a.len(),
{
    if a.len() == 0 {
        if b.len() > 0 {
            assert(b.contains(b[0]));
            assert(b.to_set().contains(b[0]));
            assert(a.contains(b[0]));
        }
        assert(a =~= b);
    } else {
        assert(a.contains(a[0]));
        assert(a.to_set().contains(a[0]));
        assert(b.contains(a[0]));
        assert(b.len() > 0);
        assert(b.contains(b[0]));
        assert(b.to_set().contains(b[0]));
        assert(a.contains(b[0]));
        let i = choose|i: int| 0 <= i < b.len() && b[i] == a[0];
        let j = choose|j: int| 0 <= j < a.len() && a[j] == b[0];
        if i > 0 {
            assert(lex_lt(b[0], b[i]));
            if j > 0 {
                assert(lex_lt(a[0], a[j]));
                lex_lt_asymmetric(a[0], a[j]);
            }
            lex_lt_irreflexive(a[0]);
        }
        assert(a[0] == b[0]);
        let ra = a.drop_first();
        let rb = b.drop_first();
        assert(ascending(ra)) by {
            assert forall|x: int, y: int| 0 <= x < y < ra.len() implies lex_lt(
                #[trigger] ra[x],
                #[trigger] ra[y],
            ) by {
                assert(lex_lt(a[x + 1], a[y + 1]));
            }
        }
        assert(ascending(rb)) by {
            assert forall|x: int, y: int| 0 <= x < y < rb.len() implies lex_lt(
                #[trigger] rb[x],
                #[trigger] rb[y],
            ) by {
                assert(lex_lt(b[x + 1], b[y + 1]));
            }
        }
        assert(ra.to_set() =~= rb.to_set()) by {
            assert forall|v: Seq<char>| ra.contains(v) <==> rb.contains(v) by {
                if ra.contains(v) {
                    let k = choose|k: int| 0 <= k < ra.len() && ra[k] == v;
                    assert(a[k + 1] == v);
                    assert(lex_lt(a[0], a[k + 1]));
                    assert(a.contains(v));
                    assert(a.to_set().contains(v));
                    assert(b.contains(v));
                    let m = choose|m: int| 0 <= m < b.len() && b[m] == v;
                    if m == 0 {
                        lex_lt_irreflexive(v);
                    }
                    assert(rb[m - 1] == v);
                }
                if rb.contains(v) {
                    let k = choose|k: int| 0 <= k < rb.len() && rb[k] == v;
                    assert(b[k + 1] == v);
                    assert(lex_lt(b[0], b[k + 1]));
                    assert(b.contains(v));
                    assert(b.to_set().contains(v));
                    assert(a.contains(v));
                    let m = choose|m: int| 0 <= m < a.len() && a[m] == v;
                    if m == 0 {
                        lex_lt_irreflexive(v);
                    }
                    assert(ra[m - 1] == v);
                }
            }
        }
        ascending_unique(ra, rb);
        assert(a =~= seq![a[0]] + ra);
        assert(b =~= seq![b[0]] + rb);
    }
}

/// A set of names. Its view is the list of its members in ascending order.
#[derive(Debug, PartialEq, Eq)]
pub struct NameSet {
    items: Vec<String>,
}

impl View for NameSet {
    type V = Seq<Seq<char>>;

    closed spec fn view(&self) -> Seq<Seq<char>> {
        texts(self.items@)
    }
}

impl NameSet {
    #[verifier::type_invariant]
    pub(crate) open spec fn ordered(self) -> bool {
        ascending(self@)
    }

    /// The members, as a set.
    pub open spec fn members(&self) -> Set<Seq<char>> {
        self@.to_set()
    }

    /// The empty set.
    pub fn new() -> (out: Self)
        ensures
            out@ == Seq::<Seq<char>>::empty(),
    {
        let out = NameSet { items: Vec::new() };
        assert(out@ =~= Seq::<Seq<char>>::empty());
        out
    }

    /// Number of members. The view of a set is always ascending.
    pub fn len(&self) -> (n: usize)
        ensures
            n == self@.len(),
            ascending(self@),
    {
        proof {
            use_type_invariant(self);
        }
        self.items.len()
    }

    /// Whether the set has no member.
    pub fn is_empty(&self) -> (r: bool)
        ensures
            r == (self@.len() == 0),
    {
        self.items.len() == 0
    }

    /// The member at place `i` of the ascending order.
    pub fn get(&self, i: usize) -> (name: &String)
        requires
            i < self@.len(),
        ensures
            name@ == self@[i as int],
    {
        &self.items[i]
    }

    /// The first place whose member is not before `name`.
    fn lower_bound(&self, name: &str) -> (r: (usize, bool))
        ensures
            r.0 <= self@.len(),
            forall|j: int| 0 <= j < r.0 ==> lex_lt(#[trigger] self@[j], name@),
            r.1 ==> r.0 < self@.len() && self@[r.0 as int] == name@,
            !r.1 ==> (r.0 == self@.len() || lex_lt(name@, self@[r.0 as int])),
            r.1 == self@.contains(name@),
            ascending(self@),
    {
        proof {
            use_type_invariant(self);
        }
        let mut i: usize = 0;
        while i < self.items.len()
            invariant
                i <= self.items.len(),
                ascending(self@),
                self@ == texts(self.items@),
                forall|j: int| 0 <= j < i ==> lex_lt(#[trigger] self@[j], name@),
            decreases self.items.len() - i,
        {
            let r = rank_text(self.items[i].as_str(), name);
            match r {
                Rank::Before => {
                    i += 1;
                },
                Rank::Same => {
                    assert(self@[i as int] == name@);
                    return (i, true);
                },
                Rank::After => {
                    proof {
                        self.absent_at(name@, i as int);
                    }
                    return (i, false);
                },
            }
        }
        proof {
            self.absent_at(name@, i as int);
        }
        (i, false)
    }

    /// A name that all members below `i` are before, and that is before the
    /// member at `i` if there is one, is no member.
    proof fn absent_at(&self, name: Seq<char>, i: int)
        requires
            ascending(self@),
            0 <= i <= self@.len(),
            forall|j: int| 0 <= j < i ==> lex_lt(#[trigger] self@[j], name),
            i < self@.len() ==> lex_lt(name, self@[i]),
        ensures
            !self@.contains(name),
    {
        let s = self@;
        if s.contains(name) {
            let k = choose|k: int| 0 <= k < s.len() && s[k] == name;
            if k < i {
                lex_lt_irreflexive(name);
            } else if k == i {
                lex_lt_irreflexive(name);
            } else {
                assert(lex_lt(s[i], s[k]));
                lex_lt_asymmetric(s[i], s[k]);
            }
        }
    }

    /// The place of `name` in the ascending order, if it is a member.
    pub fn position(&self, name: &str) -> (r: Option<usize>)
        ensures
            r is Some <==> self@.contains(name@),
            r is Some ==> r->0 < self@.len() && self@[r->0 as int] == name@,
    {
        let r = self.lower_bound(name);
        if r.1 {
            Some(r.0)
        } else {
            None
        }
    }

    /// Whether `name` is a member.
    pub fn contains(&self, name: &str) -> (r: bool)
        ensures
            r == self.members().contains(name@),
    {
        let r = self.lower_bound(name);
        r.1
    }

    /// Adds `name`; says whether it was new.
    pub fn insert(&mut self, name: String) -> (fresh: bool)
        ensures
            final(self).members() == old(self).members().insert(name@),
            fresh == !old(self).members().contains(name@),
            !fresh ==> final(self)@ == old(self)@,
    {
        let r = self.insert_at(name);
        r.1
    }

    /// Adds `name`; gives its place in the ascending order and says whether it
    /// was new.
    pub fn insert_at(&mut self, name: String) -> (r: (usize, bool))
        ensures
            final(self).members() == old(self).members().insert(name@),
            r.1 == !old(self).members().contains(name@),
            r.0 <= old(self)@.len(),
            r.1 ==> final(self)@ == old(self)@.insert(r.0 as int, name@),
            !r.1 ==> final(self)@ == old(self)@ && r.0 < old(self)@.len() && old(self)@[r.0 as int]
                == name@,
    {
        let r = self.lower_bound(name.as_str());
        if r.1 {
            assert(self.members() =~= self.members().insert(name@));
            return (r.0, false);
        }
        let ghost before = self@;
        let ghost key = name@;
        let at = r.0;
        proof {
            let after = before.insert(at as int, key);
            assert(ascending(after)) by {
                assert forall|i: int, j: int| 0 <= i < j < after.len() implies lex_lt(
                    #[trigger] after[i],
                    #[trigger] after[j],
                ) by {
                    if j < at {
                        assert(lex_lt(before[i], before[j]));
                    } else if j == at {
                        assert(lex_lt(before[i], key));
                    } else if i < at {
                        assert(lex_lt(before[i], before[j - 1]));
                    } else if i == at {
                        if j - 1 > at {
                            assert(lex_lt(before[at as int], before[j - 1]));
                            lex_lt_transitive(key, before[at as int], before[j - 1]);
                        }
                    } else {
                        assert(lex_lt(before[i - 1], before[j - 1]));
                    }
                }
            }
            assert(texts(self.items@.insert(at as int, name)) =~= after);
            assert(after.to_set() =~= before.to_set().insert(key)) by {
                assert forall|v: Seq<char>| after.contains(v) <==> (before.contains(v) || v
                    == key) by {
                    if after.contains(v) {
                        let k = choose|k: int| 0 <= k < after.len() && after[k] == v;
                        if k < at {
                            assert(before[k] == v);
                        } else if k > at {
                            assert(before[k - 1] == v);
                        }
                    }
                    if before.contains(v) {
                        let k = choose|k: int| 0 <= k < before.len() && before[k] == v;
                        if k < at {
                            assert(after[k] == v);
                        } else {
                            assert(after[k + 1] == v);
                        }
                    }
                    if v == key {
                        assert(after[at as int] == v);
                    }
                }
            }
        }
        let mut items: Vec<String> = Vec::new();
        std::mem::swap(&mut items, &mut self.items);
        items.insert(at, name);
        self.items = items;
        (at, true)
    }

    /// Takes `name` out; says whether it was a member.
    pub fn remove(&mut self, name: &str) -> (was: bool)
        ensures
            final(self).members() == old(self).members().remove(name@),
            was == old(self).members().contains(name@),
            !was ==> final(self)@ == old(self)@,
    {
        let r = self.lower_bound(name);
        if !r.1 {
            assert(self.members() =~= self.members().remove(name@));
            return false;
        }
        let ghost before = self@;
        let at = r.0;
        proof {
            let after = before.remove(at as int);
            assert(ascending(after)) by {
                assert forall|i: int, j: int| 0 <= i < j < after.len() implies lex_lt(
                    #[trigger] after[i],
                    #[trigger] after[j],
                ) by {
                    let x = if i < at { i } else { i + 1 };
                    let y = if j < at { j } else { j + 1 };
                    assert(lex_lt(before[x], before[y]));
                }
            }
            assert(texts(self.items@.remove(at as int)) =~= after);
            assert(after.to_set() =~= before.to_set().remove(name@)) by {
                assert forall|v: Seq<char>| after.contains(v) <==> (before.contains(v) && v
                    != name@) by {
                    if after.contains(v) {
                        let k = choose|k: int| 0 <= k < after.len() && after[k] == v;
                        let x = if k < at { k } else { k + 1 };
                        assert(before[x] == v);
                        if x < at {
                            assert(lex_lt(before[x], before[at as int]));
                            lex_lt_irreflexive(v);
                        } else {
                            assert(lex_lt(before[at as int], before[x]));
                            lex_lt_irreflexive(v);
                        }
                    }
                    if before.contains(v) && v != name@ {
                        let k = choose|k: int| 0 <= k < before.len() && before[k] == v;
                        if k < at {
                            assert(after[k] == v);
                        } else {
                            assert(after[k - 1] == v);
                        }
                    }
                }
            }
        }
        let mut items: Vec<String> = Vec::new();
        std::mem::swap(&mut items, &mut self.items);
        let _ = items.remove(at);
        self.items = items;
        true
    }

    /// Adds every item of `names`.
    pub fn extend(&mut self, names: &Vec<String>)
        ensures
            final(self).members() == old(self).members().union(texts(names@).to_set()),
    {
        let mut i: usize = 0;
        while i < names.len()
            invariant
                i <= names.len(),
                self.members() == old(self).members().union(texts(names@).take(i as int).to_set()),
            decreases names.len() - i,
        {
            let ghost so_far = texts(names@).take(i as int);
            let ghost next = texts(names@).take(i + 1);
            proof {
                assert(next =~= so_far.push(names@[i as int]@));
                assert(next.to_set() =~= so_far.to_set().insert(names@[i as int]@)) by {
                    assert forall|v: Seq<char>| next.contains(v) <==> (so_far.contains(v) || v
                        == names@[i as int]@) by {
                        if next.contains(v) {
                            let k = choose|k: int| 0 <= k < next.len() && next[k] == v;
                            if k < i {
                                assert(so_far[k] == v);
                            }
                        }
                        if so_far.contains(v) {
                            let k = choose|k: int| 0 <= k < so_far.len() && so_far[k] == v;
                            assert(next[k] == v);
                        }
                        if v == names@[i as int]@ {
                            assert(next[i as int] == v);
                        }
                    }
                }
            }
            let _ = self.insert(names[i].clone());
            assert(self.members() =~= old(self).members().union(next.to_set()));
            i += 1;
        }
        assert(texts(names@).take(i as int) == texts(names@));
    }

    /// Takes out every item of `names`.
    pub fn remove_all(&mut self, names: &Vec<String>)
        ensures
            final(self).members() == old(self).members().difference(texts(names@).to_set()),
    {
        let mut i: usize = 0;
        assert(texts(names@).take(0).to_set() =~= Set::<Seq<char>>::empty());
        assert(self.members() =~= old(self).members().difference(
            texts(names@).take(0).to_set(),
        ));
        while i < names.len()
            invariant
                i <= names.len(),
                self.members() == old(self).members().difference(
                    texts(names@).take(i as int).to_set(),
                ),
            decreases names.len() - i,
        {
            let ghost so_far = texts(names@).take(i as int);
            let ghost next = texts(names@).take(i + 1);
            proof {
                assert(next =~= so_far.push(names@[i as int]@));
                assert(next.to_set() =~= so_far.to_set().insert(names@[i as int]@)) by {
                    assert forall|v: Seq<char>| next.contains(v) <==> (so_far.contains(v) || v
                        == names@[i as int]@) by {
                        if next.contains(v) {
                            let k = choose|k: int| 0 <= k < next.len() && next[k] == v;
                            if k < i {
                                assert(so_far[k] == v);
                            }
                        }
                        if so_far.contains(v) {
                            let k = choose|k: int| 0 <= k < so_far.len() && so_far[k] == v;
                            assert(next[k] == v);
                        }
                        if v == names@[i as int]@ {
                            assert(next[i as int] == v);
                        }
                    }
                }
            }
            let _ = self.remove(names[i].as_str());
            assert(self.members() =~= old(self).members().difference(next.to_set()));
            i += 1;
        }
        assert(texts(names@).take(i as int) == texts(names@));
    }

    /// The set that holds the items of `names`.
    pub fn from_vec(names: &Vec<String>) -> (out: Self)
        ensures
            out.members() == texts(names@).to_set(),
    {
        let mut out = NameSet::new();
        assert(out.members() =~= Set::<Seq<char>>::empty());
        out.extend(names);
        assert(out.members() =~= texts(names@).to_set());
        out
    }

    /// The members in ascending order.
    pub fn to_vec(&self) -> (out: Vec<String>)
        ensures
            texts(out@) == self@,
            ascending(texts(out@)),
    {
        proof {
            use_type_invariant(self);
        }
        copy_strings(&self.items)
    }

    /// A copy of the set.
    pub fn duplicate(&self) -> (out: Self)
        ensures
            out@ == self@,
    {
        proof {
            use_type_invariant(self);
        }
        NameSet { items: copy_strings(&self.items) }
    }
}

impl Clone for NameSet {
    fn clone(&self) -> (out: Self)
        ensures
            out@ == self@,
    {
        self.duplicate()
    }
}

impl Default for NameSet {
    fn default() -> (out: Self)
        ensures
            out@ == Seq::<Seq<char>>::empty(),
    {
        NameSet::new()
    }
}

} // verus!
