//! The launchers of one environment: each name with a flag that says whether
//! its link in the shared bin directory still points into the environment.

use vstd::prelude::*;
use crate::names::{ascending, NameSet};
use crate::text::{lex_lt, lex_lt_irreflexive, texts};

verus! {

/// The names of a list of entries.
pub open spec fn keys_of(entries: Seq<(Seq<char>, bool)>) -> Seq<Seq<char>> {
    Seq::new(entries.len(), |i: int| entries[i].0)
}

/// The flag that `entries` holds for `name`, if it holds one.
pub open spec fn state_in(entries: Seq<(Seq<char>, bool)>, name: Seq<char>) -> Option<bool> {
    if exists|i: int| 0 <= i < entries.len() && entries[i].0 == name {
        Some(entries[choose|i: int| 0 <= i < entries.len() && entries[i].0 == name].1)
    } else {
        None
    }
}

/// The names of `entries` whose flag is false, in the order of `entries`.
pub open spec fn broken_in(entries: Seq<(Seq<char>, bool)>) -> Seq<Seq<char>>
    decreases entries.len(),
{
    if entries.len() == 0 {
        Seq::empty()
    } else if entries.last().1 {
        broken_in(entries.drop_last())
    } else {
        broken_in(entries.drop_last()).push(entries.last().0)
    }
}

/// With ascending names, the flag of the entry at `i` is the flag of its name.
pub proof fn state_at(entries: Seq<(Seq<char>, bool)>, i: int)
    requires
        ascending(keys_of(entries)),
        0 <= i < entries.len(),
    ensures
        state_in(entries, entries[i].0) == Some(entries[i].1),
{
    let k = choose|k: int| 0 <= k < entries.len() && entries[k].0 == entries[i].0;
    if k < i {
        assert(lex_lt(keys_of(entries)[k], keys_of(entries)[i]));
        lex_lt_irreflexive(entries[i].0);
    } else if i < k {
        assert(lex_lt(keys_of(entries)[i], keys_of(entries)[k]));
        lex_lt_irreflexive(entries[i].0);
    }
}

/// A map from launcher names to flags. Its view lists the entries by ascending
/// name.
#[derive(Debug, PartialEq, Eq)]
pub struct ScriptMap {
    names: NameSet,
    flags: Vec<bool>,
}

impl View for ScriptMap {
    type V = Seq<(Seq<char>, bool)>;

    closed spec fn view(&self) -> Seq<(Seq<char>, bool)> {
        Seq::new(self.names@.len(), |i: int| (self.names@[i], self.flags@[i]))
    }
}

impl ScriptMap {
    #[verifier::type_invariant]
    spec fn aligned(self) -> bool {
        self.flags@.len() == self.names@.len()
    }

    /// The flag held for `name`, if any.
    pub open spec fn state_of(&self, name: Seq<char>) -> Option<bool> {
        state_in(self@, name)
    }

    /// The map without entries.
    pub fn new() -> (out: Self)
        ensures
            out@ == Seq::<(Seq<char>, bool)>::empty(),
    {
        let out = ScriptMap { names: NameSet::new(), flags: Vec::new() };
        assert(out@ =~= Seq::<(Seq<char>, bool)>::empty());
        out
    }

    /// Number of entries. The names of the view are always ascending.
    pub fn len(&self) -> (n: usize)
        ensures
            n == self@.len(),
            ascending(keys_of(self@)),
    {
        proof {
            use_type_invariant(self);
        }
        let n = self.names.len();
        assert(keys_of(self@) =~= self.names@);
        n
    }

    /// Whether there is no entry.
    pub fn is_empty(&self) -> (r: bool)
        ensures
            r == (self@.len() == 0),
    {
        self.names.is_empty()
    }

    /// The name of the entry at place `i`.
    pub fn name(&self, i: usize) -> (out: &String)
        requires
            i < self@.len(),
        ensures
            out@ == self@[i as int].0,
    {
        self.names.get(i)
    }

    /// The flag of the entry at place `i`.
    pub fn state(&self, i: usize) -> (out: bool)
        requires
            i < self@.len(),
        ensures
            out == self@[i as int].1,
    {
        proof {
            use_type_invariant(self);
        }
        self.flags[i]
    }

    /// The flag held for `name`, if any.
    pub fn get(&self, name: &str) -> (out: Option<bool>)
        ensures
            out == self.state_of(name@),
    {
        proof {
            use_type_invariant(self);
            use_type_invariant(&self.names);
            assert(keys_of(self@) =~= self.names@);
        }
        match self.names.position(name) {
            Some(i) => {
                proof {
                    state_at(self@, i as int);
                }
                Some(self.flags[i])
            },
            None => {
                proof {
                    if exists|i: int| 0 <= i < self@.len() && self@[i].0 == name@ {
                        let i = choose|i: int| 0 <= i < self@.len() && self@[i].0 == name@;
                        assert(self.names@[i] == name@);
                    }
                }
                None
            },
        }
    }

    /// Sets the flag of `name`, adding the entry if it is new.
    pub fn insert(&mut self, name: String, valid: bool)
        ensures
            final(self).state_of(name@) == Some(valid),
            forall|other: Seq<char>|
                other != name@ ==> #[trigger] final(self).state_of(other) == old(self).state_of(
                    other,
                ),
            keys_of(final(self)@).to_set() == keys_of(old(self)@).to_set().insert(name@),
    {
        proof {
            use_type_invariant(&*self);
        }
        let ghost before = self@;
        let ghost key = name@;
        let mut taken = ScriptMap::new();
        std::mem::swap(&mut taken, self);
        let ScriptMap { mut names, mut flags } = taken;
        proof {
            use_type_invariant(&names);
            assert(keys_of(before) =~= names@);
        }
        let r = names.insert_at(name);
        if r.1 {
            flags.insert(r.0, valid);
        } else {
            flags[r.0] = valid;
        }
        let ghost new_names = names@;
        proof {
            use_type_invariant(&names);
        }
        *self = ScriptMap { names, flags };
        proof {
            let after = self@;
            let at = r.0 as int;
            assert(keys_of(after) =~= new_names);
            assert(after[at] == (key, valid));
            state_at(after, at);
            assert forall|other: Seq<char>| other != key implies #[trigger] state_in(after, other)
                == state_in(before, other) by {
                if exists|i: int| 0 <= i < before.len() && before[i].0 == other {
                    let i = choose|i: int| 0 <= i < before.len() && before[i].0 == other;
                    state_at(before, i);
                    let j = if r.1 && i >= at {
                        i + 1
                    } else {
                        i
                    };
                    assert(after[j] == before[i]);
                    state_at(after, j);
                } else {
                    if exists|j: int| 0 <= j < after.len() && after[j].0 == other {
                        let j = choose|j: int| 0 <= j < after.len() && after[j].0 == other;
                        let i = if r.1 && j > at {
                            j - 1
                        } else {
                            j
                        };
                        assert(before[i].0 == other);
                    }
                }
            }
        }
    }

    /// Sets the flag of the entry at place `i`.
    pub fn set_state(&mut self, i: usize, valid: bool)
        requires
            i < old(self)@.len(),
        ensures
            final(self)@ == old(self)@.update(i as int, (old(self)@[i as int].0, valid)),
    {
        proof {
            use_type_invariant(&*self);
        }
        let mut taken = ScriptMap::new();
        std::mem::swap(&mut taken, self);
        let ScriptMap { names, mut flags } = taken;
        flags[i] = valid;
        *self = ScriptMap { names, flags };
        assert(self@ =~= old(self)@.update(i as int, (old(self)@[i as int].0, valid)));
    }

    /// The names, in ascending order.
    pub fn names(&self) -> (out: Vec<String>)
        ensures
            texts(out@) == keys_of(self@),
    {
        let out = self.names.to_vec();
        assert(keys_of(self@) =~= self.names@);
        out
    }

    /// The names whose flag is false, in ascending order.
    pub fn broken(&self) -> (out: Vec<String>)
        ensures
            texts(out@) == broken_in(self@),
    {
        proof {
            use_type_invariant(self);
        }
        let mut out: Vec<String> = Vec::new();
        let n = self.names.len();
        let mut i: usize = 0;
        assert(texts(out@) =~= broken_in(self@.take(0)));
        while i < n
            invariant
                i <= n,
                n == self@.len(),
                self.flags@.len() == n,
                n == self.names@.len(),
                texts(out@) == broken_in(self@.take(i as int)),
            decreases n - i,
        {
            let ghost prev = texts(out@);
            proof {
                let next = self@.take(i + 1);
                assert(next.drop_last() == self@.take(i as int));
                assert(next.last() == self@[i as int]);
            }
            if !self.flags[i] {
                out.push(self.names.get(i).clone());
                assert(texts(out@) =~= prev.push(self@[i as int].0));
            }
            i += 1;
        }
        assert(self@.take(i as int) == self@);
        out
    }

    /// A copy of the map.
    pub fn duplicate(&self) -> (out: Self)
        ensures
            out@ == self@,
    {
        proof {
            use_type_invariant(self);
        }
        let mut flags: Vec<bool> = Vec::new();
        let mut i: usize = 0;
        while i < self.flags.len()
            invariant
                i <= self.flags.len(),
                flags@ == self.flags@.take(i as int),
            decreases self.flags.len() - i,
        {
            flags.push(self.flags[i]);
            assert(flags@ =~= self.flags@.take(i + 1));
            i += 1;
        }
        assert(self.flags@.take(i as int) == self.flags@);
        let out = ScriptMap { names: self.names.duplicate(), flags };
        assert(out@ =~= self@);
        out
    }
}

impl Clone for ScriptMap {
    fn clone(&self) -> (out: Self)
        ensures
            out@ == self@,
    {
        self.duplicate()
    }
}

impl Default for ScriptMap {
    fn default() -> (out: Self)
        ensures
            out@ == Seq::<(Seq<char>, bool)>::empty(),
    {
        ScriptMap::new()
    }
}

} // verus!
