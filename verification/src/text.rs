//! Small verified building blocks for text: views of string lists, joining,
//! prefix tests and the lexicographic order that keeps names sorted.

use vstd::prelude::*;
use vstd::string::*;

verus! {

/// The views of a list of strings, item by item.
pub open spec fn texts(v: Seq<String>) -> Seq<Seq<char>> {
    Seq::new(v.len(), |i: int| v[i]@)
}

/// `parts` written one after another with `sep` between neighbours.
pub open spec fn joined(parts: Seq<Seq<char>>, sep: Seq<char>) -> Seq<char>
    decreases parts.len(),
{
    if parts.len() == 0 {
        Seq::empty()
    } else if parts.len() == 1 {
        parts[0]
    } else {
        joined(parts.drop_last(), sep) + sep + parts.last()
    }
}

/// `a` comes strictly before `b` in the order of `str`: at the first place where
/// they differ `a` has the smaller character, or `a` is a proper prefix of `b`.
pub open spec fn lex_lt(a: Seq<char>, b: Seq<char>) -> bool {
    exists|k: int| lex_witness(a, b, k)
}

/// `k` is the place that decides `lex_lt(a, b)`.
pub open spec fn lex_witness(a: Seq<char>, b: Seq<char>, k: int) -> bool {
    &&& 0 <= k <= a.len()
    &&& k <= b.len()
    &&& a.take(k) == b.take(k)
    &&& if k == a.len() {
        k < b.len()
    } else {
        k < b.len() && a[k] < b[k]
    }
}

/// `p` is a prefix of `s`.
pub open spec fn is_prefix(p: Seq<char>, s: Seq<char>) -> bool {
    p.len() <= s.len() && s.take(p.len() as int) == p
}

/// `p` is a suffix of `s`.
pub open spec fn is_suffix(p: Seq<char>, s: Seq<char>) -> bool {
    p.len() <= s.len() && s.skip(s.len() - p.len()) == p
}

/// `s` with every `from` replaced by `to`.
pub open spec fn replaced(s: Seq<char>, from: char, to: char) -> Seq<char> {
    Seq::new(s.len(), |i: int| if s[i] == from { to } else { s[i] })
}

/// How one text stands to another in the order of `str`.
#[derive(Clone, Copy, Debug, PartialEq, Eq, Structural)]
pub enum Rank {
    Before,
    Same,
    After,
}

/// `String::push` appends one character.
pub assume_specification[ String::push ](s: &mut String, ch: char)
    ensures
        final(s)@ == old(s)@.push(ch),
;

/// No text is before itself.
pub proof fn lex_lt_irreflexive(a: Seq<char>)
    ensures
        !lex_lt(a, a),
{
}

/// The order of `str` is transitive.
pub proof fn lex_lt_transitive(a: Seq<char>, b: Seq<char>, c: Seq<char>)
    requires
        lex_lt(a, b),
        lex_lt(b, c),
    ensures
        lex_lt(a, c),
{
    let k1 = choose|k: int| lex_witness(a, b, k);
    let k2 = choose|k: int| lex_witness(b, c, k);
    let k = if k1 <= k2 { k1 } else { k2 };
    assert(a.take(k) == c.take(k)) by {
        assert(a.take(k) == a.take(k1).take(k));
        assert(b.take(k) == b.take(k1).take(k));
        assert(b.take(k) == b.take(k2).take(k));
        assert(c.take(k) == c.take(k2).take(k));
    }
    if k1 < k2 {
        assert(b.take(k2)[k1] == c.take(k2)[k1]);
    } else if k2 < k1 {
        assert(a.take(k1)[k2] == b.take(k1)[k2]);
    }
    assert(lex_witness(a, c, k));
}

/// Two texts cannot each be before the other.
pub proof fn lex_lt_asymmetric(a: Seq<char>, b: Seq<char>)
    requires
        lex_lt(a, b),
    ensures
        !lex_lt(b, a),
{
    if lex_lt(b, a) {
        lex_lt_transitive(a, b, a);
    }
}

/// The characters of `s`, in order.
pub fn to_chars(s: &str) -> (out: Vec<char>)
    ensures
        out@ == s@,
{
    let mut out: Vec<char> = Vec::new();
    for c in it: s.chars()
        invariant
            out@ == it.seq().take(it.index() as int),
            it.seq() == s@,
    {
        out.push(c);
    }
    out
}

/// Whether two texts hold the same characters.
pub fn same_text(a: &str, b: &str) -> (r: bool)
    ensures
        r == (a@ == b@),
{
    let x = a.to_owned();
    let y = b.to_owned();
    x == y
}

/// Compares two texts in the order of `str`.
pub fn rank_text(a: &str, b: &str) -> (r: Rank)
    ensures
        r == Rank::Before <==> lex_lt(a@, b@),
        r == Rank::Same <==> a@ == b@,
        r == Rank::After <==> lex_lt(b@, a@),
{
    let x = to_chars(a);
    let y = to_chars(b);
    let mut i: usize = 0;
    while i < x.len() && i < y.len()
        invariant
            x@ == a@,
            y@ == b@,
            i <= x.len(),
            i <= y.len(),
            x@.take(i as int) == y@.take(i as int),
        decreases x.len() - i,
    {
        let cx: char = x[i];
        let cy: char = y[i];
        if cx != cy {
            proof {
                if cx < cy {
                    assert(lex_witness(a@, b@, i as int));
                    lex_lt_asymmetric(a@, b@);
                } else {
                    assert(lex_witness(b@, a@, i as int));
                    lex_lt_asymmetric(b@, a@);
                }
            }
            if cx < cy {
                return Rank::Before;
            } else {
                return Rank::After;
            }
        }
        assert(x@.take(i + 1) == x@.take(i as int).push(x@[i as int]));
        assert(y@.take(i + 1) == y@.take(i as int).push(y@[i as int]));
        i += 1;
    }
    if i < y.len() {
        proof {
            assert(x@.take(i as int) == x@);
            assert(lex_witness(a@, b@, i as int));
            lex_lt_asymmetric(a@, b@);
        }
        Rank::Before
    } else if i < x.len() {
        proof {
            assert(y@.take(i as int) == y@);
            assert(lex_witness(b@, a@, i as int));
            lex_lt_asymmetric(b@, a@);
        }
        Rank::After
    } else {
        proof {
            assert(x@.take(i as int) == x@);
            assert(y@.take(i as int) == y@);
            lex_lt_irreflexive(a@);
        }
        Rank::Same
    }
}

/// Whether `s` begins with `p`.
pub fn has_prefix(s: &str, p: &str) -> (r: bool)
    ensures
        r == is_prefix(p@, s@),
{
    let x = to_chars(s);
    let y = to_chars(p);
    if y.len() > x.len() {
        return false;
    }
    let mut i: usize = 0;
    while i < y.len()
        invariant
            x@ == s@,
            y@ == p@,
            y.len() <= x.len(),
            i <= y.len(),
            x@.take(i as int) == y@.take(i as int),
        decreases y.len() - i,
    {
        if x[i] != y[i] {
            proof {
                if is_prefix(p@, s@) {
                    assert(s@.take(p@.len() as int)[i as int] == p@[i as int]);
                }
            }
            return false;
        }
        assert(x@.take(i + 1) == x@.take(i as int).push(x@[i as int]));
        assert(y@.take(i + 1) == y@.take(i as int).push(y@[i as int]));
        i += 1;
    }
    assert(y@.take(i as int) == y@);
    true
}

/// Whether `s` ends with `p`.
pub fn has_suffix(s: &str, p: &str) -> (r: bool)
    ensures
        r == is_suffix(p@, s@),
{
    let x = to_chars(s);
    let y = to_chars(p);
    if y.len() > x.len() {
        return false;
    }
    let off = x.len() - y.len();
    let mut i: usize = 0;
    while i < y.len()
        invariant
            x@ == s@,
            y@ == p@,
            y.len() <= x.len(),
            off == x.len() - y.len(),
            i <= y.len(),
            forall|j: int| 0 <= j < i ==> x@[off + j] == y@[j],
        decreases y.len() - i,
    {
        if x[off + i] != y[i] {
            proof {
                if is_suffix(p@, s@) {
                    assert(s@.skip(off as int)[i as int] == p@[i as int]);
                }
            }
            return false;
        }
        i += 1;
    }
    assert(s@.skip(off as int) =~= p@);
    true
}

/// `s` with every `from` replaced by `to`.
pub fn replace_char(s: &str, from: char, to: char) -> (out: String)
    ensures
        out@ == replaced(s@, from, to),
{
    let x = to_chars(s);
    let mut out = String::new();
    let mut i: usize = 0;
    while i < x.len()
        invariant
            x@ == s@,
            i <= x.len(),
            out@ == replaced(s@, from, to).take(i as int),
        decreases x.len() - i,
    {
        let c: char = x[i];
        if c == from {
            out.push(to);
        } else {
            out.push(c);
        }
        assert(replaced(s@, from, to).take(i + 1) == replaced(s@, from, to).take(i as int).push(
            replaced(s@, from, to)[i as int],
        ));
        i += 1;
    }
    assert(replaced(s@, from, to).take(i as int) == replaced(s@, from, to));
    out
}

/// Joins `parts` with `sep` between neighbours.
pub fn join(parts: &Vec<String>, sep: &str) -> (out: String)
    ensures
        out@ == joined(texts(parts@), sep@),
{
    let mut out = String::new();
    let mut i: usize = 0;
    while i < parts.len()
        invariant
            i <= parts.len(),
            out@ == joined(texts(parts@).take(i as int), sep@),
        decreases parts.len() - i,
    {
        proof {
            let next = texts(parts@).take(i + 1);
            assert(next.drop_last() == texts(parts@).take(i as int));
            assert(next.last() == parts@[i as int]@);
        }
        if i > 0 {
            out.append(sep);
        }
        out.append(parts[i].as_str());
        i += 1;
    }
    assert(texts(parts@).take(i as int) == texts(parts@));
    out
}

/// A copy of a list of strings.
pub fn copy_strings(v: &Vec<String>) -> (out: Vec<String>)
    ensures
        texts(out@) == texts(v@),
{
    let mut out: Vec<String> = Vec::new();
    let mut i: usize = 0;
    while i < v.len()
        invariant
            i <= v.len(),
            out@.len() == i,
            texts(out@) == texts(v@).take(i as int),
        decreases v.len() - i,
    {
        let ghost before = out@;
        out.push(v[i].clone());
        assert forall|j: int| 0 <= j < i + 1 implies texts(out@)[j] == texts(v@).take(i + 1)[j] by {
            if j < i {
                assert(texts(before)[j] == texts(v@).take(i as int)[j]);
            }
        }
        assert(texts(out@) =~= texts(v@).take(i + 1));
        i += 1;
    }
    assert(texts(v@).take(i as int) == texts(v@));
    out
}

/// Appends copies of the strings of `src` to `dst`.
pub fn append_strings(dst: &mut Vec<String>, src: &Vec<String>)
    ensures
        texts(final(dst)@) == texts(old(dst)@) + texts(src@),
{
    let ghost head = texts(dst@);
    let mut i: usize = 0;
    assert(texts(dst@) =~= head + texts(src@).take(0));
    while i < src.len()
        invariant
            i <= src.len(),
            head == texts(old(dst)@),
            dst@.len() == head.len() + i,
            texts(dst@) == head + texts(src@).take(i as int),
        decreases src.len() - i,
    {
        let ghost before = dst@;
        dst.push(src[i].clone());
        assert forall|j: int| 0 <= j < dst@.len() implies texts(dst@)[j] == (head + texts(
            src@,
        ).take(i + 1))[j] by {
            if j < before.len() {
                assert(texts(before)[j] == (head + texts(src@).take(i as int))[j]);
            }
        }
        assert(texts(dst@) =~= head + texts(src@).take(i + 1));
        i += 1;
    }
    assert(texts(src@).take(i as int) == texts(src@));
}

/// Appends a copy of `s` to `dst`.
pub fn push_text(dst: &mut Vec<String>, s: &str)
    ensures
        texts(final(dst)@) == texts(old(dst)@).push(s@),
{
    let ghost before = dst@;
    dst.push(s.to_owned());
    assert(texts(dst@) =~= texts(before).push(s@));
}

} // verus!
