//! Ensurepath: whether the bin directory is on the search path, and the
//! lines that put it there.

use vstd::prelude::*;
use vstd::string::*;
use crate::text::to_chars;

verus! {

/// What `ensurepath` does.
#[derive(Debug, Clone, PartialEq, Eq)]
pub enum EnsurePath {
    /// The directory is on the search path already: only a warning is due.
    AlreadyThere,
    /// Append this line to the shell's start file.
    Add { line: String },
}

/// The entries of a search path: the texts between its colons.
pub open spec fn path_entries(path: Seq<char>) -> Seq<Seq<char>>
    decreases path.len(),
{
    if path.len() == 0 {
        seq![Seq::empty()]
    } else if path.last() == ':' {
        path_entries(path.drop_last()).push(Seq::empty())
    } else {
        let before = path_entries(path.drop_last());
        before.drop_last().push(before.last().push(path.last()))
    }
}

/// The line that puts `bin_dir` on the search path.
pub open spec fn export_line(bin_dir: Seq<char>) -> Seq<char> {
    "export PATH=\"$PATH:"@ + bin_dir + "\""@
}

/// What is appended to the shell's start file: an empty line, a comment with
/// the time if one is given, and the text.
pub open spec fn bashrc_block(text: Seq<char>, stamp: Option<Seq<char>>) -> Seq<char> {
    "\n"@ + (match stamp {
        Some(now) => "# Added by `uvenv` at "@ + now + "\n"@,
        None => Seq::empty(),
    }) + text + "\n"@
}

/// `k` is the place of the first `.` of `stamp`.
pub open spec fn first_dot(stamp: Seq<char>, k: int) -> bool {
    &&& 0 <= k < stamp.len()
    &&& stamp[k] == '.'
    &&& forall|j: int| 0 <= j < k ==> stamp[j] != '.'
}

/// A time stamp without its fraction: what stands before the first `.`, or
/// nothing if there is no `.`.
pub open spec fn without_fraction(stamp: Seq<char>) -> Seq<char> {
    if exists|k: int| first_dot(stamp, k) {
        stamp.take(choose|k: int| first_dot(stamp, k))
    } else {
        Seq::empty()
    }
}

/// The entries of a search path.
pub fn split_path(path: &str) -> (out: Vec<String>)
    ensures
        crate::text::texts(out@) == path_entries(path@),
{
    let chars = to_chars(path);
    let mut out: Vec<String> = Vec::new();
    let mut current = String::new();
    let mut i: usize = 0;
    assert(chars@.take(0) =~= Seq::<char>::empty());
    assert(crate::text::texts(out@).push(current@) =~= path_entries(chars@.take(0)));
    while i < chars.len()
        invariant
            i <= chars.len(),
            chars@ == path@,
            crate::text::texts(out@).push(current@) == path_entries(chars@.take(i as int)),
        decreases chars.len() - i,
    {
        let ghost done = crate::text::texts(out@);
        let ghost cur = current@;
        proof {
            let next = chars@.take(i + 1);
            assert(next.drop_last() == chars@.take(i as int));
            assert(next.last() == chars@[i as int]);
            assert(done.push(cur).drop_last() =~= done);
            assert(done.push(cur).last() == cur);
        }
        if chars[i] == ':' {
            out.push(current);
            current = String::new();
            assert(crate::text::texts(out@) =~= done.push(cur));
        } else {
            current.push(chars[i]);
        }
        i += 1;
    }
    assert(chars@.take(i as int) == chars@);
    let ghost done = crate::text::texts(out@);
    out.push(current);
    assert(crate::text::texts(out@) =~= done.push(current@));
    out
}

/// The time stamp without its fraction.
pub fn now(stamp: &str) -> (out: String)
    ensures
        out@ == without_fraction(stamp@),
{
    let chars = to_chars(stamp);
    let mut i: usize = 0;
    let mut out = String::new();
    while i < chars.len()
        invariant
            i <= chars.len(),
            chars@ == stamp@,
            out@ == chars@.take(i as int),
            forall|j: int| 0 <= j < i ==> chars@[j] != '.',
        decreases chars.len() - i,
    {
        if chars[i] == '.' {
            proof {
                assert(first_dot(stamp@, i as int));
                let k = choose|k: int| first_dot(stamp@, k);
                if k < i {
                    assert(chars@[k] != '.');
                } else if k > i {
                    assert(stamp@[i as int] != '.');
                }
            }
            return out;
        }
        out.push(chars[i]);
        assert(chars@.take(i + 1) =~= chars@.take(i as int).push(chars@[i as int]));
        i += 1;
    }
    proof {
        if exists|k: int| first_dot(stamp@, k) {
            let k = choose|k: int| first_dot(stamp@, k);
            assert(chars@[k] != '.');
        }
    }
    String::new()
}

/// What is appended to the shell's start file for `text`.
pub fn add_to_bashrc(text: &str, stamp: Option<&str>) -> (out: String)
    ensures
        out@ == bashrc_block(
            text@,
            match stamp {
                Some(s) => Some(s@),
                None => None,
            },
        ),
{
    let mut comment = String::new();
    match stamp {
        Some(now) => {
            comment.append("# Added by `uvenv` at ");
            comment.append(now);
            comment.append("\n");
            assert(comment@ =~= "# Added by `uvenv` at "@ + now@ + "\n"@);
        },
        None => {},
    }
    let mut out = String::from_str("\n");
    out.append(comment.as_str());
    out.append(text);
    out.append("\n");
    out
}

/// The line that puts `bin_dir` on the search path.
pub fn ensure_path_generate(bin_dir: &str) -> (out: String)
    ensures
        out@ == export_line(bin_dir@),
{
    let mut out = String::from_str("export PATH=\"$PATH:");
    out.append(bin_dir);
    out.append("\"");
    out
}

/// What to do about the search path: nothing if `bin_dir` is an entry of it
/// already and `force` is not set; else add the line that puts it there.
pub fn ensure_path(bin_dir: &str, path: &str, force: bool) -> (out: EnsurePath)
    ensures
        !force && path_entries(path@).contains(bin_dir@) ==> out == EnsurePath::AlreadyThere,
        force || !path_entries(path@).contains(bin_dir@) ==> (out matches EnsurePath::Add { line }
            && line@ == export_line(bin_dir@)),
{
    let entries = split_path(path);
    if !force && crate::symlinks::is_listed(&entries, bin_dir) {
        EnsurePath::AlreadyThere
    } else {
        EnsurePath::Add { line: ensure_path_generate(bin_dir) }
    }
}

} // verus!
