//! Where things live below the user's home directory. Paths are texts with
//! `/` between their parts.

use vstd::prelude::*;
use vstd::string::*;
use crate::text::to_chars;

verus! {

/// `part` below `base`: an absolute `part` stands alone; otherwise one `/`
/// separates the two unless `base` is empty or ends with one.
pub open spec fn joined_path(base: Seq<char>, part: Seq<char>) -> Seq<char> {
    if part.len() > 0 && part[0] == '/' {
        part
    } else if base.len() == 0 || base.last() == '/' {
        base + part
    } else {
        base + "/"@ + part
    }
}

/// The directory of the launcher links: `<home>/.local/bin`.
pub open spec fn bin_dir_of(home: Seq<char>) -> Seq<char> {
    joined_path(home, ".local/bin"@)
}

/// The directory that the environments and the setup record live in:
/// `<home>/.local/uvenv`.
pub open spec fn work_dir_of(home: Seq<char>) -> Seq<char> {
    joined_path(home, ".local/uvenv"@)
}

/// The directory of the environments: `<work>/venvs`.
pub open spec fn venv_dir_of(home: Seq<char>) -> Seq<char> {
    joined_path(work_dir_of(home), "venvs"@)
}

/// The environment of the package `name`: `<work>/venvs/<name>`.
pub open spec fn venv_path_of(home: Seq<char>, name: Seq<char>) -> Seq<char> {
    joined_path(venv_dir_of(home), name)
}

/// `part` below `base`.
pub fn join_path(base: &str, part: &str) -> (out: String)
    ensures
        out@ == joined_path(base@, part@),
{
    let head = to_chars(part);
    if head.len() > 0 && head[0] == '/' {
        return String::from_str(part);
    }
    let tail = to_chars(base);
    let mut out = String::from_str(base);
    if tail.len() > 0 && tail[tail.len() - 1] != '/' {
        proof {
            reveal_strlit("/");
        }
        out.append("/");
    }
    out.append(part);
    out
}

/// The home directory used while testing: `uvenv-test` below the system's
/// directory for temporary files.
pub fn test_home_dir(temp_dir: &str) -> (out: String)
    ensures
        out@ == joined_path(temp_dir@, "uvenv-test"@),
{
    join_path(temp_dir, "uvenv-test")
}

/// The directory of the launcher links.
pub fn get_bin_dir(home: &str) -> (out: String)
    ensures
        out@ == bin_dir_of(home@),
{
    join_path(home, ".local/bin")
}

/// The work directory.
pub fn get_work_dir(home: &str) -> (out: String)
    ensures
        out@ == work_dir_of(home@),
{
    join_path(home, ".local/uvenv")
}

/// The directory of the environments.
pub fn get_venv_dir(home: &str) -> (out: String)
    ensures
        out@ == venv_dir_of(home@),
{
    let work = get_work_dir(home);
    join_path(work.as_str(), "venvs")
}

/// The environment of the package `venv_name`.
pub fn venv_path(home: &str, venv_name: &str) -> (out: String)
    ensures
        out@ == venv_path_of(home@, venv_name@),
{
    let dir = get_venv_dir(home);
    join_path(dir.as_str(), venv_name)
}

/// The record of the environment at `dirname`: `<dirname>/.metadata`.
pub fn metadata_path(dirname: &str) -> (out: String)
    ensures
        out@ == joined_path(dirname@, ".metadata"@),
{
    join_path(dirname, ".metadata")
}

/// The record of what `setup` has done: `<work>/setup.metadata`.
pub fn setup_metadata_filename(home: &str) -> (out: String)
    ensures
        out@ == joined_path(work_dir_of(home@), "setup.metadata"@),
{
    let work = get_work_dir(home);
    join_path(work.as_str(), "setup.metadata")
}

/// `path` without the slashes at its end.
pub open spec fn without_trailing_slashes(path: Seq<char>) -> Seq<char>
    decreases path.len(),
{
    if path.len() > 0 && path.last() == '/' {
        without_trailing_slashes(path.drop_last())
    } else {
        path
    }
}

/// What follows the last `/` of `path`; all of it if it holds none.
pub open spec fn after_last_slash(path: Seq<char>) -> Seq<char>
    decreases path.len(),
{
    if path.len() == 0 {
        path
    } else if path.last() == '/' {
        Seq::empty()
    } else {
        after_last_slash(path.drop_last()).push(path.last())
    }
}

/// The last part of a path: slashes at its end set aside, what follows its
/// last `/`. A directory has the same name with and without a slash behind
/// it.
pub open spec fn last_part(path: Seq<char>) -> Seq<char> {
    after_last_slash(without_trailing_slashes(path))
}

/// The last part of a path.
pub fn file_name(path: &str) -> (out: String)
    ensures
        out@ == last_part(path@),
{
    let chars = to_chars(path);
    let mut end: usize = chars.len();
    assert(chars@.take(end as int) == chars@);
    while end > 0 && chars[end - 1] == '/'
        invariant
            end <= chars.len(),
            chars@ == path@,
            without_trailing_slashes(chars@) == without_trailing_slashes(chars@.take(end as int)),
        decreases end,
    {
        proof {
            let head = chars@.take(end as int);
            assert(head.last() == '/');
            assert(head.drop_last() == chars@.take(end - 1));
        }
        end -= 1;
    }
    let ghost kept = chars@.take(end as int);
    assert(without_trailing_slashes(kept) == kept);
    let mut out = String::new();
    let mut i: usize = 0;
    assert(kept.take(0) =~= Seq::<char>::empty());
    while i < end
        invariant
            i <= end,
            end <= chars.len(),
            kept == chars@.take(end as int),
            out@ == after_last_slash(kept.take(i as int)),
        decreases end - i,
    {
        proof {
            let next = kept.take(i + 1);
            assert(next.drop_last() == kept.take(i as int));
            assert(next.last() == chars@[i as int]);
        }
        if chars[i] == '/' {
            out = String::new();
        } else {
            out.push(chars[i]);
        }
        i += 1;
    }
    assert(kept.take(i as int) == kept);
    out
}

} // verus!
