//! Path strings, modelled as sequences of characters separated by `/`.
//!
//! The build output paths handled here are plain strings; the directory of a
//! path is everything before its last `/`, and the file name everything after
//! it.

use vstd::prelude::*;

verus! {

/// A directory path and a file name joined with a `/` separator.
///
/// An empty directory path stands for the current directory, so the name
/// alone is the result; a directory that already ends in `/` (the root) gets
/// no second separator.
pub open spec fn spec_join_path(dir: Seq<char>, name: Seq<char>) -> Seq<char> {
    if dir.len() == 0 {
        name
    } else if dir.last() == '/' {
        dir + name
    } else {
        dir + seq!['/'] + name
    }
}

/// The position of the last occurrence of `c` in `s`, if any.
pub open spec fn spec_rfind(s: Seq<char>, c: char) -> Option<int>
    decreases s.len(),
{
    if s.len() == 0 {
        None
    } else if s.last() == c {
        Some(s.len() - 1)
    } else {
        spec_rfind(s.drop_last(), c)
    }
}

/// The directory part of a path: everything before the last `/`, and the
/// root `/` itself for a path directly under the root.
///
/// A path without a `/` has no directory part.
pub open spec fn spec_parent_dir(path: Seq<char>) -> Option<Seq<char>> {
    match spec_rfind(path, '/') {
        None => None,
        Some(i) => if i == 0 {
            Some(seq!['/'])
        } else {
            Some(path.take(i))
        },
    }
}

/// The file name of a path: everything after the last `/`, or the whole
/// path when it has no `/`.
pub open spec fn spec_file_name(path: Seq<char>) -> Seq<char> {
    match spec_rfind(path, '/') {
        None => path,
        Some(i) => path.skip(i + 1),
    }
}

/// The file name with its extension removed: the part of the file name
/// before its last `.`, the whole name when it has no `.` or when the only
/// `.` is its first character, and nothing when the file name is empty.
pub open spec fn spec_file_stem(path: Seq<char>) -> Option<Seq<char>> {
    let name = spec_file_name(path);
    if name.len() == 0 {
        None
    } else {
        match spec_rfind(name, '.') {
            None => Some(name),
            Some(i) => if i == 0 {
                Some(name)
            } else {
                Some(name.take(i))
            },
        }
    }
}

/// Executable counterpart of [`spec_join_path`].
pub fn join_path(dir: &str, name: &str) -> (r: String)
    ensures
        r@ == spec_join_path(dir@, name@),
{
    let n = dir.unicode_len();
    if n == 0 {
        name.to_owned()
    } else {
        let mut out = dir.to_owned();
        if dir.get_char(n - 1) != '/' {
            out.append("/");
        }
        out.append(name);
        proof {
            reveal_strlit("/");
            assert(out@ =~= spec_join_path(dir@, name@));
        }
        out
    }
}

/// Executable counterpart of [`spec_rfind`].
pub fn rfind_char(s: &str, c: char) -> (r: Option<usize>)
    ensures
        match r {
            None => spec_rfind(s@, c) is None,
            Some(i) => i < s@.len() && spec_rfind(s@, c) == Some(i as int),
        },
{
    let n = s.unicode_len();
    let mut remaining = n;
    proof {
        assert(s@.take(n as int) =~= s@);
    }
    while remaining > 0
        invariant
            remaining <= n,
            n == s@.len(),
            spec_rfind(s@, c) == spec_rfind(s@.take(remaining as int), c),
        decreases remaining,
    {
        let i = remaining - 1;
        let ch = s.get_char(i);
        proof {
            assert(s@.take(remaining as int).last() == s@[i as int]);
            assert(s@.take(remaining as int).drop_last() =~= s@.take(i as int));
        }
        if ch == c {
            return Some(i);
        }
        remaining = i;
    }
    proof {
        assert(s@.take(0) =~= Seq::<char>::empty());
    }
    None
}

/// Executable counterpart of [`spec_parent_dir`].
pub fn parent_dir(path: &str) -> (r: Option<String>)
    ensures
        match r {
            None => spec_parent_dir(path@) is None,
            Some(d) => spec_parent_dir(path@) == Some(d@),
        },
{
    match rfind_char(path, '/') {
        None => None,
        Some(i) => if i == 0 {
            let root = "/".to_owned();
            proof {
                reveal_strlit("/");
                assert(root@ =~= seq!['/']);
            }
            Some(root)
        } else {
            Some(path.substring_char(0, i).to_owned())
        },
    }
}

/// Executable counterpart of [`spec_file_name`].
pub fn file_name(path: &str) -> (r: String)
    ensures
        r@ == spec_file_name(path@),
{
    let n = path.unicode_len();
    match rfind_char(path, '/') {
        None => path.to_owned(),
        Some(i) => path.substring_char(i + 1, n).to_owned(),
    }
}

/// Executable counterpart of [`spec_file_stem`].
pub fn file_stem(path: &str) -> (r: Option<String>)
    ensures
        match r {
            None => spec_file_stem(path@) is None,
            Some(st) => spec_file_stem(path@) == Some(st@),
        },
{
    let name = file_name(path);
    if name.unicode_len() == 0 {
        None
    } else {
        match rfind_char(name.as_str(), '.') {
            None => Some(name),
            Some(i) => if i == 0 {
                Some(name)
            } else {
                Some(name.as_str().substring_char(0, i).to_owned())
            },
        }
    }
}

} // verus!
