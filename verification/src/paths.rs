//! Paths as text: the directory, the file name, the stem and the extension
//! of a path, and the joining of a directory and a relative path.
//!
//! Both `/` and `\` separate the parts of a path. A path is split at its
//! last separator and nowhere else; a file name is split at its last dot,
//! unless that dot is its first character.

use crate::text::chars_of;
use vstd::prelude::*;
use vstd::string::*;

verus! {

/// Whether `c` separates the parts of a path.
pub open spec fn is_separator(c: char) -> bool {
    c == '/' || c == '\\'
}

/// The position of the last character of `s` that is `a` or `b`, or -1.
pub open spec fn last_position(s: Seq<char>, a: char, b: char) -> int
    decreases s.len(),
{
    if s.len() == 0 {
        -1
    } else if s.last() == a || s.last() == b {
        s.len() - 1
    } else {
        last_position(s.drop_last(), a, b)
    }
}

/// The position of the last separator of a path, or -1.
pub open spec fn last_separator(path: Seq<char>) -> int {
    last_position(path, '/', '\\')
}

/// The position of the last dot of a file name, or -1.
pub open spec fn last_dot(name: Seq<char>) -> int {
    last_position(name, '.', '.')
}

/// What stands before the last separator of a path: nothing where the path
/// has no separator.
pub open spec fn directory_of(path: Seq<char>) -> Seq<char> {
    if last_separator(path) < 0 {
        Seq::empty()
    } else {
        path.subrange(0, last_separator(path))
    }
}

/// What stands after the last separator of a path: the whole path where it
/// has no separator.
pub open spec fn file_name_of(path: Seq<char>) -> Seq<char> {
    path.subrange(last_separator(path) + 1, path.len() as int)
}

/// Whether a file name names a file: it is neither empty nor `..`.
pub open spec fn names_a_file(name: Seq<char>) -> bool {
    name.len() > 0 && name != seq!['.', '.']
}

/// Whether a file name has an extension: a dot that is not its first
/// character.
pub open spec fn has_extension(name: Seq<char>) -> bool {
    names_a_file(name) && last_dot(name) > 0
}

/// The stem of a file name: what stands before its last dot, or all of it
/// where it has no extension.
pub open spec fn stem_of(name: Seq<char>) -> Option<Seq<char>> {
    if !names_a_file(name) {
        None
    } else if last_dot(name) > 0 {
        Some(name.subrange(0, last_dot(name)))
    } else {
        Some(name)
    }
}

/// The extension of a file name: what stands after its last dot.
pub open spec fn extension_of(name: Seq<char>) -> Option<Seq<char>> {
    if has_extension(name) {
        Some(name.subrange(last_dot(name) + 1, name.len() as int))
    } else {
        None
    }
}

/// The path of `relative` under `directory`: the two with one `/` between
/// them, which is left out where `directory` is empty or ends in a
/// separator.
pub open spec fn joined(directory: Seq<char>, relative: Seq<char>) -> Seq<char> {
    if directory.len() == 0 || is_separator(directory.last()) {
        directory + relative
    } else {
        directory + seq!['/'] + relative
    }
}

/// Where `last_position` is not negative it is the place of an `a` or a `b`
/// after which there is no other.
pub proof fn lemma_last_position(s: Seq<char>, a: char, b: char)
    ensures
        -1 <= last_position(s, a, b) < s.len(),
        last_position(s, a, b) >= 0 ==> s[last_position(s, a, b)] == a || s[last_position(
            s,
            a,
            b,
        )] == b,
        forall|i: int| last_position(s, a, b) < i < s.len() ==> s[i] != a && s[i] != b,
    decreases s.len(),
{
    if s.len() > 0 && !(s.last() == a || s.last() == b) {
        lemma_last_position(s.drop_last(), a, b);
        assert forall|i: int| last_position(s, a, b) < i < s.len() implies s[i] != a && s[i]
            != b by {
            if i < s.len() - 1 {
                assert(s.drop_last()[i] == s[i]);
            }
        }
    }
}

/// Finds the last character of `s` that is `a` or `b`.
pub fn find_last(s: &[char], a: char, b: char) -> (r: Option<usize>)
    ensures
        r matches Some(i) ==> i < s@.len() && last_position(s@, a, b) == i as int,
        r is None ==> last_position(s@, a, b) == -1,
{
    let mut n: usize = s.len();
    assert(s@.take(n as int) =~= s@);
    while n > 0
        invariant
            n <= s.len(),
            last_position(s@, a, b) == last_position(s@.take(n as int), a, b),
        decreases n,
    {
        let c = s[n - 1];
        if c == a || c == b {
            return Some(n - 1);
        }
        assert(s@.take(n as int).drop_last() =~= s@.take(n - 1));
        n -= 1;
    }
    None
}

/// The text of a path split at its last separator: what stands before it
/// and what stands after it.
pub fn split_path(path: &str) -> (r: (String, String))
    ensures
        r.0@ == directory_of(path@),
        r.1@ == file_name_of(path@),
{
    let chars = chars_of(path);
    proof {
        lemma_last_position(path@, '/', '\\');
    }
    match find_last(chars.as_slice(), '/', '\\') {
        Some(i) => {
            assert(i < chars.len());
            let after: usize = i + 1;
            let directory = path.substring_char(0, i).to_owned();
            let name = path.substring_char(after, chars.len()).to_owned();
            (directory, name)
        },
        None => {
            let name = path.substring_char(0, chars.len()).to_owned();
            (String::new(), name)
        },
    }
}

/// The text of a file name split at its last dot: the stem, and the
/// extension where the name has one. `None` where it names no file.
pub fn split_name(name: &str) -> (r: Option<(String, Option<String>)>)
    ensures
        r is Some <==> names_a_file(name@),
        r matches Some((stem, extension)) ==> {
            &&& stem_of(name@) == Some(stem@)
            &&& extension is Some <==> has_extension(name@)
            &&& extension matches Some(e) ==> extension_of(name@) == Some(e@)
        },
{
    let chars = chars_of(name);
    if chars.len() == 0 {
        return None;
    }
    if chars.len() == 2 && chars[0] == '.' && chars[1] == '.' {
        assert(name@ =~= seq!['.', '.']);
        return None;
    }
    proof {
        lemma_last_position(name@, '.', '.');
        if name@ == seq!['.', '.'] {
            assert(name@.len() == 2);
            assert(name@[0] == '.');
            assert(name@[1] == '.');
        }
    }
    match find_last(chars.as_slice(), '.', '.') {
        Some(i) => {
            if i > 0 {
                let stem = name.substring_char(0, i).to_owned();
                let extension = name.substring_char(i + 1, chars.len()).to_owned();
                Some((stem, Some(extension)))
            } else {
                let stem = name.substring_char(0, chars.len()).to_owned();
                assert(name@.subrange(0, name@.len() as int) =~= name@);
                Some((stem, None))
            }
        },
        None => {
            let stem = name.substring_char(0, chars.len()).to_owned();
            assert(name@.subrange(0, name@.len() as int) =~= name@);
            Some((stem, None))
        },
    }
}

/// The path of `relative` under `directory`.
pub fn join_path(directory: &str, relative: &str) -> (path: String)
    ensures
        path@ == joined(directory@, relative@),
{
    let chars = chars_of(directory);
    let mut path = String::from_str(directory);
    if chars.len() > 0 {
        let last = chars[chars.len() - 1];
        if last != '/' && last != '\\' {
            proof {
                reveal_strlit("/");
                assert("/"@ =~= seq!['/']);
            }
            path.append("/");
        }
    }
    path.append(relative);
    path
}

} // verus!
