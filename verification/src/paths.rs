//! Paths as text with `/` between their components: the last component,
//! its stem and its extension, and the path of a file in a directory.

use crate::text::{append_chars, chars_of, text_of};
use vstd::prelude::*;

verus! {

/// The place of the last `c` in the text, or -1 where it has none.
pub open spec fn last_index_of(text: Seq<char>, c: char) -> int
    decreases text.len(),
{
    if text.len() == 0 {
        -1
    } else if text.last() == c {
        text.len() - 1
    } else {
        last_index_of(text.drop_last(), c)
    }
}

/// The last component of a path: what follows its last `/`. A path that
/// ends in `/`, `.` or `..` names no file.
pub open spec fn file_name_of(path: Seq<char>) -> Option<Seq<char>> {
    let name = path.skip(last_index_of(path, '/') + 1);
    if name.len() == 0 || name == seq!['.'] || name == seq!['.', '.'] {
        None
    } else {
        Some(name)
    }
}

/// The extension of the file that a path names: what follows the last `.`
/// of the file name. A name without a `.`, or whose only `.` is its first
/// character, has none.
pub open spec fn extension_of(path: Seq<char>) -> Option<Seq<char>> {
    match file_name_of(path) {
        None => None,
        Some(name) => {
            let dot = last_index_of(name, '.');
            if dot <= 0 {
                None
            } else {
                Some(name.skip(dot + 1))
            }
        },
    }
}

/// The stem of the file that a path names: the file name up to its last
/// `.`, or all of it where it has no extension.
pub open spec fn stem_of(path: Seq<char>) -> Option<Seq<char>> {
    match file_name_of(path) {
        None => None,
        Some(name) => {
            let dot = last_index_of(name, '.');
            if dot <= 0 {
                Some(name)
            } else {
                Some(name.take(dot))
            }
        },
    }
}

/// The path of `name` inside `directory`.
pub open spec fn joined(directory: Seq<char>, name: Seq<char>) -> Seq<char> {
    if directory.len() == 0 || directory.last() == '/' {
        directory + name
    } else {
        directory + seq!['/'] + name
    }
}

/// The path of the file `stem`.`extension` inside `directory`.
pub open spec fn destination_of(
    directory: Seq<char>,
    stem: Seq<char>,
    extension: Seq<char>,
) -> Seq<char> {
    joined(directory, stem) + seq!['.'] + extension
}

fn last_index(chars: &Vec<char>, c: char) -> (place: Option<usize>)
    ensures
        match place {
            Some(i) => i < chars.len() && i == last_index_of(chars@, c),
            None => last_index_of(chars@, c) == -1,
        },
{
    let mut end: usize = chars.len();
    assert(chars@.take(end as int) == chars@);
    while end > 0
        invariant
            end <= chars.len(),
            last_index_of(chars@, c) == last_index_of(chars@.take(end as int), c),
        decreases end,
    {
        if chars[end - 1] == c {
            return Some(end - 1);
        }
        assert(chars@.take(end as int).drop_last() == chars@.take(end - 1));
        end -= 1;
    }
    None
}

fn copy_range(chars: &Vec<char>, from: usize, to: usize) -> (out: Vec<char>)
    requires
        from <= to <= chars.len(),
    ensures
        out@ == chars@.subrange(from as int, to as int),
{
    let mut out: Vec<char> = Vec::new();
    let mut i: usize = from;
    while i < to
        invariant
            from <= i <= to <= chars.len(),
            out@ == chars@.subrange(from as int, i as int),
        decreases to - i,
    {
        out.push(chars[i]);
        i += 1;
    }
    out
}

fn file_name_chars(path: &Vec<char>) -> (name: Option<Vec<char>>)
    ensures
        match name {
            Some(chars) => file_name_of(path@) == Some(chars@),
            None => file_name_of(path@) is None,
        },
{
    let start: usize = match last_index(path, '/') {
        Some(i) => i + 1,
        None => 0,
    };
    let name = copy_range(path, start, path.len());
    assert(name@ == path@.skip(start as int));
    let n = name.len();
    if n == 0 || (n == 1 && name[0] == '.') || (n == 2 && name[0] == '.' && name[1] == '.') {
        assert(n == 1 ==> name@ == seq![name@[0]]);
        assert(n == 2 ==> name@ == seq![name@[0], name@[1]]);
        None
    } else {
        assert(name@ != seq!['.']) by {
            if name@ == seq!['.'] {
                assert(name@.len() == 1 && name@[0] == '.');
            }
        }
        assert(name@ != seq!['.', '.']) by {
            if name@ == seq!['.', '.'] {
                assert(name@.len() == 2 && name@[0] == '.' && name@[1] == '.');
            }
        }
        Some(name)
    }
}

/// The extension of the file that a path names, without its `.`.
pub fn file_extension(path: &str) -> (extension: Option<String>)
    ensures
        match extension {
            Some(text) => extension_of(path@) == Some(text@),
            None => extension_of(path@) is None,
        },
{
    let chars = chars_of(path);
    match file_name_chars(&chars) {
        None => None,
        Some(name) => match last_index(&name, '.') {
            None => None,
            Some(dot) => {
                if dot == 0 {
                    None
                } else {
                    let tail = copy_range(&name, dot + 1, name.len());
                    assert(tail@ == name@.skip(dot + 1));
                    Some(text_of(&tail))
                }
            },
        },
    }
}

/// The stem of the file that a path names.
pub fn file_stem(path: &str) -> (stem: Option<String>)
    ensures
        match stem {
            Some(text) => stem_of(path@) == Some(text@),
            None => stem_of(path@) is None,
        },
{
    let chars = chars_of(path);
    match file_name_chars(&chars) {
        None => None,
        Some(name) => match last_index(&name, '.') {
            None => Some(text_of(&name)),
            Some(dot) => {
                if dot == 0 {
                    Some(text_of(&name))
                } else {
                    let head = copy_range(&name, 0, dot);
                    assert(head@ == name@.take(dot as int));
                    Some(text_of(&head))
                }
            },
        },
    }
}

/// The path of the file `stem`.`extension` inside `directory`.
pub fn destination_path(directory: &str, stem: &str, extension: &str) -> (path: String)
    ensures
        path@ == destination_of(directory@, stem@, extension@),
{
    let mut chars = chars_of(directory);
    let n = chars.len();
    if n > 0 && chars[n - 1] != '/' {
        chars.push('/');
    }
    let stem_chars = chars_of(stem);
    append_chars(&mut chars, &stem_chars);
    chars.push('.');
    let extension_chars = chars_of(extension);
    append_chars(&mut chars, &extension_chars);
    text_of(&chars)
}

} // verus!
