//! Paths as character strings, with `/` between their components.

use crate::text::{push_all, slice_of};
use vstd::prelude::*;

verus! {

/// The index of the last `c` in `s`, or -1 where `s` holds none.
pub open spec fn last_index_of(s: Seq<char>, c: char) -> int
    decreases s.len(),
{
    if s.len() == 0 {
        -1
    } else if s.last() == c {
        s.len() - 1
    } else {
        last_index_of(s.drop_last(), c)
    }
}

/// What stands before the base name: the path up to its last `/`, that `/` included.
pub open spec fn directory_part(path: Seq<char>) -> Seq<char> {
    path.take(last_index_of(path, '/') + 1)
}

/// The base name: what follows the last `/`, or the whole path where it holds none.
pub open spec fn base_name(path: Seq<char>) -> Seq<char> {
    path.skip(last_index_of(path, '/') + 1)
}

/// The extension of a base name: its last `.` and what follows, or nothing where it holds
/// no `.`.
pub open spec fn extension(name: Seq<char>) -> Seq<char> {
    let dot = last_index_of(name, '.');
    if dot < 0 {
        Seq::empty()
    } else {
        name.skip(dot)
    }
}

/// The path of the entry `name` of `folder`.
pub open spec fn entry_path(folder: Seq<char>, name: Seq<char>) -> Seq<char> {
    if folder.len() == 0 || folder.last() == '/' {
        folder + name
    } else {
        folder + seq!['/'] + name
    }
}

/// `path` with its base name replaced by `name`.
pub open spec fn with_base_name(path: Seq<char>, name: Seq<char>) -> Seq<char> {
    directory_part(path) + name
}

/// `last_index_of` finds an occurrence, and nothing after it is one.
pub proof fn lemma_last_index_of(s: Seq<char>, c: char)
    ensures
        -1 <= last_index_of(s, c) < s.len(),
        last_index_of(s, c) >= 0 ==> s[last_index_of(s, c)] == c,
        forall|i: int| last_index_of(s, c) < i < s.len() ==> #[trigger] s[i] != c,
    decreases s.len(),
{
    if s.len() > 0 && s.last() != c {
        let front = s.drop_last();
        lemma_last_index_of(front, c);
        assert forall|i: int| last_index_of(s, c) < i < s.len() implies #[trigger] s[i] != c by {
            if i < s.len() - 1 {
                assert(front[i] == s[i]);
            }
        }
    }
}

/// An index is the last occurrence when it is one and none follows it; there is none
/// when the string holds none.
pub proof fn lemma_last_index_is(s: Seq<char>, c: char, at: int)
    requires
        -1 <= at < s.len(),
        at >= 0 ==> s[at] == c,
        forall|i: int| at < i < s.len() ==> #[trigger] s[i] != c,
    ensures
        last_index_of(s, c) == at,
    decreases s.len(),
{
    if s.len() > 0 && s.last() != c {
        let front = s.drop_last();
        assert forall|i: int| at < i < front.len() implies #[trigger] front[i] != c by {
            assert(front[i] == s[i]);
        }
        lemma_last_index_is(front, c, at);
    }
}

/// A path falls into its directory part and its base name, and the base name holds no `/`.
pub proof fn lemma_path_parts(path: Seq<char>)
    ensures
        directory_part(path) + base_name(path) == path,
        !base_name(path).contains('/'),
        directory_part(path).len() > 0 ==> directory_part(path).last() == '/',
{
    lemma_last_index_of(path, '/');
    let cut = last_index_of(path, '/') + 1;
    assert(path.take(cut) + path.skip(cut) == path);
    let name = base_name(path);
    if name.contains('/') {
        let i = choose|i: int| 0 <= i < name.len() && name[i] == '/';
        assert(path[cut + i] == '/');
    }
}

/// Replacing the base name by a name without `/` changes the base name and nothing else:
/// the directory part stays, and the new base name is the name given.
pub proof fn lemma_with_base_name(path: Seq<char>, name: Seq<char>)
    requires
        !name.contains('/'),
    ensures
        directory_part(with_base_name(path, name)) == directory_part(path),
        base_name(with_base_name(path, name)) == name,
{
    lemma_path_parts(path);
    let dir = directory_part(path);
    let whole = dir + name;
    assert forall|i: int| dir.len() - 1 < i < whole.len() implies #[trigger] whole[i] != '/' by {
        assert(whole[i] == name[i - dir.len()]);
        assert(name.contains(name[i - dir.len()]));
    }
    lemma_last_index_is(whole, '/', dir.len() - 1);
    assert(whole.take(dir.len() as int) == dir);
    assert(whole.skip(dir.len() as int) == name);
}

/// The index of the last `c` in `chars`.
pub fn find_last(chars: &Vec<char>, c: char) -> (at: Option<usize>)
    ensures
        match at {
            Some(i) => i < chars.len() && i == last_index_of(chars@, c),
            None => last_index_of(chars@, c) == -1,
        },
{
    let mut i: usize = chars.len();
    while i > 0
        invariant
            i <= chars.len(),
            forall|j: int| i <= j < chars.len() ==> #[trigger] chars@[j] != c,
        decreases i,
    {
        i -= 1;
        if chars[i] == c {
            proof {
                lemma_last_index_is(chars@, c, i as int);
            }
            return Some(i);
        }
    }
    proof {
        lemma_last_index_is(chars@, c, -1);
    }
    None
}

/// The base name of `path`.
pub fn base_name_of(path: &Vec<char>) -> (name: Vec<char>)
    ensures
        name@ == base_name(path@),
{
    match find_last(path, '/') {
        Some(i) => slice_of(path, i + 1, path.len()),
        None => slice_of(path, 0, path.len()),
    }
}

/// The directory part of `path`.
pub fn directory_part_of(path: &Vec<char>) -> (dir: Vec<char>)
    ensures
        dir@ == directory_part(path@),
{
    match find_last(path, '/') {
        Some(i) => slice_of(path, 0, i + 1),
        None => Vec::new(),
    }
}

/// The extension of the base name `name`.
pub fn extension_of(name: &Vec<char>) -> (ext: Vec<char>)
    ensures
        ext@ == extension(name@),
{
    match find_last(name, '.') {
        Some(i) => slice_of(name, i, name.len()),
        None => Vec::new(),
    }
}

/// The path of the entry `name` of `folder`.
pub fn entry_path_of(folder: &Vec<char>, name: &Vec<char>) -> (path: Vec<char>)
    ensures
        path@ == entry_path(folder@, name@),
{
    let mut path: Vec<char> = Vec::new();
    push_all(&mut path, folder);
    if folder.len() > 0 && folder[folder.len() - 1] != '/' {
        path.push('/');
    }
    push_all(&mut path, name);
    path
}

} // verus!
