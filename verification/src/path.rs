//! Paths as sequences of characters: where the last separator stands and what
//! precedes it.

use vstd::prelude::*;

verus! {

/// The character that divides the components of a path.
pub const SEPARATOR: char = '/';

/// Whether `path` holds at least one separator.
pub open spec fn has_separator(path: Seq<char>) -> bool {
    exists|i: int| 0 <= i < path.len() && path[i] == SEPARATOR
}

/// The position of the last separator of `path`, or -1 where it holds none.
pub open spec fn last_separator(path: Seq<char>) -> int
    decreases path.len(),
{
    if path.len() == 0 {
        -1
    } else if path.last() == SEPARATOR {
        path.len() - 1
    } else {
        last_separator(path.drop_last())
    }
}

/// The parent directory of `path`: everything before its last separator.
/// A path without a separator has none.
pub open spec fn parent_of(path: Seq<char>) -> Option<Seq<char>> {
    if has_separator(path) {
        Some(path.subrange(0, last_separator(path)))
    } else {
        None
    }
}

/// `last_separator` points at a separator that no other separator follows,
/// and it is -1 exactly on the paths that hold no separator.
pub proof fn lemma_last_separator(path: Seq<char>)
    ensures
        -1 <= last_separator(path) < path.len(),
        has_separator(path) <==> last_separator(path) >= 0,
        last_separator(path) >= 0 ==> path[last_separator(path)] == SEPARATOR,
        forall|j: int| last_separator(path) < j < path.len() ==> path[j] != SEPARATOR,
    decreases path.len(),
{
    if path.len() == 0 {
    } else if path.last() == SEPARATOR {
        assert(path[path.len() - 1] == SEPARATOR);
    } else {
        let front = path.drop_last();
        lemma_last_separator(front);
        assert forall|j: int| last_separator(path) < j < path.len() implies path[j]
            != SEPARATOR by {
            if j < front.len() {
                assert(front[j] == path[j]);
            }
        }
        if has_separator(path) {
            let i = choose|i: int| 0 <= i < path.len() && path[i] == SEPARATOR;
            assert(front[i] == SEPARATOR);
        }
        if last_separator(front) >= 0 {
            assert(path[last_separator(front)] == SEPARATOR);
        }
    }
}

/// Joining a directory and a name that holds no separator gives a path whose
/// parent is that directory, whatever the directory holds.
pub proof fn law_parent_of_joined(dir: Seq<char>, name: Seq<char>)
    requires
        !has_separator(name),
    ensures
        has_separator(dir + seq![SEPARATOR] + name),
        last_separator(dir + seq![SEPARATOR] + name) == dir.len(),
        parent_of(dir + seq![SEPARATOR] + name) == Some(dir),
    decreases name.len(),
{
    let path = dir + seq![SEPARATOR] + name;
    assert(path[dir.len() as int] == SEPARATOR);
    if name.len() == 0 {
        assert(path.last() == SEPARATOR);
    } else {
        let shorter = name.drop_last();
        assert(name.last() == name[name.len() - 1]);
        assert(path.last() == name.last());
        assert(path.drop_last() =~= dir + seq![SEPARATOR] + shorter);
        assert forall|i: int| 0 <= i < shorter.len() implies shorter[i] != SEPARATOR by {
            assert(shorter[i] == name[i]);
        }
        law_parent_of_joined(dir, shorter);
    }
    assert(path.subrange(0, dir.len() as int) =~= dir);
}

/// Finds the last separator of `path`, counting in characters.
pub fn find_last_separator(path: &str) -> (found: Option<usize>)
    ensures
        match found {
            Some(k) => k as int == last_separator(path@),
            None => last_separator(path@) == -1,
        },
{
    let n: usize = path.unicode_len();
    let mut found: Option<usize> = None;
    let mut i: usize = 0;
    for c in it: path.chars()
        invariant
            it.seq() == path@,
            n == path@.len(),
            i as int == it.index(),
            match found {
                Some(k) => k as int == last_separator(path@.subrange(0, i as int)),
                None => last_separator(path@.subrange(0, i as int)) == -1,
            },
    {
        proof {
            let head = path@.subrange(0, i as int);
            let next = path@.subrange(0, i + 1);
            assert(next.last() == path@[i as int]);
            assert(next.drop_last() =~= head);
        }
        if c == SEPARATOR {
            found = Some(i);
        }
        i += 1;
    }
    proof {
        assert(path@.subrange(0, i as int) =~= path@);
    }
    found
}

/// Whether `path` names a directory component, that is, holds a separator.
pub fn contains_separator(path: &str) -> (b: bool)
    ensures
        b == has_separator(path@),
{
    proof {
        lemma_last_separator(path@);
    }
    find_last_separator(path).is_some()
}

/// Derives the parent directory of `path`: `None` where `path` holds no
/// separator, else the characters before the last one. The parent of
/// `"a/b/c.txt"` is `"a/b"`, and that of `"/c.txt"` is the empty string.
pub fn parent_directory(path: &str) -> (dir: Option<String>)
    ensures
        dir is Some <==> has_separator(path@),
        match dir {
            Some(d) => parent_of(path@) == Some(d@),
            None => parent_of(path@) is None,
        },
{
    proof {
        lemma_last_separator(path@);
    }
    match find_last_separator(path) {
        Some(k) => Some(String::from_str(path.substring_char(0, k))),
        None => None,
    }
}

} // verus!
