//! Remote paths: texts whose segments are parted by `/`, whatever the machine
//! this code runs on.

use crate::text::push_char;
use vstd::prelude::*;

verus! {

/// Whether a path is absolute. The test is on the text alone: the path is
/// absolute where its first character is the separator.
pub open spec fn is_absolute(path: Seq<char>) -> bool {
    path.len() > 0 && path[0] == '/'
}

/// The path that a move works on: `path` itself where it is absolute,
/// else `path` below the working directory.
pub open spec fn resolved(cwd: Seq<char>, path: Seq<char>) -> Seq<char> {
    if is_absolute(path) {
        path
    } else {
        cwd + seq!['/'] + path
    }
}

/// `name` below `base`. An absolute `name` stands for itself, and no second
/// separator is written behind a `base` that is empty or ends in one.
pub open spec fn joined(base: Seq<char>, name: Seq<char>) -> Seq<char> {
    if is_absolute(name) {
        name
    } else if base.len() > 0 && base.last() != '/' {
        base + seq!['/'] + name
    } else {
        base + name
    }
}

/// The last segment of a path: what follows its last separator, or all of
/// it where it holds none.
pub open spec fn base_name(path: Seq<char>) -> Seq<char>
    decreases path.len(),
{
    if path.len() == 0 || path.last() == '/' {
        Seq::empty()
    } else {
        base_name(path.drop_last()).push(path.last())
    }
}

/// The base name is the end of the path, holds no separator, and follows
/// either nothing or a separator.
pub proof fn lemma_base_name(path: Seq<char>)
    ensures
        base_name(path).len() <= path.len(),
        base_name(path) == path.skip(path.len() - base_name(path).len()),
        forall|k: int| 0 <= k < base_name(path).len() ==> base_name(path)[k] != '/',
        base_name(path).len() < path.len() ==> path[path.len() - base_name(path).len() - 1]
            == '/',
    decreases path.len(),
{
    if path.len() == 0 || path.last() == '/' {
        assert(path.skip(path.len() as int) == Seq::<char>::empty());
    } else {
        let front = path.drop_last();
        lemma_base_name(front);
        let name = base_name(front);
        assert(front.skip(front.len() - name.len()).push(path.last()) == path.skip(
            path.len() - name.len() - 1,
        ));
    }
}

/// A path without a separator is its own base name.
pub proof fn lemma_base_name_of_plain(path: Seq<char>)
    requires
        forall|k: int| 0 <= k < path.len() ==> path[k] != '/',
    ensures
        base_name(path) == path,
    decreases path.len(),
{
    if path.len() > 0 {
        lemma_base_name_of_plain(path.drop_last());
        assert(path.drop_last().push(path.last()) == path);
    }
}

/// Tells whether `path` begins with the separator.
pub fn starts_at_root(path: &str) -> (absolute: bool)
    ensures
        absolute == is_absolute(path@),
{
    !path.is_empty() && path.get_char(0) == '/'
}

/// Resolves a path given to a move against the working directory.
pub fn resolve(cwd: &str, path: &str) -> (full: String)
    ensures
        full@ == resolved(cwd@, path@),
{
    if starts_at_root(path) {
        String::from_str(path)
    } else {
        let mut full = String::from_str(cwd);
        push_char(&mut full, '/');
        full.append(path);
        full
    }
}

/// Puts `name` below `base`.
pub fn join(base: &str, name: &str) -> (full: String)
    ensures
        full@ == joined(base@, name@),
{
    if starts_at_root(name) {
        return String::from_str(name);
    }
    let mut full = String::from_str(base);
    let len = base.unicode_len();
    if len > 0 && base.get_char(len - 1) != '/' {
        push_char(&mut full, '/');
    }
    full.append(name);
    full
}

/// The last segment of a path.
pub fn file_name(path: &str) -> (name: String)
    ensures
        name@ == base_name(path@),
{
    let mut name = String::new();
    proof {
        assert(path@.take(0) == Seq::<char>::empty());
    }
    for c in it: path.chars()
        invariant
            it.seq() == path@,
            0 <= it.index() <= path@.len(),
            name@ == base_name(path@.take(it.index() as int)),
    {
        proof {
            let i = it.index() as int;
            assert(path@.take(i + 1).drop_last() == path@.take(i));
        }
        if c == '/' {
            name = String::new();
        } else {
            push_char(&mut name, c);
        }
    }
    proof {
        assert(path@.take(path@.len() as int) == path@);
    }
    name
}

} // verus!
