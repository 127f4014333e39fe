//! Shell patterns for the names of a directory's entries, as far as the
//! commands of this crate use them.

use vstd::prelude::*;

verus! {

/// One place of a pattern.
pub enum Glyph {
    /// This character and no other.
    Just(char),
    /// Any one character: `?`.
    AnyOne,
    /// Any one character but this: `[!c]`.
    AnyBut(char),
    /// Any run of characters, the empty one too: `*`.
    AnyRun,
}

impl Glyph {
    /// How the place is written in a pattern.
    pub open spec fn written(self) -> Seq<char> {
        match self {
            Glyph::Just(c) => seq![c],
            Glyph::AnyOne => seq!['?'],
            Glyph::AnyBut(c) => seq!['[', '!', c, ']'],
            Glyph::AnyRun => seq!['*'],
        }
    }
}

/// How a pattern is written.
pub open spec fn written(pattern: Seq<Glyph>) -> Seq<char>
    decreases pattern.len(),
{
    if pattern.len() == 0 {
        Seq::empty()
    } else {
        pattern[0].written() + written(pattern.drop_first())
    }
}

/// Whether the places of `pattern` take up `name`, all of it.
pub open spec fn fits(pattern: Seq<Glyph>, name: Seq<char>) -> bool
    decreases pattern.len(), name.len(),
{
    if pattern.len() == 0 {
        name.len() == 0
    } else {
        match pattern[0] {
            Glyph::Just(c) => name.len() > 0 && name[0] == c && fits(
                pattern.drop_first(),
                name.drop_first(),
            ),
            Glyph::AnyOne => name.len() > 0 && fits(pattern.drop_first(), name.drop_first()),
            Glyph::AnyBut(c) => name.len() > 0 && name[0] != c && fits(
                pattern.drop_first(),
                name.drop_first(),
            ),
            Glyph::AnyRun => fits(pattern.drop_first(), name) || (name.len() > 0 && fits(
                pattern,
                name.drop_first(),
            )),
        }
    }
}

/// Whether a shell that expands `pattern` in a directory names the entry
/// `name`. A dot at the start of a name is matched only by a dot that
/// stands in the pattern.
pub open spec fn names(pattern: Seq<Glyph>, name: Seq<char>) -> bool {
    &&& fits(pattern, name)
    &&& name.len() > 0 && name[0] == '.' ==> pattern.len() > 0 && pattern[0] == Glyph::Just('.')
}

/// A text that can be the name of an entry: not empty, without a
/// separator, and neither `.` nor `..`.
pub open spec fn is_entry_name(name: Seq<char>) -> bool {
    &&& name.len() > 0
    &&& forall|k: int| 0 <= k < name.len() ==> name[k] != '/'
    &&& name != seq!['.']
    &&& name != seq!['.', '.']
}

/// `*`: every name that begins with no dot.
pub open spec fn plain_names() -> Seq<Glyph> {
    seq![Glyph::AnyRun]
}

/// `.[!.]*`: every name that begins with one dot and goes on with
/// something else.
pub open spec fn dot_names() -> Seq<Glyph> {
    seq![Glyph::Just('.'), Glyph::AnyBut('.'), Glyph::AnyRun]
}

/// `..?*`: every name that begins with two dots and goes on.
pub open spec fn two_dot_names() -> Seq<Glyph> {
    seq![Glyph::Just('.'), Glyph::Just('.'), Glyph::AnyOne, Glyph::AnyRun]
}

/// A run at the end of a pattern takes up whatever is left of a name.
pub proof fn lemma_run_fits_all(name: Seq<char>)
    ensures
        fits(plain_names(), name),
    decreases name.len(),
{
    let pattern = plain_names();
    assert(pattern.drop_first() == Seq::<Glyph>::empty());
    if name.len() == 0 {
        assert(fits(pattern.drop_first(), name));
    } else {
        lemma_run_fits_all(name.drop_first());
    }
}

/// The three patterns are written `*`, `.[!.]*` and `..?*`.
pub proof fn lemma_patterns_written()
    ensures
        written(plain_names()) == seq!['*'],
        written(dot_names()) == seq!['.', '[', '!', '.', ']', '*'],
        written(two_dot_names()) == seq!['.', '.', '?', '*'],
{
    let none = Seq::<Glyph>::empty();
    let run = plain_names();
    assert(written(none) == Seq::<char>::empty());
    assert(run.drop_first() == none);
    assert(written(run) == seq!['*']);
    let d1 = dot_names().drop_first();
    assert(d1 == seq![Glyph::AnyBut('.'), Glyph::AnyRun]);
    assert(d1.drop_first() == run);
    assert(written(d1) == seq!['[', '!', '.', ']', '*']);
    assert(written(dot_names()) == seq!['.', '[', '!', '.', ']', '*']);
    let t1 = two_dot_names().drop_first();
    assert(t1 == seq![Glyph::Just('.'), Glyph::AnyOne, Glyph::AnyRun]);
    let t2 = t1.drop_first();
    assert(t2 == seq![Glyph::AnyOne, Glyph::AnyRun]);
    assert(t2.drop_first() == run);
    assert(written(t2) == seq!['?', '*']);
    assert(written(t1) == seq!['.', '?', '*']);
    assert(written(two_dot_names()) == seq!['.', '.', '?', '*']);
}

/// Every name of an entry is named by one of the three patterns, and
/// neither `.` nor `..` is named by any of them.
pub proof fn lemma_patterns_name_every_entry(name: Seq<char>)
    ensures
        is_entry_name(name) ==> names(plain_names(), name) || names(dot_names(), name) || names(
            two_dot_names(),
            name,
        ),
        name == seq!['.'] || name == seq!['.', '.'] ==> !names(plain_names(), name) && !names(
            dot_names(),
            name,
        ) && !names(two_dot_names(), name),
{
    let run = plain_names();
    let d0 = dot_names();
    let d1 = d0.drop_first();
    let t0 = two_dot_names();
    let t1 = t0.drop_first();
    let t2 = t1.drop_first();
    assert(d1 == seq![Glyph::AnyBut('.'), Glyph::AnyRun]);
    assert(d1.drop_first() == run);
    assert(t1 == seq![Glyph::Just('.'), Glyph::AnyOne, Glyph::AnyRun]);
    assert(t2 == seq![Glyph::AnyOne, Glyph::AnyRun]);
    assert(t2.drop_first() == run);
    if name == seq!['.'] {
        let n1 = name.drop_first();
        assert(n1.len() == 0);
        assert(!fits(d1, n1));
        assert(!fits(t1, n1));
    } else if name == seq!['.', '.'] {
        let n1 = name.drop_first();
        let n2 = n1.drop_first();
        assert(n1[0] == '.');
        assert(n2.len() == 0);
        assert(!fits(d1, n1));
        assert(!fits(t2, n2));
        assert(!fits(t1, n1));
    } else if is_entry_name(name) {
        if name[0] != '.' {
            lemma_run_fits_all(name);
        } else {
            let n1 = name.drop_first();
            assert(name.len() >= 2) by {
                if name.len() == 1 {
                    assert(name =~= seq!['.']);
                }
            }
            let n2 = n1.drop_first();
            if n1[0] != '.' {
                lemma_run_fits_all(n2);
                assert(fits(d1, n1));
                assert(fits(d0, name));
            } else {
                assert(name.len() >= 3) by {
                    if name.len() == 2 {
                        assert(name =~= seq!['.', '.']);
                    }
                }
                lemma_run_fits_all(n2.drop_first());
                assert(fits(t2, n2));
                assert(fits(t1, n1));
                assert(fits(t0, name));
            }
        }
    }
}

} // verus!
