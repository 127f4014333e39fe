//! Quoting of a text for a POSIX shell.
//!
//! A path that goes into a command line is put between single quotes. Between
//! single quotes the shell takes every character as it stands, so the one
//! character that needs care is the single quote itself: the quoted run is
//! closed, an escaped quote is written, and a new run is opened.

use crate::text::push_char;
use vstd::prelude::*;

verus! {

/// What stands for one character inside a quoted text.
pub open spec fn escaped(c: char) -> Seq<char> {
    if c == '\'' {
        seq!['\'', '\\', '\'', '\'']
    } else {
        seq![c]
    }
}

/// The characters of `s`, each one escaped, in order.
pub open spec fn escape_all(s: Seq<char>) -> Seq<char>
    decreases s.len(),
{
    if s.len() == 0 {
        Seq::empty()
    } else {
        escaped(s[0]) + escape_all(s.drop_first())
    }
}

/// `s` as one word of a shell command.
pub open spec fn quoted(s: Seq<char>) -> Seq<char> {
    seq!['\''] + escape_all(s) + seq!['\'']
}

/// Escaping goes through a concatenation.
pub proof fn lemma_escape_all_concat(a: Seq<char>, b: Seq<char>)
    ensures
        escape_all(a + b) == escape_all(a) + escape_all(b),
    decreases a.len(),
{
    if a.len() == 0 {
        assert(a + b == b);
    } else {
        assert((a + b).drop_first() == a.drop_first() + b);
        lemma_escape_all_concat(a.drop_first(), b);
    }
}

/// Escaping one more character appends what stands for it.
pub proof fn lemma_escape_all_push(s: Seq<char>, c: char)
    ensures
        escape_all(s.push(c)) == escape_all(s) + escaped(c),
{
    let one = seq![c];
    assert(s.push(c) == s + one);
    lemma_escape_all_concat(s, one);
    assert(one.drop_first() == Seq::<char>::empty());
    assert(escape_all(Seq::<char>::empty()) == Seq::<char>::empty());
    assert(escape_all(one) == escaped(c) + Seq::<char>::empty());
}

/// Appends `s` to `out` as one word of a shell command.
pub fn append_quoted(out: &mut String, s: &str)
    ensures
        final(out)@ == old(out)@ + quoted(s@),
{
    let ghost before = out@;
    push_char(out, '\'');
    for c in it: s.chars()
        invariant
            it.seq() == s@,
            0 <= it.index() <= s@.len(),
            out@ == before + seq!['\''] + escape_all(s@.take(it.index() as int)),
    {
        let ghost i = it.index() as int;
        proof {
            lemma_escape_all_push(s@.take(i), c);
            assert(s@.take(i).push(c) == s@.take(i + 1));
        }
        if c == '\'' {
            push_char(out, '\'');
            push_char(out, '\\');
            push_char(out, '\'');
            push_char(out, '\'');
        } else {
            push_char(out, c);
        }
    }
    push_char(out, '\'');
    proof {
        assert(s@.take(s@.len() as int) == s@);
    }
}

/// `s` as one word of a shell command.
pub fn quote(s: &str) -> (out: String)
    ensures
        out@ == quoted(s@),
{
    let mut out = String::new();
    append_quoted(&mut out, s);
    out
}

} // verus!
