//! Text helpers: lines of a command's output, and decimal numbers.

use vstd::prelude::*;

verus! {

/// The characters of each string of a list.
pub open spec fn texts(list: Seq<String>) -> Seq<Seq<char>> {
    list.map_values(|t: String| t@)
}

/// The position of the first line feed in `s`, or the length of `s` where it
/// holds none.
pub open spec fn line_end(s: Seq<char>) -> int
    decreases s.len(),
{
    if s.len() == 0 || s[0] == '\n' {
        0
    } else {
        1 + line_end(s.drop_first())
    }
}

/// A line without the carriage return that may stand before its line feed.
pub open spec fn without_carriage_return(line: Seq<char>) -> Seq<char> {
    if line.len() > 0 && line.last() == '\r' {
        line.drop_last()
    } else {
        line
    }
}

/// The lines of a text. A line ends at a line feed, or at a carriage return
/// followed by a line feed; neither belongs to the line. What follows the
/// last line feed is a line of its own unless it is empty, and keeps a
/// carriage return at its end.
pub open spec fn lines_of(s: Seq<char>) -> Seq<Seq<char>>
    decreases s.len(),
{
    let end = line_end(s);
    if s.len() == 0 {
        Seq::empty()
    } else if 0 <= end < s.len() {
        seq![without_carriage_return(s.take(end))] + lines_of(s.skip(end + 1))
    } else {
        seq![s]
    }
}

/// A text has a line exactly where it is not empty.
pub proof fn lemma_lines_of_nonempty(s: Seq<char>)
    ensures
        lines_of(s).len() > 0 <==> s.len() > 0,
{
}

/// `line_end` finds the line feed at `n` when none stands before it.
pub proof fn lemma_line_end_at(s: Seq<char>, n: int)
    requires
        0 <= n <= s.len(),
        forall|k: int| 0 <= k < n ==> s[k] != '\n',
        n < s.len() ==> s[n] == '\n',
    ensures
        line_end(s) == n,
    decreases n,
{
    if n > 0 {
        let rest = s.drop_first();
        assert forall|k: int| 0 <= k < n - 1 implies rest[k] != '\n' by {
            assert(rest[k] == s[k + 1]);
        }
        lemma_line_end_at(rest, n - 1);
    }
}

/// Appends one character to the end of a string, as `String::push` does.
#[verifier::external_body]
pub(crate) fn push_char(text: &mut String, c: char)
    ensures
        final(text)@ == old(text)@.push(c),
{
    text.push(c);
}

/// Splits a text into its lines, in the order in which they stand.
pub fn split_lines(s: &str) -> (lines: Vec<String>)
    ensures
        texts(lines@) == lines_of(s@),
{
    let mut lines: Vec<String> = Vec::new();
    let mut current = String::new();
    let mut held_return = false;
    let ghost mut start: int = 0;
    proof {
        assert(s@.skip(0) == s@);
        assert(texts(lines@) + lines_of(s@) == lines_of(s@));
    }
    for c in it: s.chars()
        invariant
            it.seq() == s@,
            0 <= start <= it.index() <= s@.len(),
            forall|k: int| start <= k < it.index() ==> s@[k] != '\n',
            s@.subrange(start, it.index() as int) == current@ + (if held_return {
                seq!['\r']
            } else {
                Seq::<char>::empty()
            }),
            !held_return ==> current@.len() == 0 || current@.last() != '\r',
            lines_of(s@) == texts(lines@) + lines_of(s@.skip(start)),
    {
        let ghost i = it.index() as int;
        let ghost raw = s@.subrange(start, i);
        if c == '\n' {
            proof {
                let tail = s@.skip(start);
                assert forall|k: int| 0 <= k < i - start implies tail[k] != '\n' by {
                    assert(tail[k] == s@[start + k]);
                }
                lemma_line_end_at(tail, i - start);
                assert(tail.take(i - start) == raw);
                assert(tail.skip(i - start + 1) == s@.skip(i + 1));
                if held_return {
                    assert(raw.last() == '\r');
                    assert(raw.drop_last() == current@);
                } else {
                    assert(raw == current@);
                }
                assert(without_carriage_return(raw) == current@);
                assert(texts(lines@.push(current)) == texts(lines@) + seq![current@]);
            }
            lines.push(current);
            current = String::new();
            held_return = false;
            proof {
                start = i + 1;
                assert(s@.subrange(start, i + 1) == Seq::<char>::empty());
            }
        } else {
            if held_return {
                push_char(&mut current, '\r');
                held_return = false;
            }
            if c == '\r' {
                held_return = true;
            } else {
                push_char(&mut current, c);
            }
            proof {
                assert(s@.subrange(start, i + 1) == raw.push(c));
            }
        }
    }
    if held_return {
        push_char(&mut current, '\r');
    }
    proof {
        let tail = s@.skip(start);
        assert(tail == s@.subrange(start, s@.len() as int));
        assert forall|k: int| 0 <= k < tail.len() implies tail[k] != '\n' by {
            assert(tail[k] == s@[start + k]);
        }
        lemma_line_end_at(tail, tail.len() as int);
        assert(tail == current@);
        assert(texts(lines@.push(current)) == texts(lines@) + seq![current@]);
    }
    if !current.as_str().is_empty() {
        lines.push(current);
    }
    lines
}

/// The character that writes a digit below ten.
pub open spec fn digit_char(d: int) -> char {
    if d == 0 {
        '0'
    } else if d == 1 {
        '1'
    } else if d == 2 {
        '2'
    } else if d == 3 {
        '3'
    } else if d == 4 {
        '4'
    } else if d == 5 {
        '5'
    } else if d == 6 {
        '6'
    } else if d == 7 {
        '7'
    } else if d == 8 {
        '8'
    } else {
        '9'
    }
}

/// A number written in decimal, without leading zeros.
pub open spec fn decimal(n: nat) -> Seq<char>
    decreases n,
{
    if n < 10 {
        seq![digit_char(n as int)]
    } else {
        decimal(n / 10).push(digit_char((n % 10) as int))
    }
}

fn digit(d: u64) -> (c: char)
    requires
        d < 10,
    ensures
        c == digit_char(d as int),
{
    if d == 0 {
        '0'
    } else if d == 1 {
        '1'
    } else if d == 2 {
        '2'
    } else if d == 3 {
        '3'
    } else if d == 4 {
        '4'
    } else if d == 5 {
        '5'
    } else if d == 6 {
        '6'
    } else if d == 7 {
        '7'
    } else if d == 8 {
        '8'
    } else {
        '9'
    }
}

/// Writes a number in decimal.
pub fn decimal_text(n: u64) -> (out: String)
    ensures
        out@ == decimal(n as nat),
    decreases n,
{
    if n < 10 {
        let mut out = String::new();
        push_char(&mut out, digit(n));
        out
    } else {
        let mut out = decimal_text(n / 10);
        push_char(&mut out, digit(n % 10));
        out
    }
}

/// A number with a sign written in decimal: a minus before what is below
/// zero.
pub open spec fn signed_decimal(n: int) -> Seq<char> {
    if n < 0 {
        seq!['-'] + decimal((-n) as nat)
    } else {
        decimal(n as nat)
    }
}

/// Writes a number with a sign in decimal.
pub fn signed_decimal_text(n: i32) -> (out: String)
    ensures
        out@ == signed_decimal(n as int),
{
    if n < 0 {
        let mut out = String::new();
        push_char(&mut out, '-');
        let size = decimal_text((-(n as i64)) as u64);
        out.append(size.as_str());
        out
    } else {
        decimal_text(n as u64)
    }
}

} // verus!
