//! Command lines as words, and how a POSIX shell reads them back.
//!
//! A command line is written as a list of words with one blank between
//! them. A word is either bare, put down as it stands, or quoted, or the
//! operator `&&`. The model of the shell below covers what such a line can
//! hold: blanks, bare characters, single quotes, a backslash before a
//! character other than a line feed, and `&&`. It gives the words before
//! any expansion, so the `*` of a pattern is still a character of its word.

use crate::quoting::{append_quoted, escape_all, escaped, quoted};
use crate::text::push_char;
use vstd::prelude::*;

verus! {

/// A word of a command line.
pub enum Word<'a> {
    /// A word put down as it stands: a command's name, an option, a pattern.
    Bare(&'a str),
    /// A word that may hold any character: it is put down quoted.
    Quoted(&'a str),
    /// The operator `&&`: what follows runs where what stands before it
    /// succeeded.
    AndThen,
}

/// A word of a command line, by its characters.
pub enum Token {
    Bare(Seq<char>),
    Quoted(Seq<char>),
    AndThen,
}

impl<'a> View for Word<'a> {
    type V = Token;

    open spec fn view(&self) -> Token {
        match self {
            Word::Bare(text) => Token::Bare(text@),
            Word::Quoted(text) => Token::Quoted(text@),
            Word::AndThen => Token::AndThen,
        }
    }
}

/// The tokens of a list of words.
pub open spec fn tokens(words: Seq<Word>) -> Seq<Token> {
    words.map_values(|w: Word| w@)
}

/// The operator `&&`, as the word that a shell reads.
pub open spec fn and_then() -> Seq<char> {
    seq!['&', '&']
}

/// A character that a shell takes as part of a word without more ado: none
/// that ends a word, quotes, escapes, substitutes or starts a comment.
pub open spec fn is_bare(c: char) -> bool {
    c != ' ' && c != '\t' && c != '\n' && c != '\'' && c != '"' && c != '\\' && c != '&' && c
        != ';' && c != '|' && c != '<' && c != '>' && c != '(' && c != ')' && c != '$' && c != '`'
        && c != '#'
}

/// A text that can stand as a bare word: not empty, and bare throughout.
pub open spec fn is_bare_word(text: Seq<char>) -> bool {
    text.len() > 0 && forall|k: int| 0 <= k < text.len() ==> is_bare(#[trigger] text[k])
}

impl Token {
    /// How the word is put down in a command line.
    pub open spec fn written(self) -> Seq<char> {
        match self {
            Token::Bare(text) => text,
            Token::Quoted(text) => quoted(text),
            Token::AndThen => and_then(),
        }
    }

    /// The word that the command line is meant to hold.
    pub open spec fn value(self) -> Seq<char> {
        match self {
            Token::Bare(text) => text,
            Token::Quoted(text) => text,
            Token::AndThen => and_then(),
        }
    }

    /// A bare word has to be one that the shell reads as it stands.
    pub open spec fn well_formed(self) -> bool {
        self matches Token::Bare(text) ==> is_bare_word(text)
    }
}

/// Every token of the list is well formed.
pub open spec fn all_well_formed(list: Seq<Token>) -> bool {
    forall|k: int| 0 <= k < list.len() ==> (#[trigger] list[k]).well_formed()
}

/// The words that a list of tokens is meant to hold.
pub open spec fn values(list: Seq<Token>) -> Seq<Seq<char>> {
    list.map_values(|t: Token| t.value())
}

/// The command line of a list of tokens: each as it is written, with one
/// blank between two of them.
pub open spec fn rendered(list: Seq<Token>) -> Seq<char>
    decreases list.len(),
{
    if list.len() == 0 {
        Seq::empty()
    } else if list.len() == 1 {
        list[0].written()
    } else {
        rendered(list.drop_last()) + seq![' '] + list.last().written()
    }
}

/// Where a shell stands in a line.
pub enum Mode {
    /// Outside quotes.
    Bare,
    /// Inside single quotes.
    Quoted,
    /// Behind a backslash.
    Escaped,
    /// Behind the first `&` of an operator.
    Operator,
}

/// What a shell has read of a line: the words that are complete, the word
/// that it is in, if any, and where it stands.
pub struct Reading {
    pub done: Seq<Seq<char>>,
    pub current: Option<Seq<char>>,
    pub mode: Mode,
}

impl Reading {
    /// Nothing read yet.
    pub open spec fn start() -> Reading {
        Reading { done: Seq::empty(), current: None, mode: Mode::Bare }
    }

    /// The characters of the word that is being read.
    pub open spec fn word(self) -> Seq<char> {
        match self.current {
            Some(word) => word,
            None => Seq::empty(),
        }
    }

    /// All words, the one being read counted as complete.
    pub open spec fn closed(self) -> Seq<Seq<char>> {
        match self.current {
            Some(word) => self.done.push(word),
            None => self.done,
        }
    }

    /// The reading with `c` added to the word that is being read.
    pub open spec fn with(self, c: char, mode: Mode) -> Reading {
        Reading { done: self.done, current: Some(self.word().push(c)), mode }
    }

    /// The reading after one more character, or `None` where the model
    /// does not cover the character at this place.
    pub open spec fn step(self, c: char) -> Option<Reading> {
        match self.mode {
            Mode::Quoted => if c == '\'' {
                Some(Reading { mode: Mode::Bare, ..self })
            } else {
                Some(self.with(c, Mode::Quoted))
            },
            Mode::Escaped => if c == '\n' {
                None
            } else {
                Some(self.with(c, Mode::Bare))
            },
            Mode::Operator => if c == '&' {
                Some(Reading { done: self.done.push(and_then()), current: None, mode: Mode::Bare })
            } else {
                None
            },
            Mode::Bare => if c == ' ' {
                Some(Reading { done: self.closed(), current: None, mode: Mode::Bare })
            } else if c == '\'' {
                Some(Reading { current: Some(self.word()), mode: Mode::Quoted, ..self })
            } else if c == '\\' {
                Some(Reading { current: Some(self.word()), mode: Mode::Escaped, ..self })
            } else if c == '&' {
                Some(Reading { done: self.closed(), current: None, mode: Mode::Operator })
            } else if is_bare(c) {
                Some(self.with(c, Mode::Bare))
            } else {
                None
            },
        }
    }

    /// The reading after all of `text`.
    pub open spec fn read(self, text: Seq<char>) -> Option<Reading>
        decreases text.len(),
    {
        if text.len() == 0 {
            Some(self)
        } else {
            match self.step(text[0]) {
                Some(next) => next.read(text.drop_first()),
                None => None,
            }
        }
    }
}

/// The words that a shell reads from a command line, or `None` where the
/// line ends inside a quotation, behind a backslash or inside an operator,
/// or holds what the model does not cover.
pub open spec fn shell_words(line: Seq<char>) -> Option<Seq<Seq<char>>> {
    match Reading::start().read(line) {
        Some(end) => if end.mode is Bare {
            Some(end.closed())
        } else {
            None
        },
        None => None,
    }
}

/// Reading two texts in a row is reading the first and going on with the
/// second.
pub proof fn lemma_read_concat(from: Reading, a: Seq<char>, b: Seq<char>)
    ensures
        from.read(a + b) == (match from.read(a) {
            Some(middle) => middle.read(b),
            None => None,
        }),
    decreases a.len(),
{
    if a.len() == 0 {
        assert(a + b == b);
    } else {
        assert((a + b).drop_first() == a.drop_first() + b);
        assert((a + b)[0] == a[0]);
        match from.step(a[0]) {
            Some(next) => lemma_read_concat(next, a.drop_first(), b),
            None => {},
        }
    }
}

/// Reading a text of one character is one step.
pub proof fn lemma_read_one(from: Reading, c: char)
    ensures
        from.read(seq![c]) == from.step(c),
{
    let text = seq![c];
    assert(text.drop_first() == Seq::<char>::empty());
    match from.step(c) {
        Some(next) => {
            assert(next.read(Seq::<char>::empty()) == Some(next));
        },
        None => {},
    }
}

/// Inside quotes, the escaped form of a text adds the text to the word.
pub proof fn lemma_read_escaped(from: Reading, s: Seq<char>)
    requires
        from.mode is Quoted,
        from.current is Some,
    ensures
        from.read(escape_all(s)) == Some(
            Reading { done: from.done, current: Some(from.word() + s), mode: Mode::Quoted },
        ),
    decreases s.len(),
{
    if s.len() == 0 {
        assert(from.word() + s == from.word());
    } else {
        let c = s[0];
        let rest = s.drop_first();
        let next = from.with(c, Mode::Quoted);
        lemma_read_concat(from, escaped(c), escape_all(rest));
        if c == '\'' {
            let e = escaped(c);
            let r1 = Reading { mode: Mode::Bare, ..from };
            let r2 = Reading { current: Some(r1.word()), mode: Mode::Escaped, ..r1 };
            let r3 = r2.with('\'', Mode::Bare);
            let r4 = Reading { current: Some(r3.word()), mode: Mode::Quoted, ..r3 };
            let e1 = e.drop_first();
            let e2 = e1.drop_first();
            let e3 = e2.drop_first();
            assert(e1 == seq!['\\', '\'', '\'']);
            assert(e2 == seq!['\'', '\'']);
            assert(e3 == seq!['\'']);
            assert(e3.drop_first() == Seq::<char>::empty());
            assert(r4.read(e3.drop_first()) == Some(r4));
            assert(r3.read(e3) == Some(r4));
            assert(r2.read(e2) == Some(r4));
            assert(r1.read(e1) == Some(r4));
            assert(from.read(e) == Some(r4));
            assert(r4 == next);
        } else {
            lemma_read_one(from, c);
        }
        lemma_read_escaped(next, rest);
        assert(next.word() + rest == from.word() + s);
    }
}

/// Outside quotes, a quoted text adds the text to the word, whatever
/// characters it holds, and the shell is outside quotes again.
pub proof fn lemma_read_quoted(from: Reading, s: Seq<char>)
    requires
        from.mode is Bare,
    ensures
        from.read(quoted(s)) == Some(
            Reading { done: from.done, current: Some(from.word() + s), mode: Mode::Bare },
        ),
{
    let open = seq!['\''];
    let inside = Reading { current: Some(from.word()), mode: Mode::Quoted, ..from };
    let full = Reading { done: from.done, current: Some(from.word() + s), mode: Mode::Quoted };
    assert(quoted(s) == open + (escape_all(s) + open));
    lemma_read_concat(from, open, escape_all(s) + open);
    lemma_read_one(from, '\'');
    lemma_read_concat(inside, escape_all(s), open);
    lemma_read_escaped(inside, s);
    lemma_read_one(full, '\'');
}

/// Outside quotes, bare characters add themselves to the word.
pub proof fn lemma_read_bare(from: Reading, text: Seq<char>)
    requires
        from.mode is Bare,
        is_bare_word(text),
    ensures
        from.read(text) == Some(
            Reading { done: from.done, current: Some(from.word() + text), mode: Mode::Bare },
        ),
    decreases text.len(),
{
    let c = text[0];
    let rest = text.drop_first();
    let next = from.with(c, Mode::Bare);
    assert(is_bare(c));
    if rest.len() == 0 {
        assert(next.read(rest) == Some(next));
        assert(from.word() + text == from.word().push(c));
    } else {
        assert forall|k: int| 0 <= k < rest.len() implies is_bare(#[trigger] rest[k]) by {
            assert(rest[k] == text[k + 1]);
        }
        lemma_read_bare(next, rest);
        assert(next.word() + rest == from.word() + text);
    }
}

/// At the start of a word, a token as it is written reads as its value.
pub proof fn lemma_read_token(from: Reading, token: Token)
    requires
        from.mode is Bare,
        from.current is None,
        token.well_formed(),
    ensures
        from.read(token.written()) matches Some(end) && end.mode is Bare && end.closed()
            == from.done.push(token.value()),
{
    match token {
        Token::Bare(text) => {
            lemma_read_bare(from, text);
            assert(from.word() + text == text);
        },
        Token::Quoted(text) => {
            lemma_read_quoted(from, text);
            assert(from.word() + text == text);
        },
        Token::AndThen => {
            let first = Reading { done: from.closed(), current: None, mode: Mode::Operator };
            let text = and_then();
            assert(text.drop_first() == seq!['&']);
            lemma_read_one(first, '&');
        },
    }
}

/// A shell reads a rendered command line up to its end, and is then
/// outside quotes with the values of the tokens as its words.
pub proof fn lemma_read_rendered(list: Seq<Token>)
    requires
        list.len() > 0,
        all_well_formed(list),
    ensures
        Reading::start().read(rendered(list)) matches Some(end) && end.mode is Bare
            && end.closed() == values(list),
    decreases list.len(),
{
    let start = Reading::start();
    let last = list.last();
    assert(last.well_formed());
    if list.len() == 1 {
        lemma_read_token(start, last);
        assert(values(list) == start.done.push(last.value()));
    } else {
        let front = list.drop_last();
        assert(all_well_formed(front)) by {
            assert forall|k: int| 0 <= k < front.len() implies (#[trigger] front[k]).well_formed() by {
                assert(front[k] == list[k]);
            }
        }
        lemma_read_rendered(front);
        let middle = start.read(rendered(front))->0;
        let blank = seq![' '];
        let fresh = Reading { done: middle.closed(), current: None, mode: Mode::Bare };
        assert(rendered(list) == rendered(front) + (blank + last.written()));
        lemma_read_concat(start, rendered(front), blank + last.written());
        lemma_read_concat(middle, blank, last.written());
        lemma_read_one(middle, ' ');
        lemma_read_token(fresh, last);
        assert(values(list) == values(front).push(last.value()));
    }
}

/// A shell reads from a rendered command line the words that were meant,
/// whatever characters the quoted ones hold.
pub proof fn lemma_rendered_reads_back(list: Seq<Token>)
    requires
        all_well_formed(list),
    ensures
        shell_words(rendered(list)) == Some(values(list)),
{
    if list.len() == 0 {
        assert(values(list) == Seq::<Seq<char>>::empty());
    } else {
        lemma_read_rendered(list);
    }
}

/// Writes a list of words as a command line.
pub fn render(words: &Vec<Word>) -> (line: String)
    ensures
        line@ == rendered(tokens(words@)),
{
    let mut line = String::new();
    let ghost list = tokens(words@);
    let mut i: usize = 0;
    while i < words.len()
        invariant
            0 <= i <= words.len(),
            list == tokens(words@),
            line@ == rendered(list.take(i as int)),
        decreases words.len() - i,
    {
        let ghost before = line@;
        if i > 0 {
            push_char(&mut line, ' ');
        }
        match &words[i] {
            Word::Bare(text) => line.append(text),
            Word::Quoted(text) => append_quoted(&mut line, text),
            Word::AndThen => {
                push_char(&mut line, '&');
                push_char(&mut line, '&');
            },
        }
        proof {
            let next = list.take(i + 1);
            assert(next.drop_last() == list.take(i as int));
            assert(next.last() == words@[i as int]@);
            if i > 0 {
                assert(line@ == before + seq![' '] + next.last().written());
            } else {
                assert(line@ == next.last().written());
            }
        }
        i += 1;
    }
    proof {
        assert(list.take(words.len() as int) == list);
    }
    line
}

} // verus!
