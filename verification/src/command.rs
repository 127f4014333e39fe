//! The remote commands that the file operations amount to.
//!
//! Every command is a list of words. The words that come from outside, the
//! paths and names, are quoted, so that the remote shell reads each of them
//! as one word whatever it holds. A command that is to run in a login shell
//! is handed to `sh -lc` as one quoted word. A name that is meant as an
//! entry of a directory is written behind `./`, so that it is read from the
//! directory that the command has entered, whatever the name begins with.

use crate::pattern::{
    dot_names, lemma_patterns_written, plain_names, two_dot_names, written,
};
use crate::words::{all_well_formed, is_bare_word, render, rendered, tokens, Token, Word};
use vstd::prelude::*;

verus! {

/// A command for the remote shell, and how its channel is to be used.
#[derive(Debug, PartialEq, Eq)]
pub struct RemoteCommand {
    /// The command line.
    pub text: String,
    /// Whether what the command prints is read and handed back.
    pub read_output: bool,
    /// Whether the channel is closed, and its closing awaited, before the
    /// exit status is read and the command counts as done.
    pub wait_close: bool,
}

/// `name` as an entry of the directory that a command has entered: the
/// name behind `./`.
pub open spec fn below(name: Seq<char>) -> Seq<char> {
    seq!['.', '/'] + name
}

/// Run the command line `inner` in a login shell.
pub open spec fn login_shell_words(inner: Seq<char>) -> Seq<Token> {
    seq![Token::Bare("sh"@), Token::Bare("-lc"@), Token::Quoted(inner)]
}

/// Enter `target`, print where that is, and list what is there, one name per
/// line.
pub open spec fn navigate_words(target: Seq<char>) -> Seq<Token> {
    seq![
        Token::Bare("cd"@),
        Token::Quoted(target),
        Token::AndThen,
        Token::Bare("pwd"@),
        Token::AndThen,
        Token::Bare("ls"@),
        Token::Bare("-1"@),
    ]
}

/// Enter `cwd` and make the directory `name` there.
pub open spec fn create_directory_words(cwd: Seq<char>, name: Seq<char>) -> Seq<Token> {
    seq![
        Token::Bare("cd"@),
        Token::Quoted(cwd),
        Token::AndThen,
        Token::Bare("mkdir"@),
        Token::Quoted(below(name)),
    ]
}

/// Move `source` to `destination`.
pub open spec fn move_words(source: Seq<char>, destination: Seq<char>) -> Seq<Token> {
    seq![Token::Bare("mv"@), Token::Quoted(source), Token::Quoted(destination)]
}

/// Enter `dir`, then move `source` to `destination`.
pub open spec fn move_within_words(
    dir: Seq<char>,
    source: Seq<char>,
    destination: Seq<char>,
) -> Seq<Token> {
    seq![
        Token::Bare("cd"@),
        Token::Quoted(dir),
        Token::AndThen,
        Token::Bare("mv"@),
        Token::Quoted(source),
        Token::Quoted(destination),
    ]
}

/// Enter `dir`, then remove its entry `target` and all below it.
pub open spec fn remove_within_words(dir: Seq<char>, target: Seq<char>) -> Seq<Token> {
    seq![
        Token::Bare("cd"@),
        Token::Quoted(dir),
        Token::AndThen,
        Token::Bare("rm"@),
        Token::Bare("-rf"@),
        Token::Quoted(below(target)),
    ]
}

/// Make the directory `trash` unless it is there.
pub open spec fn ensure_trash_words(trash: Seq<char>) -> Seq<Token> {
    seq![Token::Bare("mkdir"@), Token::Bare("-p"@), Token::Quoted(trash)]
}

/// Enter `trash`, then remove everything that stands directly in it. The
/// three patterns name every entry but `.` and `..`: those that begin with
/// no dot, those that begin with one dot, and those that begin with two
/// dots and go on.
pub open spec fn empty_trash_words(trash: Seq<char>) -> Seq<Token> {
    seq![
        Token::Bare("cd"@),
        Token::Quoted(trash),
        Token::AndThen,
        Token::Bare("rm"@),
        Token::Bare("-rf"@),
        Token::Bare("./*"@),
        Token::Bare("./.[!.]*"@),
        Token::Bare("./..?*"@),
    ]
}

/// Enter `cwd`, then report the space on the file system that holds it.
pub open spec fn disk_usage_words(cwd: Seq<char>) -> Seq<Token> {
    seq![
        Token::Bare("cd"@),
        Token::Quoted(cwd),
        Token::AndThen,
        Token::Bare("df"@),
        Token::Bare("-h"@),
        Token::Bare("."@),
    ]
}

/// `inner` run by a login shell.
pub open spec fn in_login_shell(inner: Seq<char>) -> Seq<char> {
    rendered(login_shell_words(inner))
}

/// The command line of a navigation to `target`.
pub open spec fn navigate_text(target: Seq<char>) -> Seq<char> {
    rendered(navigate_words(target))
}

/// The command line that makes the directory `name` in `cwd`.
pub open spec fn create_directory_text(cwd: Seq<char>, name: Seq<char>) -> Seq<char> {
    rendered(create_directory_words(cwd, name))
}

/// The command line that moves `source` to `destination`.
pub open spec fn move_text(source: Seq<char>, destination: Seq<char>) -> Seq<char> {
    in_login_shell(rendered(move_words(source, destination)))
}

/// The command line that makes the trash directory unless it is there.
pub open spec fn ensure_trash_text(trash: Seq<char>) -> Seq<char> {
    rendered(ensure_trash_words(trash))
}

/// The command line that removes `target` from the trash directory for
/// good.
pub open spec fn purge_text(trash: Seq<char>, target: Seq<char>) -> Seq<char> {
    in_login_shell(rendered(remove_within_words(trash, target)))
}

/// The command line that moves `target` from `cwd` into the trash
/// directory, where it keeps its name.
pub open spec fn discard_text(cwd: Seq<char>, target: Seq<char>, trash: Seq<char>) -> Seq<char> {
    in_login_shell(rendered(move_within_words(cwd, cwd + seq!['/'] + target, trash)))
}

/// The command line that empties the trash directory.
pub open spec fn empty_trash_text(trash: Seq<char>) -> Seq<char> {
    rendered(empty_trash_words(trash))
}

/// The command line that reports the space around `cwd`.
pub open spec fn disk_usage_text(cwd: Seq<char>) -> Seq<char> {
    rendered(disk_usage_words(cwd))
}

/// The command line that gives the entry `old` of `cwd` the name `new`.
/// Both names are entries of `cwd`.
pub open spec fn rename_text(cwd: Seq<char>, old: Seq<char>, new: Seq<char>) -> Seq<char> {
    in_login_shell(rendered(move_within_words(cwd, below(old), below(new))))
}

/// The bare words of the commands are words that a shell reads as they
/// stand.
pub proof fn lemma_bare_words()
    ensures
        is_bare_word("sh"@),
        is_bare_word("-lc"@),
        is_bare_word("cd"@),
        is_bare_word("pwd"@),
        is_bare_word("ls"@),
        is_bare_word("-1"@),
        is_bare_word("mkdir"@),
        is_bare_word("-p"@),
        is_bare_word("mv"@),
        is_bare_word("rm"@),
        is_bare_word("-rf"@),
        is_bare_word("./*"@),
        is_bare_word("./.[!.]*"@),
        is_bare_word("./..?*"@),
        is_bare_word("df"@),
        is_bare_word("-h"@),
        is_bare_word("."@),
{
    reveal_strlit("sh");
    reveal_strlit("-lc");
    reveal_strlit("cd");
    reveal_strlit("pwd");
    reveal_strlit("ls");
    reveal_strlit("-1");
    reveal_strlit("mkdir");
    reveal_strlit("-p");
    reveal_strlit("mv");
    reveal_strlit("rm");
    reveal_strlit("-rf");
    reveal_strlit("./*");
    reveal_strlit("./.[!.]*");
    reveal_strlit("./..?*");
    reveal_strlit("df");
    reveal_strlit("-h");
    reveal_strlit(".");
}

/// The three patterns of the command that empties the trash are the
/// patterns `*`, `.[!.]*` and `..?*`, each behind `./`.
pub proof fn lemma_trash_patterns()
    ensures
        "./*"@ == below(written(plain_names())),
        "./.[!.]*"@ == below(written(dot_names())),
        "./..?*"@ == below(written(two_dot_names())),
{
    lemma_patterns_written();
    reveal_strlit("./*");
    reveal_strlit("./.[!.]*");
    reveal_strlit("./..?*");
    assert("./*"@ =~= below(written(plain_names())));
    assert("./.[!.]*"@ =~= below(written(dot_names())));
    assert("./..?*"@ =~= below(written(two_dot_names())));
}

/// Every command is a list of well-formed words, whatever paths and names
/// it is made for.
pub proof fn lemma_commands_well_formed(a: Seq<char>, b: Seq<char>, c: Seq<char>)
    ensures
        all_well_formed(login_shell_words(a)),
        all_well_formed(navigate_words(a)),
        all_well_formed(create_directory_words(a, b)),
        all_well_formed(move_words(a, b)),
        all_well_formed(move_within_words(a, b, c)),
        all_well_formed(remove_within_words(a, b)),
        all_well_formed(ensure_trash_words(a)),
        all_well_formed(empty_trash_words(a)),
        all_well_formed(disk_usage_words(a)),
{
    lemma_bare_words();
}

fn login_shell(inner: &str) -> (text: String)
    ensures
        text@ == in_login_shell(inner@),
{
    let words = vec![Word::Bare("sh"), Word::Bare("-lc"), Word::Quoted(inner)];
    assert(tokens(words@) =~= login_shell_words(inner@));
    render(&words)
}

fn entry(name: &str) -> (path: String)
    ensures
        path@ == below(name@),
{
    let mut path = String::from_str("./");
    path.append(name);
    proof {
        reveal_strlit("./");
        assert(path@ =~= below(name@));
    }
    path
}

fn move_within(dir: &str, source: &str, destination: &str) -> (text: String)
    ensures
        text@ == rendered(move_within_words(dir@, source@, destination@)),
{
    let words = vec![
        Word::Bare("cd"),
        Word::Quoted(dir),
        Word::AndThen,
        Word::Bare("mv"),
        Word::Quoted(source),
        Word::Quoted(destination),
    ];
    assert(tokens(words@) =~= move_within_words(dir@, source@, destination@));
    render(&words)
}

/// The command that enters `target` and lists it. Its output is read, and
/// its channel closed.
pub fn navigate_command(target: &str) -> (command: RemoteCommand)
    ensures
        command.text@ == navigate_text(target@),
        command.read_output,
        command.wait_close,
{
    let words = vec![
        Word::Bare("cd"),
        Word::Quoted(target),
        Word::AndThen,
        Word::Bare("pwd"),
        Word::AndThen,
        Word::Bare("ls"),
        Word::Bare("-1"),
    ];
    assert(tokens(words@) =~= navigate_words(target@));
    RemoteCommand { text: render(&words), read_output: true, wait_close: true }
}

/// The command that makes the directory `name` in `cwd`. The name is
/// handed to `mkdir` behind `./`.
pub fn create_directory_command(cwd: &str, name: &str) -> (command: RemoteCommand)
    ensures
        command.text@ == create_directory_text(cwd@, name@),
        !command.read_output,
        command.wait_close,
{
    let path = entry(name);
    let words = vec![
        Word::Bare("cd"),
        Word::Quoted(cwd),
        Word::AndThen,
        Word::Bare("mkdir"),
        Word::Quoted(path.as_str()),
    ];
    assert(tokens(words@) =~= create_directory_words(cwd@, name@));
    RemoteCommand { text: render(&words), read_output: false, wait_close: true }
}

/// The command that moves `source` to `destination`, both as they stand.
pub fn move_command(source: &str, destination: &str) -> (command: RemoteCommand)
    ensures
        command.text@ == move_text(source@, destination@),
        !command.read_output,
        command.wait_close,
{
    let words = vec![Word::Bare("mv"), Word::Quoted(source), Word::Quoted(destination)];
    assert(tokens(words@) =~= move_words(source@, destination@));
    let inner = render(&words);
    RemoteCommand { text: login_shell(inner.as_str()), read_output: false, wait_close: true }
}

/// The command that makes the trash directory unless it is there.
pub fn ensure_trash_command(trash: &str) -> (command: RemoteCommand)
    ensures
        command.text@ == ensure_trash_text(trash@),
        !command.read_output,
        command.wait_close,
{
    let words = vec![Word::Bare("mkdir"), Word::Bare("-p"), Word::Quoted(trash)];
    assert(tokens(words@) =~= ensure_trash_words(trash@));
    RemoteCommand { text: render(&words), read_output: false, wait_close: true }
}

/// The command that removes the entry `target` of the trash directory for
/// good. The name is handed to `rm` behind `./`.
pub fn purge_command(trash: &str, target: &str) -> (command: RemoteCommand)
    ensures
        command.text@ == purge_text(trash@, target@),
        !command.read_output,
        command.wait_close,
{
    let path = entry(target);
    let words = vec![
        Word::Bare("cd"),
        Word::Quoted(trash),
        Word::AndThen,
        Word::Bare("rm"),
        Word::Bare("-rf"),
        Word::Quoted(path.as_str()),
    ];
    assert(tokens(words@) =~= remove_within_words(trash@, target@));
    let inner = render(&words);
    RemoteCommand { text: login_shell(inner.as_str()), read_output: false, wait_close: true }
}

/// The command that moves `target` from `cwd` into the trash directory.
pub fn discard_command(cwd: &str, target: &str, trash: &str) -> (command: RemoteCommand)
    ensures
        command.text@ == discard_text(cwd@, target@, trash@),
        !command.read_output,
        command.wait_close,
{
    let mut source = String::from_str(cwd);
    source.append("/");
    source.append(target);
    proof {
        reveal_strlit("/");
        assert(source@ =~= cwd@ + seq!['/'] + target@);
    }
    let inner = move_within(cwd, source.as_str(), trash);
    RemoteCommand { text: login_shell(inner.as_str()), read_output: false, wait_close: true }
}

/// The command that empties the trash directory: it removes every entry
/// of it, those whose names begin with a dot too.
pub fn empty_trash_command(trash: &str) -> (command: RemoteCommand)
    ensures
        command.text@ == empty_trash_text(trash@),
        !command.read_output,
        command.wait_close,
{
    let words = vec![
        Word::Bare("cd"),
        Word::Quoted(trash),
        Word::AndThen,
        Word::Bare("rm"),
        Word::Bare("-rf"),
        Word::Bare("./*"),
        Word::Bare("./.[!.]*"),
        Word::Bare("./..?*"),
    ];
    assert(tokens(words@) =~= empty_trash_words(trash@));
    RemoteCommand { text: render(&words), read_output: false, wait_close: true }
}

/// The command that reports the space around `cwd`. Its output is read, and
/// its channel closed, so that its exit status is there to be read.
pub fn disk_usage_command(cwd: &str) -> (command: RemoteCommand)
    ensures
        command.text@ == disk_usage_text(cwd@),
        command.read_output,
        command.wait_close,
{
    let words = vec![
        Word::Bare("cd"),
        Word::Quoted(cwd),
        Word::AndThen,
        Word::Bare("df"),
        Word::Bare("-h"),
        Word::Bare("."),
    ];
    assert(tokens(words@) =~= disk_usage_words(cwd@));
    RemoteCommand { text: render(&words), read_output: true, wait_close: true }
}

/// The command that renames `old` to `new` in `cwd`. Both names are
/// handed to `mv` behind `./`: neither is read from the root, whatever it
/// begins with.
pub fn rename_command(cwd: &str, old: &str, new: &str) -> (command: RemoteCommand)
    ensures
        command.text@ == rename_text(cwd@, old@, new@),
        !command.read_output,
        command.wait_close,
{
    let from = entry(old);
    let to = entry(new);
    let inner = move_within(cwd, from.as_str(), to.as_str());
    RemoteCommand { text: login_shell(inner.as_str()), read_output: false, wait_close: true }
}

} // verus!
