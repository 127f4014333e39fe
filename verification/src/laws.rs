//! What holds of the service over more than one call.

use crate::command::{
    below, create_directory_words, disk_usage_words, empty_trash_words, ensure_trash_words,
    in_login_shell, lemma_commands_well_formed, lemma_trash_patterns, login_shell_words,
    move_within_words, move_words, navigate_words, remove_within_words,
};
use crate::config::ConnectionConfig;
use crate::outcome::{CommandReport, RemoteFailure};
use crate::path::{is_absolute, lemma_base_name_of_plain};
use crate::pattern::{
    dot_names, is_entry_name, lemma_patterns_name_every_entry, names, plain_names,
    two_dot_names, written,
};
use crate::quoting::quoted;
use crate::service::ServiceView;
use crate::text::{lemma_lines_of_nonempty, lines_of};
use crate::transfer::{download_source, upload_destination};
use crate::words::{
    and_then, lemma_rendered_reads_back, rendered, shell_words, values, Token,
};
use vstd::prelude::*;

verus! {

/// A service made for a configuration that names a host, a user and a port
/// has no session. Where the first connection succeeds, its session is
/// stored and stays the stored one whatever a later connection attempt
/// brings; where it fails, no session is stored.
pub proof fn law_session_is_reused_or_absent<S>(
    config: ConnectionConfig,
    first: Result<S, String>,
    later: Result<S, String>,
)
    requires
        config.valid(),
    ensures
        ServiceView::<S>::initial(config).session is None,
        first matches Ok(session) ==> {
            let live = ServiceView::<S>::initial(config).after_session(first);
            &&& live.session == Some(session)
            &&& live.after_session(later) == live
        },
        first is Err ==> ServiceView::<S>::initial(config).after_session(first).session is None,
{
}

/// A connection attempt changes neither the configuration nor the working
/// directory, and never replaces a live session.
pub proof fn law_session_attempt_keeps_the_rest<S>(
    state: ServiceView<S>,
    outcome: Result<S, String>,
)
    ensures
        state.after_session(outcome).config == state.config,
        state.after_session(outcome).cwd == state.cwd,
        state.session is Some ==> state.after_session(outcome) == state,
{
}

/// A change of configuration that fails, because the new configuration is
/// rejected or because the connection with it fails, leaves the stored
/// configuration, the live session and the working directory as they were.
pub proof fn law_failed_reconnect_changes_nothing<S>(
    state: ServiceView<S>,
    new_config: ConnectionConfig,
    outcome: Result<S, String>,
)
    requires
        !new_config.valid() || outcome is Err,
    ensures
        state.after_reconnect(new_config, outcome) == state,
{
}

/// A change of configuration that succeeds stores the new configuration
/// and the new session, and starts again from the new root directory.
pub proof fn law_reconnect_replaces_all<S>(
    state: ServiceView<S>,
    new_config: ConnectionConfig,
    session: S,
)
    requires
        new_config.valid(),
    ensures
        state.after_reconnect(new_config, Ok(session)) == ServiceView::<S>::initial(
            new_config,
        ).after_session(Ok(session)),
{
}

/// A navigation moves the working directory exactly where its command ran
/// and printed something, and then to the first line that it printed,
/// whatever status the command ended with. The path that was asked for
/// plays no part, and neither the configuration nor the session changes.
pub proof fn law_navigate_follows_report<S>(
    state: ServiceView<S>,
    outcome: Result<CommandReport, RemoteFailure>,
)
    ensures
        state.after_navigate(outcome).config == state.config,
        state.after_navigate(outcome).session == state.session,
        match outcome {
            Ok(report) if report.output@.len() > 0 => state.after_navigate(outcome).cwd
                == lines_of(report.output@)[0],
            _ => state.after_navigate(outcome) == state,
        },
{
    if let Ok(report) = outcome {
        lemma_lines_of_nonempty(report.output@);
    }
}

/// The names given to a creation, a removal from the trash and a renaming
/// reach `mkdir`, `rm` and `mv` behind `./`: none of them is an absolute
/// path, whatever it begins with, so each is read from the directory that
/// the command has entered.
pub proof fn law_entry_names_are_relative(dir: Seq<char>, name: Seq<char>, other: Seq<char>)
    ensures
        !is_absolute(below(name)),
        !is_absolute(below(other)),
        shell_words(rendered(create_directory_words(dir, name))) == Some(
            seq!["cd"@, dir, and_then(), "mkdir"@, below(name)],
        ),
        shell_words(rendered(remove_within_words(dir, name))) == Some(
            seq!["cd"@, dir, and_then(), "rm"@, "-rf"@, below(name)],
        ),
        shell_words(rendered(move_within_words(dir, below(name), below(other)))) == Some(
            seq!["cd"@, dir, and_then(), "mv"@, below(name), below(other)],
        ),
{
    lemma_commands_well_formed(dir, name, other);
    lemma_commands_well_formed(dir, below(name), below(other));
    lemma_rendered_reads_back(create_directory_words(dir, name));
    lemma_rendered_reads_back(remove_within_words(dir, name));
    lemma_rendered_reads_back(move_within_words(dir, below(name), below(other)));
    assert(values(create_directory_words(dir, name)) == seq![
        "cd"@,
        dir,
        and_then(),
        "mkdir"@,
        below(name),
    ]);
    assert(values(remove_within_words(dir, name)) == seq![
        "cd"@,
        dir,
        and_then(),
        "rm"@,
        "-rf"@,
        below(name),
    ]);
    assert(values(move_within_words(dir, below(name), below(other))) == seq![
        "cd"@,
        dir,
        and_then(),
        "mv"@,
        below(name),
        below(other),
    ]);
}

/// Outside the trash directory a delete moves its target into the trash
/// directory and removes nothing; in the trash directory it removes the
/// target for good.
pub proof fn law_delete_moves_or_removes<S>(state: ServiceView<S>, target: Seq<char>)
    ensures
        state.cwd != state.config.trash_dir@ ==> state.dispose_text(target) == in_login_shell(
            rendered(
                move_within_words(
                    state.cwd,
                    state.cwd + seq!['/'] + target,
                    state.config.trash_dir@,
                ),
            ),
        ),
        state.cwd == state.config.trash_dir@ ==> state.dispose_text(target) == in_login_shell(
            rendered(remove_within_words(state.config.trash_dir@, target)),
        ),
{
}

/// Emptying the trash works on the trash directory alone: two services with
/// the same trash directory empty it by the same command, wherever their
/// working directories are.
pub proof fn law_empty_trash_ignores_working_directory<S>(a: ServiceView<S>, b: ServiceView<S>)
    requires
        a.config.trash_dir@ == b.config.trash_dir@,
    ensures
        a.empty_trash_text() == b.empty_trash_text(),
{
}

/// Emptying the trash enters the trash directory and hands `rm` three
/// patterns. Between them they name every entry of the directory, those
/// whose names begin with a dot too, and they name neither the directory
/// itself nor the one above it.
pub proof fn law_empty_trash_names_every_entry(trash: Seq<char>, name: Seq<char>)
    ensures
        shell_words(rendered(empty_trash_words(trash))) == Some(
            seq![
                "cd"@,
                trash,
                and_then(),
                "rm"@,
                "-rf"@,
                below(written(plain_names())),
                below(written(dot_names())),
                below(written(two_dot_names())),
            ],
        ),
        is_entry_name(name) ==> names(plain_names(), name) || names(dot_names(), name) || names(
            two_dot_names(),
            name,
        ),
        name == seq!['.'] || name == seq!['.', '.'] ==> !names(plain_names(), name) && !names(
            dot_names(),
            name,
        ) && !names(two_dot_names(), name),
{
    lemma_commands_well_formed(trash, trash, trash);
    lemma_rendered_reads_back(empty_trash_words(trash));
    lemma_trash_patterns();
    lemma_patterns_name_every_entry(name);
    assert(values(empty_trash_words(trash)) == seq![
        "cd"@,
        trash,
        and_then(),
        "rm"@,
        "-rf"@,
        below(written(plain_names())),
        below(written(dot_names())),
        below(written(two_dot_names())),
    ]);
}

/// A file that is uploaded under a name without a separator is found again
/// by a download of the same name from the same working directory: both
/// name the same remote path.
pub proof fn law_upload_and_download_meet(cwd: Seq<char>, name: Seq<char>)
    requires
        forall|k: int| 0 <= k < name.len() ==> name[k] != '/',
    ensures
        upload_destination(cwd, name) == download_source(cwd, name),
{
    lemma_base_name_of_plain(name);
}

/// A quoted text is one word to the shell, and the word is the text,
/// whatever characters it holds.
pub proof fn law_quoted_is_one_word(text: Seq<char>)
    ensures
        shell_words(quoted(text)) == Some(seq![text]),
{
    let list = seq![Token::Quoted(text)];
    lemma_rendered_reads_back(list);
    assert(values(list) == seq![text]);
}

/// A shell reads from each command line the words that the command was
/// made of: no path and no name, whatever it holds, adds a word, ends one
/// or changes another.
pub proof fn law_command_lines_read_as_written(a: Seq<char>, b: Seq<char>, c: Seq<char>)
    ensures
        shell_words(rendered(navigate_words(a))) == Some(values(navigate_words(a))),
        shell_words(rendered(create_directory_words(a, b))) == Some(
            values(create_directory_words(a, b)),
        ),
        shell_words(rendered(move_words(a, b))) == Some(values(move_words(a, b))),
        shell_words(rendered(move_within_words(a, b, c))) == Some(
            values(move_within_words(a, b, c)),
        ),
        shell_words(rendered(remove_within_words(a, b))) == Some(
            values(remove_within_words(a, b)),
        ),
        shell_words(rendered(ensure_trash_words(a))) == Some(values(ensure_trash_words(a))),
        shell_words(rendered(empty_trash_words(a))) == Some(values(empty_trash_words(a))),
        shell_words(rendered(disk_usage_words(a))) == Some(values(disk_usage_words(a))),
{
    lemma_commands_well_formed(a, b, c);
    lemma_rendered_reads_back(navigate_words(a));
    lemma_rendered_reads_back(create_directory_words(a, b));
    lemma_rendered_reads_back(move_words(a, b));
    lemma_rendered_reads_back(move_within_words(a, b, c));
    lemma_rendered_reads_back(remove_within_words(a, b));
    lemma_rendered_reads_back(ensure_trash_words(a));
    lemma_rendered_reads_back(empty_trash_words(a));
    lemma_rendered_reads_back(disk_usage_words(a));
}

/// A command line that is handed to a login shell reaches it as it was
/// written: the shell that starts the login shell reads three words, and
/// the third is the line.
pub proof fn law_login_shell_gets_the_line(line: Seq<char>)
    ensures
        shell_words(in_login_shell(line)) == Some(seq!["sh"@, "-lc"@, line]),
{
    lemma_commands_well_formed(line, line, line);
    lemma_rendered_reads_back(login_shell_words(line));
    assert(values(login_shell_words(line)) == seq!["sh"@, "-lc"@, line]);
}

} // verus!
