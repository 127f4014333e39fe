//! What the transport reports of a command, and what the report means.

use crate::error::ServiceError;
use crate::text::{signed_decimal, signed_decimal_text};
use vstd::prelude::*;

verus! {

/// What came back from a command that ran: its exit status, and what it
/// printed where that was read.
#[derive(Debug, PartialEq, Eq)]
pub struct CommandReport {
    pub status: i32,
    pub output: String,
}

/// Why the transport could not carry something out.
#[derive(Debug, PartialEq, Eq)]
pub enum RemoteFailure {
    /// The session is of no use any more: the connection below it is gone.
    SessionLost(String),
    /// The session works, and the command or the transfer failed on it.
    Failed(String),
}

/// Whether an error code of the SSH library says that the connection
/// itself failed: a send or a receive on the socket, a disconnect, a
/// timeout of the socket, or a socket that is no good.
pub open spec fn is_socket_failure(code: int) -> bool {
    code == -7 || code == -13 || code == -30 || code == -43 || code == -45
}

/// The cause reported for a command that ended with a status other than 0.
pub open spec fn status_failure_text(status: i32) -> Seq<char> {
    "the remote command ended with status "@ + signed_decimal(status as int)
}

/// Whether a command ran and succeeded: it came back with status 0.
pub open spec fn succeeded(outcome: Result<CommandReport, RemoteFailure>) -> bool {
    outcome matches Ok(report) && report.status == 0
}

/// Whether `error` is the error of a command that did not succeed. A lost
/// session is an error of the connection. A command that could not be
/// run, or that ran and ended with a status other than 0, is an error of
/// the command.
pub open spec fn is_failure_of(
    outcome: Result<CommandReport, RemoteFailure>,
    error: ServiceError,
) -> bool {
    match outcome {
        Ok(report) => report.status != 0 && (error matches ServiceError::RemoteCommand(text)
            && text@ == status_failure_text(report.status)),
        Err(RemoteFailure::SessionLost(cause)) => error == ServiceError::Connection(cause),
        Err(RemoteFailure::Failed(cause)) => error == ServiceError::RemoteCommand(cause),
    }
}

/// Sorts a failure of the transport by the error code of the SSH library,
/// where the failure has one.
pub fn classify_failure(code: Option<i32>, cause: String) -> (failure: RemoteFailure)
    ensures
        failure == (if code matches Some(c) && is_socket_failure(c as int) {
            RemoteFailure::SessionLost(cause)
        } else {
            RemoteFailure::Failed(cause)
        }),
{
    match code {
        Some(c) => {
            if c == -7 || c == -13 || c == -30 || c == -43 || c == -45 {
                RemoteFailure::SessionLost(cause)
            } else {
                RemoteFailure::Failed(cause)
            }
        },
        None => RemoteFailure::Failed(cause),
    }
}

/// The error of a command that ran and ended with `status`.
pub fn status_error(status: i32) -> (error: ServiceError)
    ensures
        error matches ServiceError::RemoteCommand(text) && text@ == status_failure_text(status),
{
    let mut text = String::from_str("the remote command ended with status ");
    let number = signed_decimal_text(status);
    text.append(number.as_str());
    ServiceError::RemoteCommand(text)
}

/// The error of a command that the transport could not carry out: one of
/// the connection where the session is lost, else one of the command, with
/// the cause word for word.
pub fn failure_error(failure: RemoteFailure) -> (error: ServiceError)
    ensures
        error == (match failure {
            RemoteFailure::SessionLost(cause) => ServiceError::Connection(cause),
            RemoteFailure::Failed(cause) => ServiceError::RemoteCommand(cause),
        }),
{
    match failure {
        RemoteFailure::SessionLost(cause) => ServiceError::Connection(cause),
        RemoteFailure::Failed(cause) => ServiceError::RemoteCommand(cause),
    }
}

/// The result of a command whose output is the answer, such as the report
/// on disk usage: the output as it came where the command succeeded, else
/// the error.
pub fn output_result(outcome: Result<CommandReport, RemoteFailure>) -> (result: Result<
    String,
    ServiceError,
>)
    ensures
        match result {
            Ok(output) => succeeded(outcome) && output == outcome->Ok_0.output,
            Err(error) => !succeeded(outcome) && is_failure_of(outcome, error),
        },
{
    match outcome {
        Ok(report) => {
            if report.status == 0 {
                Ok(report.output)
            } else {
                Err(status_error(report.status))
            }
        },
        Err(failure) => Err(failure_error(failure)),
    }
}

/// The result of a command that is run for what it does: nothing where it
/// succeeded, else the error.
pub fn command_result(outcome: Result<CommandReport, RemoteFailure>) -> (result: Result<
    (),
    ServiceError,
>)
    ensures
        match result {
            Ok(()) => succeeded(outcome),
            Err(error) => !succeeded(outcome) && is_failure_of(outcome, error),
        },
{
    match output_result(outcome) {
        Ok(_) => Ok(()),
        Err(error) => Err(error),
    }
}

} // verus!
