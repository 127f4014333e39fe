//! Plans for moving bytes to and from the remote host, and what the outcome
//! of each transfer means.

use crate::error::ServiceError;
use crate::outcome::RemoteFailure;
use crate::path::{base_name, file_name, join, joined};
use crate::text::{decimal, decimal_text, push_char, texts};
use vstd::prelude::*;

verus! {

/// The permission bits of an uploaded file: read and write for the owner,
/// read for everyone else.
pub const UPLOAD_MODE: i32 = 0o644;

/// The number of bytes that a download reads at a time.
pub const CHUNK_SIZE: usize = 16384;

/// An upload: where the file goes, with which permission bits, and how many
/// bytes the channel is opened for.
#[derive(Debug, PartialEq, Eq)]
pub struct UploadPlan {
    pub remote_path: String,
    pub mode: i32,
    pub size: u64,
}

/// A download: which remote file is read, which local file is written, and
/// how many bytes are read at a time.
#[derive(Debug, PartialEq, Eq)]
pub struct DownloadPlan {
    pub remote_path: String,
    pub local_path: String,
    pub chunk_size: usize,
}

/// A program to run on this machine, with its arguments.
#[derive(Debug, PartialEq, Eq)]
pub struct ProcessPlan {
    pub program: String,
    pub arguments: Vec<String>,
}

/// What to do with the bytes that one read of a download returned.
#[derive(Debug, PartialEq, Eq)]
pub enum CopyStep {
    /// Write this many bytes from the start of the buffer, then read again.
    Write(usize),
    /// The stream has ended: stop.
    Finished,
}

/// How a download failed.
#[derive(Debug, PartialEq, Eq)]
pub enum DownloadFailure {
    /// The session is of no use any more.
    SessionLost(String),
    /// The remote file could not be opened.
    Open(String),
    /// Anything else: the local file, the channel, a read or a write.
    Other(String),
}

/// Where a download stood when the transport failed.
#[derive(Debug, PartialEq, Eq, Clone, Copy)]
pub enum DownloadStage {
    /// Opening the remote file.
    Opening,
    /// Anywhere else: before the file was opened, or while it was read.
    Elsewhere,
}

/// How the copying program ended.
#[derive(Debug, PartialEq, Eq)]
pub enum ProcessOutcome {
    /// The program could not be started.
    NotStarted(String),
    /// The program ran and exited; `status` is its exit status in words.
    Exited { success: bool, status: String },
}

/// Where an upload of `filename` goes: the file's base name, below `cwd`.
pub open spec fn upload_destination(cwd: Seq<char>, filename: Seq<char>) -> Seq<char> {
    joined(cwd, base_name(filename))
}

/// Where a download of `remote_name` reads from: the name, below `cwd`.
pub open spec fn download_source(cwd: Seq<char>, remote_name: Seq<char>) -> Seq<char> {
    joined(cwd, remote_name)
}

/// The remote side of a directory copy: the user, the host and the path.
pub open spec fn remote_location(
    username: Seq<char>,
    host: Seq<char>,
    path: Seq<char>,
) -> Seq<char> {
    username + seq!['@'] + host + seq![':'] + path
}

/// The arguments of a recursive copy of the remote `path` to `local_path`.
pub open spec fn directory_copy_arguments(
    username: Seq<char>,
    host: Seq<char>,
    port: u16,
    path: Seq<char>,
    local_path: Seq<char>,
) -> Seq<Seq<char>> {
    seq!["-P"@, decimal(port as nat), "-r"@, remote_location(username, host, path), local_path]
}

/// The cause reported when the remote file of a download cannot be opened.
pub open spec fn open_failure_text(path: Seq<char>, cause: Seq<char>) -> Seq<char> {
    "Failed to open remote file '"@ + path + "': "@ + cause
}

/// The cause reported when the copying program could not be started.
pub open spec fn not_started_text(cause: Seq<char>) -> Seq<char> {
    "could not start scp: "@ + cause
}

/// The cause reported when the copying program exited with a failure.
pub open spec fn exit_failure_text(status: Seq<char>) -> Seq<char> {
    "scp ended with an error: "@ + status
}

/// Plans the upload of `data` as `filename` into `cwd`. The channel is
/// opened for exactly the bytes of `data`.
pub fn plan_upload(cwd: &str, filename: &str, data: &[u8]) -> (plan: UploadPlan)
    ensures
        plan.remote_path@ == upload_destination(cwd@, filename@),
        plan.mode == UPLOAD_MODE,
        plan.size == data@.len(),
{
    let name = file_name(filename);
    UploadPlan {
        remote_path: join(cwd, name.as_str()),
        mode: UPLOAD_MODE,
        size: data.len() as u64,
    }
}

/// Plans the download of `remote_name` in `cwd` to `local_path`.
pub fn plan_download(cwd: &str, remote_name: &str, local_path: String) -> (plan: DownloadPlan)
    ensures
        plan.remote_path@ == download_source(cwd@, remote_name@),
        plan.local_path == local_path,
        plan.chunk_size == CHUNK_SIZE,
{
    DownloadPlan { remote_path: join(cwd, remote_name), local_path, chunk_size: CHUNK_SIZE }
}

/// Plans the recursive copy of the remote directory `folder` in `cwd` to
/// `local_path`, by the program `scp`.
pub fn plan_directory_copy(
    username: &str,
    host: &str,
    port: u16,
    cwd: &str,
    folder: &str,
    local_path: String,
) -> (plan: ProcessPlan)
    ensures
        plan.program@ == "scp"@,
        texts(plan.arguments@) == directory_copy_arguments(
            username@,
            host@,
            port,
            joined(cwd@, folder@),
            local_path@,
        ),
{
    let path = join(cwd, folder);
    let mut remote = String::from_str(username);
    push_char(&mut remote, '@');
    remote.append(host);
    push_char(&mut remote, ':');
    remote.append(path.as_str());
    assert(remote@ =~= remote_location(username@, host@, path@));
    let mut arguments: Vec<String> = Vec::new();
    arguments.push(String::from_str("-P"));
    arguments.push(decimal_text(port as u64));
    arguments.push(String::from_str("-r"));
    arguments.push(remote);
    arguments.push(local_path);
    assert(texts(arguments@) =~= directory_copy_arguments(
        username@,
        host@,
        port,
        path@,
        local_path@,
    ));
    ProcessPlan { program: String::from_str("scp"), arguments }
}

/// Decides what follows a read that returned `read` bytes: a read of
/// nothing ends the download, anything else is written out.
pub fn copy_step(read: usize) -> (step: CopyStep)
    ensures
        step == (if read == 0 {
            CopyStep::Finished
        } else {
            CopyStep::Write(read)
        }),
{
    if read == 0 {
        CopyStep::Finished
    } else {
        CopyStep::Write(read)
    }
}

/// Says how a download failed, from what the transport reported and where
/// the download stood. A lost session is a lost session wherever it shows;
/// any other failure is one of opening the remote file where it came from
/// that, and one of the rest elsewhere.
pub fn download_failure(failure: RemoteFailure, stage: DownloadStage) -> (result: DownloadFailure)
    ensures
        result == (match failure {
            RemoteFailure::SessionLost(cause) => DownloadFailure::SessionLost(cause),
            RemoteFailure::Failed(cause) => match stage {
                DownloadStage::Opening => DownloadFailure::Open(cause),
                DownloadStage::Elsewhere => DownloadFailure::Other(cause),
            },
        }),
{
    match failure {
        RemoteFailure::SessionLost(cause) => DownloadFailure::SessionLost(cause),
        RemoteFailure::Failed(cause) => match stage {
            DownloadStage::Opening => DownloadFailure::Open(cause),
            DownloadStage::Elsewhere => DownloadFailure::Other(cause),
        },
    }
}

/// The result of an upload. A lost session is an error of the connection,
/// any other failure one of the transfer; the cause is kept word for word.
pub fn upload_result(outcome: Result<(), RemoteFailure>) -> (result: Result<(), ServiceError>)
    ensures
        result == (match outcome {
            Ok(()) => Ok::<(), ServiceError>(()),
            Err(RemoteFailure::SessionLost(cause)) => Err(ServiceError::Connection(cause)),
            Err(RemoteFailure::Failed(cause)) => Err(ServiceError::Transfer(cause)),
        }),
{
    match outcome {
        Ok(()) => Ok(()),
        Err(RemoteFailure::SessionLost(cause)) => Err(ServiceError::Connection(cause)),
        Err(RemoteFailure::Failed(cause)) => Err(ServiceError::Transfer(cause)),
    }
}

/// The result of a download. A lost session is an error of the
/// connection. A remote file that could not be opened is reported with the
/// path that was tried; any other cause is kept word for word.
pub fn download_result(plan: &DownloadPlan, outcome: Result<(), DownloadFailure>) -> (result:
    Result<(), ServiceError>)
    ensures
        match outcome {
            Ok(()) => result is Ok,
            Err(DownloadFailure::SessionLost(cause)) => result == Err::<(), ServiceError>(
                ServiceError::Connection(cause),
            ),
            Err(DownloadFailure::Open(cause)) => result matches Err(ServiceError::Transfer(text))
                && text@ == open_failure_text(plan.remote_path@, cause@),
            Err(DownloadFailure::Other(cause)) => result == Err::<(), ServiceError>(
                ServiceError::Transfer(cause),
            ),
        },
{
    match outcome {
        Ok(()) => Ok(()),
        Err(DownloadFailure::SessionLost(cause)) => Err(ServiceError::Connection(cause)),
        Err(DownloadFailure::Open(cause)) => {
            let mut text = String::from_str("Failed to open remote file '");
            text.append(plan.remote_path.as_str());
            text.append("': ");
            text.append(cause.as_str());
            Err(ServiceError::Transfer(text))
        },
        Err(DownloadFailure::Other(cause)) => Err(ServiceError::Transfer(cause)),
    }
}

/// The result of a directory copy, which is that of the program alone: it
/// succeeded where the program ran and reported success.
pub fn directory_copy_result(outcome: ProcessOutcome) -> (result: Result<(), ServiceError>)
    ensures
        match outcome {
            ProcessOutcome::Exited { success, status } => if success {
                result is Ok
            } else {
                result matches Err(ServiceError::Transfer(text)) && text@ == exit_failure_text(
                    status@,
                )
            },
            ProcessOutcome::NotStarted(cause) => result matches Err(ServiceError::Transfer(text))
                && text@ == not_started_text(cause@),
        },
{
    match outcome {
        ProcessOutcome::Exited { success, status } => {
            if success {
                Ok(())
            } else {
                let mut text = String::from_str("scp ended with an error: ");
                text.append(status.as_str());
                Err(ServiceError::Transfer(text))
            }
        },
        ProcessOutcome::NotStarted(cause) => {
            let mut text = String::from_str("could not start scp: ");
            text.append(cause.as_str());
            Err(ServiceError::Transfer(text))
        },
    }
}

} // verus!
