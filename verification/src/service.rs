//! The service: the stored configuration, the one live session and the
//! working directory, and what each file operation asks of the remote host.
//!
//! The service never talks to the network. It says what has to be done, the
//! caller does it and hands the outcome back, and the service says what the
//! outcome means for its state. One service is meant to stand behind one
//! lock: nothing here spans two calls.

use crate::command::{
    create_directory_command, create_directory_text, discard_command, discard_text,
    disk_usage_command, disk_usage_text, empty_trash_command, empty_trash_text,
    ensure_trash_command, ensure_trash_text, move_command, move_text, navigate_command,
    navigate_text, purge_command, purge_text, rename_command, rename_text, RemoteCommand,
};
use crate::config::{ConnectRequest, ConnectionConfig};
use crate::error::ServiceError;
use crate::outcome::{
    command_result, failure_error, is_failure_of, status_error, succeeded, CommandReport,
    RemoteFailure,
};
use crate::path::{joined, resolve, resolved};
use crate::text::{lemma_lines_of_nonempty, lines_of, split_lines, texts};
use crate::transfer::{
    directory_copy_arguments, download_source, plan_directory_copy, plan_download, plan_upload,
    upload_destination, DownloadPlan, ProcessPlan, UploadPlan, CHUNK_SIZE, UPLOAD_MODE,
};
use vstd::prelude::*;

verus! {

/// The directory that the service counts as current. It is plain state: the
/// remote shell alone knows which paths exist.
pub struct WorkingDirectory {
    path: String,
}

impl View for WorkingDirectory {
    type V = Seq<char>;

    closed spec fn view(&self) -> Seq<char> {
        self.path@
    }
}

impl WorkingDirectory {
    /// A tracker that starts at `root`.
    pub fn new(root: &str) -> (tracker: WorkingDirectory)
        ensures
            tracker@ == root@,
    {
        WorkingDirectory { path: String::from_str(root) }
    }

    /// The current directory.
    pub fn current(&self) -> (path: &str)
        ensures
            path@ == self@,
    {
        self.path.as_str()
    }

    /// Makes `path` the current directory. This is for a path that the
    /// remote host has reported after a change of directory.
    pub fn set(&mut self, path: String)
        ensures
            final(self)@ == path@,
    {
        self.path = path;
    }
}

/// What the service holds, as contracts see it.
pub struct ServiceView<S> {
    pub config: ConnectionConfig,
    pub session: Option<S>,
    pub cwd: Seq<char>,
}

impl<S> ServiceView<S> {
    /// The state of a service that was just made: no session, and the root
    /// directory as working directory.
    pub open spec fn initial(config: ConnectionConfig) -> ServiceView<S> {
        ServiceView { config, session: None, cwd: config.root_dir@ }
    }

    /// The state after a connection attempt ended with `outcome`: a new
    /// session is kept where none is live.
    pub open spec fn after_session(self, outcome: Result<S, String>) -> ServiceView<S> {
        match outcome {
            Ok(session) if self.session is None => ServiceView {
                session: Some(session),
                ..self
            },
            _ => self,
        }
    }

    /// The state after a connection attempt with `new_config` ended with
    /// `outcome`: a valid configuration that connected takes the place of
    /// the old one, with its session and its root directory.
    pub open spec fn after_reconnect(
        self,
        new_config: ConnectionConfig,
        outcome: Result<S, String>,
    ) -> ServiceView<S> {
        match outcome {
            Ok(session) if new_config.valid() => ServiceView {
                config: new_config,
                session: Some(session),
                cwd: new_config.root_dir@,
            },
            _ => self,
        }
    }

    /// Whether a delete removes its target for good: it does in the trash
    /// directory, and nowhere else.
    pub open spec fn deletes_for_good(self) -> bool {
        self.cwd == self.config.trash_dir@
    }

    /// The command by which a delete disposes of `target`.
    pub open spec fn dispose_text(self, target: Seq<char>) -> Seq<char> {
        if self.deletes_for_good() {
            purge_text(self.config.trash_dir@, target)
        } else {
            discard_text(self.cwd, target, self.config.trash_dir@)
        }
    }

    /// The command that empties the trash directory.
    pub open spec fn empty_trash_text(self) -> Seq<char> {
        empty_trash_text(self.config.trash_dir@)
    }

    /// The state after a navigation ended with `outcome`: where the
    /// command ran and printed something, the first line that it printed
    /// becomes the working directory.
    pub open spec fn after_navigate(
        self,
        outcome: Result<CommandReport, RemoteFailure>,
    ) -> ServiceView<S> {
        match outcome {
            Ok(report) if lines_of(report.output@).len() > 0 => ServiceView {
                cwd: lines_of(report.output@)[0],
                ..self
            },
            _ => self,
        }
    }
}

/// What has to happen before the session can be used.
#[derive(Debug, PartialEq, Eq)]
pub enum SessionStep {
    /// A session is live: use it.
    Reuse,
    /// No session is live: connect with this request and hand the outcome
    /// to `finish_session`.
    Connect(ConnectRequest),
}

/// The two commands of a delete. The first is run, and its outcome handed
/// to `dispose_after`, which gives out the second.
#[derive(Debug, PartialEq, Eq)]
pub struct DeletePlan {
    /// Makes the trash directory unless it is there.
    pub ensure_trash: RemoteCommand,
    /// Disposes of the target.
    pub dispose: RemoteCommand,
    /// Whether the target is removed for good rather than moved to the trash.
    pub permanent: bool,
}

/// Whether a navigation has something to give back: its command ran, and it
/// printed something or ended with status 0.
pub open spec fn navigated(outcome: Result<CommandReport, RemoteFailure>) -> bool {
    outcome matches Ok(report) && (report.output@.len() > 0 || report.status == 0)
}

/// What a navigation gives back: a path, and the listing below it.
pub open spec fn navigate_listing(
    target: Seq<char>,
    output: Seq<char>,
    path: Seq<char>,
    entries: Seq<Seq<char>>,
) -> bool {
    let lines = lines_of(output);
    if lines.len() > 0 {
        path == lines[0] && entries == lines.skip(1)
    } else {
        path == target && entries == Seq::<Seq<char>>::empty()
    }
}

/// The session manager of one remote host. `S` is the session as the
/// transport hands it out.
pub struct Service<S> {
    config: ConnectionConfig,
    session: Option<S>,
    cwd: WorkingDirectory,
}

impl<S> View for Service<S> {
    type V = ServiceView<S>;

    closed spec fn view(&self) -> ServiceView<S> {
        ServiceView { config: self.config, session: self.session, cwd: self.cwd@ }
    }
}

impl<S> Service<S> {
    /// A service for `config`, with no session yet. The working directory
    /// is the root directory of `config`. A configuration that is not valid
    /// is held too, so that it can be shown and corrected, but nothing is
    /// asked of the network with it: `ensure_session` and
    /// `download_directory` reject it.
    pub fn new(config: ConnectionConfig) -> (service: Service<S>)
        ensures
            service@ == ServiceView::<S>::initial(config),
    {
        let cwd = WorkingDirectory::new(config.root_dir.as_str());
        Service { config, session: None, cwd }
    }

    /// The stored configuration.
    pub fn get_settings(&self) -> (config: &ConnectionConfig)
        ensures
            *config == self@.config,
    {
        &self.config
    }

    /// The working directory.
    pub fn current_dir(&self) -> (path: &str)
        ensures
            path@ == self@.cwd,
    {
        self.cwd.current()
    }

    /// The live session, if there is one.
    pub fn session(&self) -> (session: Option<&S>)
        ensures
            match session {
                Some(live) => self@.session == Some(*live),
                None => self@.session is None,
            },
    {
        self.session.as_ref()
    }

    /// Says what has to happen before the session can be used: nothing
    /// where one is live, else a connection with the stored configuration.
    /// No connection is asked for with a configuration that is not valid.
    pub fn ensure_session(&self) -> (step: Result<SessionStep, ServiceError>)
        ensures
            match step {
                Ok(SessionStep::Reuse) => self@.session is Some,
                Ok(SessionStep::Connect(request)) => self@.session is None
                    && self@.config.valid() && self@.config.requests(&request),
                Err(error) => self@.session is None && !self@.config.valid() && error
                    == ServiceError::ConfigRejected,
            },
    {
        if self.session.is_some() {
            Ok(SessionStep::Reuse)
        } else if self.config.is_valid() {
            Ok(SessionStep::Connect(self.config.connect_request()))
        } else {
            Err(ServiceError::ConfigRejected)
        }
    }

    /// Takes the outcome of the connection that `ensure_session` asked for.
    /// A new session is stored where none is live; one that is live stays.
    /// A failure is reported with its cause and changes nothing.
    pub fn finish_session(&mut self, outcome: Result<S, String>) -> (result: Result<
        (),
        ServiceError,
    >)
        ensures
            final(self)@ == old(self)@.after_session(outcome),
            result == (match outcome {
                Ok(_) => Ok::<(), ServiceError>(()),
                Err(cause) => Err(ServiceError::Connection(cause)),
            }),
            outcome is Err ==> *final(self) == *old(self),
    {
        match outcome {
            Ok(session) => {
                if self.session.is_none() {
                    self.session = Some(session);
                }
                Ok(())
            },
            Err(cause) => Err(ServiceError::Connection(cause)),
        }
    }

    /// Says how to try a new configuration: with a connection of its own,
    /// made before anything stored is touched. A configuration that is not
    /// valid is rejected.
    pub fn reconnect(&self, new_config: &ConnectionConfig) -> (result: Result<
        ConnectRequest,
        ServiceError,
    >)
        ensures
            match result {
                Ok(request) => new_config.valid() && new_config.requests(&request),
                Err(error) => !new_config.valid() && error == ServiceError::ConfigRejected,
            },
    {
        if new_config.is_valid() {
            Ok(new_config.connect_request())
        } else {
            Err(ServiceError::ConfigRejected)
        }
    }

    /// Takes the outcome of the connection that `reconnect` asked for. On
    /// success the new configuration and the new session replace the old
    /// ones together, and the working directory goes back to the new root
    /// directory. On failure nothing changes, and the cause is reported as
    /// it came.
    pub fn finish_reconnect(
        &mut self,
        new_config: ConnectionConfig,
        outcome: Result<S, String>,
    ) -> (result: Result<(), ServiceError>)
        ensures
            final(self)@ == old(self)@.after_reconnect(new_config, outcome),
            result == (if !new_config.valid() {
                Err::<(), ServiceError>(ServiceError::ConfigRejected)
            } else {
                match outcome {
                    Ok(_) => Ok::<(), ServiceError>(()),
                    Err(cause) => Err(ServiceError::Connection(cause)),
                }
            }),
            result is Err ==> *final(self) == *old(self),
    {
        if !new_config.is_valid() {
            return Err(ServiceError::ConfigRejected);
        }
        match outcome {
            Ok(session) => {
                self.cwd.set(new_config.root_dir.clone());
                self.config = new_config;
                self.session = Some(session);
                Ok(())
            },
            Err(cause) => Err(ServiceError::Connection(cause)),
        }
    }

    /// The command that enters `target` and lists it.
    pub fn navigate(&self, target: &str) -> (command: RemoteCommand)
        ensures
            command.text@ == navigate_text(target@),
            command.read_output,
            command.wait_close,
    {
        navigate_command(target)
    }

    /// Takes the outcome of the command of `navigate`. Where the command
    /// printed something, the first line is the path that the remote host
    /// reports: it becomes the working directory and is handed back with
    /// the lines after it, which are the entries in the order of the
    /// listing. Where the command printed nothing and ended with status 0,
    /// `target` is handed back with no entries and the working directory
    /// stays. Where the command could not be run, or printed nothing and
    /// ended with another status, as it does for a path that is not there
    /// or cannot be entered, the error is reported and nothing changes.
    pub fn finish_navigate(
        &mut self,
        target: &str,
        outcome: Result<CommandReport, RemoteFailure>,
    ) -> (result: Result<(String, Vec<String>), ServiceError>)
        ensures
            final(self)@ == old(self)@.after_navigate(outcome),
            match result {
                Ok((path, entries)) => navigated(outcome) && navigate_listing(
                    target@,
                    outcome->Ok_0.output@,
                    path@,
                    texts(entries@),
                ),
                Err(error) => !navigated(outcome) && is_failure_of(outcome, error) && *final(self)
                    == *old(self),
            },
    {
        match outcome {
            Ok(report) => {
                proof {
                    lemma_lines_of_nonempty(report.output@);
                }
                let mut lines = split_lines(report.output.as_str());
                if lines.len() > 0 {
                    let ghost all = lines@;
                    let path = lines.remove(0);
                    proof {
                        assert(texts(all)[0] == path@);
                        assert(texts(lines@) =~= texts(all).skip(1));
                    }
                    self.cwd.set(path.clone());
                    Ok((path, lines))
                } else if report.status == 0 {
                    proof {
                        assert(texts(lines@) =~= Seq::<Seq<char>>::empty());
                    }
                    Ok((String::from_str(target), lines))
                } else {
                    Err(status_error(report.status))
                }
            },
            Err(failure) => Err(failure_error(failure)),
        }
    }

    /// The command that makes the directory `name` in the working directory.
    /// The name is taken as an entry of it, whatever it begins with.
    pub fn create_directory(&self, name: &str) -> (command: RemoteCommand)
        ensures
            command.text@ == create_directory_text(self@.cwd, name@),
            !command.read_output,
            command.wait_close,
    {
        create_directory_command(self.cwd.current(), name)
    }

    /// The command that moves `source` to `destination`. Each of the two is
    /// taken as it stands where it begins with the separator, else below the
    /// working directory.
    pub fn move_entry(&self, source: &str, destination: &str) -> (command: RemoteCommand)
        ensures
            command.text@ == move_text(
                resolved(self@.cwd, source@),
                resolved(self@.cwd, destination@),
            ),
            !command.read_output,
            command.wait_close,
    {
        let cwd = self.cwd.current();
        let from = resolve(cwd, source);
        let to = resolve(cwd, destination);
        move_command(from.as_str(), to.as_str())
    }

    /// The commands that delete the entry `target` of the working directory.
    /// In the trash directory the target is removed for good; anywhere else
    /// it is moved into the trash directory, and nothing is removed.
    pub fn delete(&self, target: &str) -> (plan: DeletePlan)
        ensures
            plan.ensure_trash.text@ == ensure_trash_text(self@.config.trash_dir@),
            !plan.ensure_trash.read_output,
            plan.ensure_trash.wait_close,
            plan.permanent == self@.deletes_for_good(),
            plan.dispose.text@ == self@.dispose_text(target@),
            !plan.dispose.read_output,
            plan.dispose.wait_close,
    {
        let trash = self.config.trash_dir.as_str();
        let cwd = self.cwd.current();
        let ensure_trash = ensure_trash_command(trash);
        let permanent = self.cwd.path == self.config.trash_dir;
        let dispose = if permanent {
            purge_command(trash, target)
        } else {
            discard_command(cwd, target, trash)
        };
        DeletePlan { ensure_trash, dispose, permanent }
    }

    /// Takes the outcome of the first command of a delete and gives out the
    /// second. Where the trash directory could not be made sure of, the
    /// target is neither moved nor removed: the error is all there is.
    pub fn dispose_after(plan: DeletePlan, ensured: Result<CommandReport, RemoteFailure>) -> (next:
        Result<RemoteCommand, ServiceError>)
        ensures
            match next {
                Ok(command) => succeeded(ensured) && command == plan.dispose,
                Err(error) => !succeeded(ensured) && is_failure_of(ensured, error),
            },
    {
        match command_result(ensured) {
            Ok(()) => Ok(plan.dispose),
            Err(error) => Err(error),
        }
    }

    /// The command that empties the trash directory, wherever the working
    /// directory is.
    pub fn empty_trash(&self) -> (command: RemoteCommand)
        ensures
            command.text@ == self@.empty_trash_text(),
            !command.read_output,
            command.wait_close,
    {
        empty_trash_command(self.config.trash_dir.as_str())
    }

    /// The command that reports the space around the working directory.
    pub fn disk_usage(&self) -> (command: RemoteCommand)
        ensures
            command.text@ == disk_usage_text(self@.cwd),
            command.read_output,
            command.wait_close,
    {
        disk_usage_command(self.cwd.current())
    }

    /// The command that renames `old` to `new` in the working directory.
    /// Both names are taken as entries of it, whatever they begin with.
    pub fn rename(&self, old: &str, new: &str) -> (command: RemoteCommand)
        ensures
            command.text@ == rename_text(self@.cwd, old@, new@),
            !command.read_output,
            command.wait_close,
    {
        rename_command(self.cwd.current(), old, new)
    }

    /// The plan of an upload of `data` as `filename` into the working
    /// directory.
    pub fn upload(&self, filename: &str, data: &[u8]) -> (plan: UploadPlan)
        ensures
            plan.remote_path@ == upload_destination(self@.cwd, filename@),
            plan.mode == UPLOAD_MODE,
            plan.size == data@.len(),
    {
        plan_upload(self.cwd.current(), filename, data)
    }

    /// The plan of a download of `remote_name` in the working directory to
    /// `local_path`.
    pub fn download(&self, remote_name: &str, local_path: String) -> (plan: DownloadPlan)
        ensures
            plan.remote_path@ == download_source(self@.cwd, remote_name@),
            plan.local_path == local_path,
            plan.chunk_size == CHUNK_SIZE,
    {
        plan_download(self.cwd.current(), remote_name, local_path)
    }

    /// The plan of a recursive copy of the directory `folder` in the working
    /// directory to `local_path`. The copy is made by a program of its own,
    /// with the stored host, port and user, and not over the live session.
    /// No copy is planned with a configuration that is not valid.
    pub fn download_directory(&self, folder: &str, local_path: String) -> (result: Result<
        ProcessPlan,
        ServiceError,
    >)
        ensures
            match result {
                Ok(plan) => self@.config.valid() && plan.program@ == "scp"@ && texts(
                    plan.arguments@,
                ) == directory_copy_arguments(
                    self@.config.username@,
                    self@.config.host@,
                    self@.config.port,
                    joined(self@.cwd, folder@),
                    local_path@,
                ),
                Err(error) => !self@.config.valid() && error == ServiceError::ConfigRejected,
            },
    {
        if !self.config.is_valid() {
            return Err(ServiceError::ConfigRejected);
        }
        Ok(
            plan_directory_copy(
                self.config.username.as_str(),
                self.config.host.as_str(),
                self.config.port,
                self.cwd.current(),
                folder,
                local_path,
            ),
        )
    }
}

} // verus!
