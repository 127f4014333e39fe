//! The errors of the service.

use vstd::prelude::*;

verus! {

/// Why an operation of the service failed. A cause that the transport
/// gave is carried word for word. Where a command ran and ended with a
/// status other than 0, `RemoteCommand` carries a text of this crate that
/// names the status; where a remote file could not be opened or the copying
/// program failed, `Transfer` carries a text of this crate around the
/// cause.
#[derive(Debug, PartialEq, Eq)]
pub enum ServiceError {
    /// The configuration names no host, no user or no port.
    ConfigRejected,
    /// No session could be opened or authenticated.
    Connection(String),
    /// A command on the remote host failed.
    RemoteCommand(String),
    /// A transfer to or from the remote host failed.
    Transfer(String),
}

impl ServiceError {
    /// The text shown for this error.
    pub open spec fn message_text(self) -> Seq<char> {
        match self {
            ServiceError::ConfigRejected => "host, port and user name are required"@,
            ServiceError::Connection(cause) => cause@,
            ServiceError::RemoteCommand(cause) => cause@,
            ServiceError::Transfer(cause) => cause@,
        }
    }

    /// The text to show for this error: the cause, word for word.
    pub fn message(&self) -> (text: String)
        ensures
            text@ == self.message_text(),
    {
        match self {
            ServiceError::ConfigRejected => String::from_str(
                "host, port and user name are required",
            ),
            ServiceError::Connection(cause) => cause.clone(),
            ServiceError::RemoteCommand(cause) => cause.clone(),
            ServiceError::Transfer(cause) => cause.clone(),
        }
    }
}

} // verus!
