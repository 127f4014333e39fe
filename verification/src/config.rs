//! The connection settings and what a connection attempt is made with.

use crate::text::{decimal, decimal_text, push_char};
use vstd::prelude::*;

verus! {

/// Where the remote host is, how to log in, and the two remote directories
/// that the service knows by name.
#[derive(Debug, PartialEq, Eq)]
pub struct ConnectionConfig {
    pub host: String,
    pub port: u16,
    pub username: String,
    pub password: String,
    pub root_dir: String,
    pub trash_dir: String,
}

/// What a connection attempt needs: the address to dial and the login.
#[derive(Debug, PartialEq, Eq)]
pub struct ConnectRequest {
    pub address: String,
    pub username: String,
    pub password: String,
}

/// The address of a host and port: the host, a colon, the port in decimal.
pub open spec fn address_text(host: Seq<char>, port: u16) -> Seq<char> {
    host + seq![':'] + decimal(port as nat)
}

impl ConnectionConfig {
    /// A configuration can be used where it names a host, a user and a
    /// port. Any other configuration is rejected wherever one is about to be
    /// used. The two directories are taken as they stand.
    pub open spec fn valid(&self) -> bool {
        self.host@.len() > 0 && self.port != 0 && self.username@.len() > 0
    }

    /// The request that a connection attempt with this configuration makes.
    pub open spec fn requests(&self, request: &ConnectRequest) -> bool {
        &&& request.address@ == address_text(self.host@, self.port)
        &&& request.username@ == self.username@
        &&& request.password@ == self.password@
    }

    /// Tells whether the configuration names a host, a user and a port.
    pub fn is_valid(&self) -> (ok: bool)
        ensures
            ok == self.valid(),
    {
        !self.host.as_str().is_empty() && self.port != 0 && !self.username.as_str().is_empty()
    }

    /// A copy of this configuration.
    pub fn duplicate(&self) -> (copy: ConnectionConfig)
        ensures
            copy == *self,
    {
        ConnectionConfig {
            host: self.host.clone(),
            port: self.port,
            username: self.username.clone(),
            password: self.password.clone(),
            root_dir: self.root_dir.clone(),
            trash_dir: self.trash_dir.clone(),
        }
    }

    /// This configuration with another host, port and login; the two remote
    /// directories stay.
    pub fn with_credentials(
        &self,
        host: String,
        port: u16,
        username: String,
        password: String,
    ) -> (trial: ConnectionConfig)
        ensures
            trial.host == host,
            trial.port == port,
            trial.username == username,
            trial.password == password,
            trial.root_dir == self.root_dir,
            trial.trash_dir == self.trash_dir,
    {
        ConnectionConfig {
            host,
            port,
            username,
            password,
            root_dir: self.root_dir.clone(),
            trash_dir: self.trash_dir.clone(),
        }
    }

    /// What to dial and how to log in with this configuration.
    pub fn connect_request(&self) -> (request: ConnectRequest)
        ensures
            self.requests(&request),
    {
        let mut address = self.host.clone();
        push_char(&mut address, ':');
        let port = decimal_text(self.port as u64);
        address.append(port.as_str());
        assert(address@ =~= address_text(self.host@, self.port));
        ConnectRequest {
            address,
            username: self.username.clone(),
            password: self.password.clone(),
        }
    }
}

} // verus!
