//! Session manager for a remote file store that is reached over SSH.
//!
//! The crate holds the decisions of the service: when a session has to be
//! opened, what a change of credentials does to the stored state, which
//! working directory is current, and which remote command or transfer each
//! file operation amounts to. Talking to the network is left to the caller,
//! who performs what a plan asks for and hands the outcome back.

pub mod command;
pub mod config;
pub mod error;
pub mod laws;
pub mod outcome;
pub mod path;
pub mod pattern;
pub mod quoting;
pub mod service;
pub mod text;
pub mod transfer;
pub mod words;
