//! Core of a desktop application that bridges a graphical shell to
//! tool-invoking worker processes which occasionally need interactive
//! human input ("elicitation").
//!
//! The library holds the verified logic: the elicitation coordinator,
//! the schema translation between the two protocol participants, the
//! session and client sides of the local IPC protocol, and the host
//! process supervisor's decisions (configuration bootstrap, spawn
//! command construction, shutdown planning). All I/O — sockets,
//! processes, the filesystem — stays outside, driven by the plans and
//! transitions this library computes.

use vstd::prelude::*;

pub mod config;
pub mod coordinator;
pub mod host;
pub mod ipc;
pub mod paths;
pub mod permission;
pub mod registry;
pub mod schema;
pub mod shell;
pub mod supervisor;
pub mod text;

verus! {

/// Action carried by an elicitation answer.
#[derive(Clone, Copy, Debug, PartialEq, Eq, Structural)]
pub enum ElicitationAction {
    Accept,
    Decline,
    Cancel,
}

} // verus!
