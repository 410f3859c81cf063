//! Verified core of a small GPU maintenance tool: enumerating the installed
//! video controllers through the operating system's management-query
//! subsystem, and resetting a named GPU by disabling and re-enabling its
//! driver through the plug-and-play device manager.
//!
//! The library holds every decision and every text: the construction of the
//! read queries and of the device-lifecycle commands, the resolution of a
//! device name to its instance identifier, the reset session's state machine
//! and its failure taxonomy, all with contracts proved by Verus. The queries,
//! the external commands and the wait itself are performed by an unverified
//! shell that the session directs, one action at a time; `trace` proves what
//! any such shell gets: the disable command, the wait and the enable command
//! come in that order and only then, and a failure stops the session before
//! anything further is issued.

pub mod command;
pub mod device;
pub mod enumerate;
pub mod error;
pub mod query;
pub mod reset;
pub mod trace;
