//! Interactive remote-shell relay.
//!
//! The crate bridges a duplex, frame-oriented client connection to a remote
//! secure-shell pseudo-terminal session. The session state machine, the
//! control-message protocol and the pseudo-terminal I/O loop are all modelled
//! and verified here; the surrounding process (sockets, threads, the
//! secure-shell transport itself) hands events in and carries actions out.

use vstd::prelude::*;

pub mod auth_middleware;
pub mod auth_utils;
pub mod bridge;
pub mod config;
pub mod db_datatype_trans;
pub mod json;
pub mod login_handler;
pub mod models;
pub mod pg_to_csv;
pub mod protocol;
pub mod proxy_http;
pub mod proxy_tcp;
pub mod session;
pub mod sftp;
pub mod sqlite_operations;
pub mod ssh_client;
pub mod task;
pub mod template_engine;
pub mod text;

verus! {

/// Interval between heartbeat probes, in milliseconds.
pub const HEARTBEAT_INTERVAL_MS: u64 = 5000;

/// A session whose peer has been silent for longer than this is torn down.
pub const CLIENT_TIMEOUT_MS: u64 = 10000;

} // verus!
