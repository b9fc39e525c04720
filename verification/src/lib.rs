//! Verified coordination core of a build/run daemon.
//!
//! The daemon mediates between an editor client and platform build/run
//! tooling: it accepts commands over a local channel, tracks per-workspace
//! state, supervises filesystem watchers, and orchestrates the run
//! lifecycle of a built artifact while streaming its output to the client.
//!
//! This crate holds the decision logic of that daemon: every state change,
//! every log line, and every success/failure classification is computed by
//! a verified function over plain values. The unverified shell around it
//! performs the actual I/O (sockets, subprocesses, simulator control) and
//! feeds the observed events back into these functions.

pub mod dispatch;
pub mod error;
pub mod event;
pub mod rename_file;
pub mod runner;
pub mod simctl;
pub mod state;
pub mod stream;
pub mod util;

