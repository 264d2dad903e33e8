//! A client library for a remote corpus-management service, centred on its
//! local/remote synchronization engine: collecting the tracked files of a
//! repository, computing a content-addressed identity for each, diffing local
//! state against the remote state, bundling the changed files into one
//! compressed transfer archive, and driving a reconciliation pass that cleans
//! its transient archive up on every exit path.
//!
//! The engine works on plain values and decides; the surrounding process —
//! the version-control query, the HTTP calls, the terminal — performs what
//! the engine asks and reports back.

pub mod api;
pub mod archive;
pub mod auth;
pub mod collector;
pub mod commands;
pub mod config;
pub mod diff;
pub mod history;
pub mod identity;
pub mod models;
pub mod sync;
