//! Decisions of a save-file uploader: which filesystem events matter, how a
//! file's leading bytes select an upload strategy, what each upload request
//! carries and how a server's answer becomes an outcome and a log record.
//!
//! The library performs no I/O. A driver reads files, talks to the network
//! and writes the log; it hands plain values in and acts on what comes back.

pub mod cli;
pub mod config;
pub mod dispatch;
pub mod event;
pub mod frontend;
pub mod record;
pub mod signature;
pub mod text;
pub mod upload;
pub mod watcher;
