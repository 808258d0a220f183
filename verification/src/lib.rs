//! Watches the process table for one program and tells a remote HTTP endpoint
//! when that program appears or disappears.
//!
//! The crate holds the decisions: which processes count as the watched
//! program, when a change of presence is announced, which URL is called, and
//! what happens after a failed call. Taking process snapshots, sending
//! requests and sleeping are left to the caller, which performs each
//! [`watcher::Action`] and hands back the matching [`watcher::Event`].

pub mod config;
pub mod debouncer;
pub mod matcher;
pub mod notifier;
pub mod watcher;
