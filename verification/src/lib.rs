//! A focus aid: temporarily blocks a list of web sites by rewriting the
//! operating system's hosts file, holds the block for a bounded,
//! user-interruptible duration, and then restores the file to its exact
//! pre-block content.
//!
//! The crate verifies the core transaction: capturing a faithful snapshot of
//! the hosts file, computing the rewritten body without duplicating existing
//! entries, a cooperatively cancellable timed wait, and the guarantee that the
//! restore step runs on every exit path.

pub mod block_duration;
pub mod blocking_message;
pub mod cli;
pub mod config;
pub mod duration;
pub mod hosts;
pub mod os_backend;
pub mod session;
pub mod snapshot;
pub mod software_list;
pub mod text;
pub mod timer;
pub mod websites;
