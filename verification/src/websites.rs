//! The web sites a session blocks, together with the two file locations
//! the block touches.
//!
//! The paths and the raw list text are read from configuration by the
//! caller and handed in as plain values; the type then computes the
//! blocking content purely.

use vstd::prelude::*;

use crate::hosts::{rewrite_hosts_contents_to_block_websites, rewrite_spec};

verus! {

/// What is to be blocked: the hosts-file path, the backup path, and the
/// raw text of the user's website list.
pub struct Websites {
    /// The path of the hosts file to rewrite.
    pub hosts_path: String,
    /// The path the pre-session snapshot is persisted at.
    pub backup_path: String,
    /// The raw list text, one entry per line.
    pub blocked_websites_list: String,
}

impl Websites {
    /// Bundles the resolved paths and the list text read by the caller.
    pub fn new(hosts_path: String, backup_path: String, blocked_websites_list: String) -> (w: Self)
        ensures
            w.hosts_path@ == hosts_path@,
            w.backup_path@ == backup_path@,
            w.blocked_websites_list@ == blocked_websites_list@,
    {
        Websites { hosts_path, backup_path, blocked_websites_list }
    }

    /// The hosts content that blocks this instance's list: the given
    /// current content followed by the managed block.
    pub fn blocked_hosts_content(&self, hosts_content: &str) -> (r: String)
        ensures
            r@ == rewrite_spec(hosts_content@, self.blocked_websites_list@),
    {
        rewrite_hosts_contents_to_block_websites(
            hosts_content,
            self.blocked_websites_list.as_str(),
        )
    }
}

} // verus!
