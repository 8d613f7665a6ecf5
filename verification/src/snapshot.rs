//! The snapshot store, modelled as a transition system over the two files
//! it touches: the hosts file and the backup file.
//!
//! Capturing copies the hosts content into the backup; a session then
//! overwrites the hosts file any number of times; restoring writes the
//! backup content back. The reading and writing of real files is the
//! caller's, outside this crate; the model pins down what those operations
//! must do to the two contents, and proves that the round trip returns the
//! hosts file to exactly its captured content.

use vstd::prelude::*;

verus! {

/// The contents of the two files the store touches.
pub struct StoreState {
    /// Content of the hosts file.
    pub hosts: Seq<char>,
    /// Content of the backup file, if one was ever captured.
    pub backup: Option<Seq<char>>,
}

/// Capturing persists the current hosts content as the backup,
/// overwriting any previous snapshot.
pub open spec fn capture_step(s: StoreState) -> StoreState {
    StoreState { hosts: s.hosts, backup: Some(s.hosts) }
}

/// Writing replaces the hosts content in full; the backup is untouched.
pub open spec fn write_hosts_step(s: StoreState, content: Seq<char>) -> StoreState {
    StoreState { hosts: content, backup: s.backup }
}

/// Restoring writes the backup content back over the hosts file.
pub open spec fn restore_step(s: StoreState) -> StoreState
    recommends
        s.backup is Some,
{
    StoreState { hosts: s.backup->Some_0, backup: s.backup }
}

/// A session's worth of writes to the hosts file, applied in order.
pub open spec fn apply_writes(s: StoreState, writes: Seq<Seq<char>>) -> StoreState
    decreases writes.len(),
{
    if writes.len() == 0 {
        s
    } else {
        apply_writes(write_hosts_step(s, writes[0]), writes.drop_first())
    }
}

/// Writes to the hosts file never touch the backup.
pub proof fn lemma_writes_preserve_backup(s: StoreState, writes: Seq<Seq<char>>)
    ensures
        apply_writes(s, writes).backup == s.backup,
    decreases writes.len(),
{
    if writes.len() > 0 {
        lemma_writes_preserve_backup(write_hosts_step(s, writes[0]), writes.drop_first());
    }
}

/// The restore round trip: after a capture, any number of writes to the
/// hosts file, then a restore, the hosts content is exactly what the
/// capture saw.
pub proof fn lemma_restore_round_trip(s: StoreState, writes: Seq<Seq<char>>)
    ensures
        restore_step(apply_writes(capture_step(s), writes)).hosts == s.hosts,
{
    lemma_writes_preserve_backup(capture_step(s), writes);
}

} // verus!
