//! The persisted configuration, as plain data.
//!
//! The configuration file records one thing: where the user's website
//! list lives. Reading and writing the file, and its TOML encoding, are
//! external collaborators; this is the value they carry.

use vstd::prelude::*;

verus! {

/// The configuration the `setup` command persists.
pub struct BlockConfig {
    /// Absolute path of the user's website list file.
    pub website_list_path: String,
}

impl BlockConfig {
    /// A configuration pointing at the given list file.
    pub fn new(website_list_path: String) -> (c: Self)
        ensures
            c.website_list_path@ == website_list_path@,
    {
        BlockConfig { website_list_path }
    }
}

/// The same value as read back by a session.
pub struct Config {
    /// Absolute path of the user's website list file.
    pub website_list_path: String,
}

impl Config {
    /// A configuration pointing at the given list file.
    pub fn new(website_list_path: String) -> (c: Self)
        ensures
            c.website_list_path@ == website_list_path@,
    {
        Config { website_list_path }
    }
}

} // verus!
