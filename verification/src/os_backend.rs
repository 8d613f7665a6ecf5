//! Location of the operating system's hosts file.
//!
//! The hosts file is an opaque readable/writable path to the rest of the
//! crate; only its content is ever reasoned about.

use vstd::prelude::*;

verus! {

/// Path of the hosts file on Linux.
pub const LINUX_HOSTS_PATH: &'static str = "/etc/hosts";

/// Path of the hosts file on macOS.
pub const MACOS_HOSTS_PATH: &'static str = "/etc/hosts";

/// Path of the hosts file on Windows.
pub const WINDOWS_HOSTS_PATH: &'static str = "C:\\Windows\\System32\\drivers\\etc\\hosts";

/// Returns the standard hosts-file path on Unix-like systems.
///
/// The choice of path is an interface to the operating system, not part of
/// the verified transaction; a caller on Windows substitutes
/// [`WINDOWS_HOSTS_PATH`] itself.
pub fn get_hosts_path() -> (r: &'static str)
    ensures
        r@ == LINUX_HOSTS_PATH@,
{
    LINUX_HOSTS_PATH
}

} // verus!
