//! The command-line surface, as plain data.
//!
//! Argument parsing itself is an external collaborator; it hands the
//! library these values. The one decision the library makes here —
//! which command, if any, an invocation selects — is verified.

use vstd::prelude::*;
use vstd::string::*;

verus! {

/// Arguments of the `start` command.
#[derive(Debug)]
pub struct StartBlockArgs {
    /// How long to block: a number followed by `s`, `m` or `h`.
    pub time_string: String,
    /// The task being worked on, used only for display.
    pub task: Option<String>,
}

/// Arguments of the `setup` command.
#[derive(Debug)]
pub struct SetupConfigArgs {
    /// Path of a text file listing the web sites to block, one per line.
    pub list: String,
}

/// The subcommands the tool offers.
#[derive(Debug)]
pub enum Commands {
    /// Start a block session.
    Start(StartBlockArgs),
    /// Record where the website list lives.
    Setup(SetupConfigArgs),
    /// Reset the hosts file from the backup.
    Reset,
}

/// A parsed invocation.
pub struct Cli {
    /// The selected subcommand, if one was given.
    pub command: Option<Commands>,
    /// Time to block for, in the legacy flag form.
    pub time: Option<String>,
    /// Task name, in the legacy flag form.
    pub task: Option<String>,
}

/// Picks the command an invocation runs: the named subcommand, or the
/// error reported when none was given.
pub fn select_command(cli: Cli) -> (r: Result<Commands, String>)
    ensures
        match cli.command {
            Some(c) => r == Ok::<Commands, String>(c),
            None => r is Err && r->Err_0@ == "No commands provided!"@,
        },
{
    match cli.command {
        Some(c) => Ok(c),
        None => Err(String::from_str("No commands provided!")),
    }
}

} // verus!
