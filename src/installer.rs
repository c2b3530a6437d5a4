//! Events of a running install command, and the command's arguments.

use vstd::prelude::*;
use vstd::string::StringExecFns;

verus! {

/// What a running install command reports.
pub enum InstallerEvent {
    /// A line of its standard output or standard error.
    OutputLine(String),
    /// It ended with this exit code.
    Completed(i32),
    /// It could not be started or awaited.
    Error(String),
}

impl InstallerEvent {
    /// Whether no event follows this one.
    pub open spec fn is_terminal(&self) -> bool {
        !(self is OutputLine)
    }
}

/// The word that asks the install command to uninstall.
pub open spec fn uninstall_word() -> Seq<char> {
    "uninstall"@
}

/// The arguments of the install command: `uninstall` first for an
/// uninstall, then the option id.
pub fn install_args(option_id: &str, uninstall: bool) -> (r: Vec<String>)
    ensures
        uninstall ==> r@.len() == 2 && r@[0]@ == uninstall_word() && r@[1]@ == option_id@,
        !uninstall ==> r@.len() == 1 && r@[0]@ == option_id@,
{
    let mut args: Vec<String> = Vec::new();
    if uninstall {
        args.push(String::from_str("uninstall"));
    }
    args.push(String::from_str(option_id));
    args
}

} // verus!
