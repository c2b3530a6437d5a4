//! The options that can be installed.

use vstd::prelude::*;

verus! {

/// One installable component.
pub struct InstallOption {
    /// Id handed to the install command.
    pub id: String,
    /// Name shown to the user.
    pub name: String,
    /// One-line description.
    pub description: String,
    /// Whether the component needs a reboot to take effect.
    pub requires_reboot: bool,
}

} // verus!
