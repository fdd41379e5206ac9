//! What can go wrong, by when it happens: while the daemon sets itself up,
//! and while a session with the power service runs.

use crate::profile::PPDPowerProfile;
use vstd::prelude::*;

verus! {

/// The two sections of the configuration.
#[derive(Clone, Copy, PartialEq, Eq, Structural, Debug)]
pub enum Section {
    Epp,
    ScalingGovernor,
}

/// A fault in what the configuration says.
#[derive(Clone, Copy, PartialEq, Eq, Structural, Debug)]
pub enum ConfigFault {
    /// The section has no entry for the profile.
    Missing(Section, PPDPowerProfile),
    /// The section's entry for the profile is no token of that section's
    /// tunable.
    Unknown(Section, PPDPowerProfile),
}

/// Why the daemon cannot start. Each of these is fatal.
#[derive(Clone, PartialEq, Eq, Debug)]
pub enum SetupError {
    /// The base directory of the frequency policies could not be read; holds
    /// the reason as the scan gave it.
    Sysfs(String),
    /// No policy has an EPP file: there is nothing to control.
    NoCoreFiles,
    /// The configuration could not be read or is not well-formed; holds the
    /// reason as the loader gave it.
    ConfigUnreadable(String),
    /// The configuration is incomplete or holds an unknown token.
    ConfigInvalid(ConfigFault),
}

/// Why a session with the power service ended in failure.
#[derive(Clone, PartialEq, Eq, Debug)]
pub enum SessionError {
    /// The bus failed; holds the reason as the bus gave it.
    Bus(String),
    /// The profile that was active when the session began is none that the
    /// daemon knows; holds the report of the failed parse.
    Profile(String),
}

} // verus!
