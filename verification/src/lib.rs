//! Keeps the per-core power tunables of a machine in step with the power
//! profile that the desktop's power service publishes.
//!
//! The kernel shows two tunables for each CPU frequency policy: the energy
//! performance preference (EPP) and the scaling governor. The power service
//! publishes one of three profiles on the system bus. This library maps each
//! profile to a value of each tunable, as the configuration says, and turns
//! every change of profile into the writes that put it into effect.
//!
//! The library decides; it touches neither the file system nor the bus. Its
//! user scans the policy directory, loads the configuration file, listens on
//! the bus and performs the writes, and hands what it found to the library:
//!
//! - [`locator`] picks the control files from what a scan of the policy
//!   directory found, with [`paths`] to build their paths;
//! - [`config`] turns the entries of the configuration file into a mapping
//!   that is total on the profiles;
//! - [`controller`] holds both and gives, for a profile value, the writes
//!   that put it into effect;
//! - [`fan_out`] walks through those writes so that a failed one never keeps
//!   the others from being tried;
//! - [`session`] decides each step of a session with the power service, and
//!   [`supervisor`] what follows when a session is over.

pub mod config;
pub mod controller;
pub mod error;
pub mod fan_out;
pub mod locator;
pub mod paths;
pub mod profile;
pub mod session;
pub mod supervisor;
pub mod text;
pub mod tunables;
