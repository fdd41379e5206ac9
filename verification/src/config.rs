//! The configuration: which value of each tunable goes with which profile.

use crate::error::{ConfigFault, Section, SetupError};
use crate::profile::PPDPowerProfile;
use crate::tunables::{EnergyPerformancePreference, ScalingGovernor};
use vstd::prelude::*;

verus! {

/// The configuration file that is tried first.
pub const SYSTEM_CONFIG_PATH: &'static str = "/etc/pstate_update/config.toml";

/// The configuration file that is used where the first does not exist.
pub const LOCAL_CONFIG_PATH: &'static str = "config.toml";

/// Picks the configuration file: the system-wide one if it exists, else the
/// one in the working directory.
pub fn config_file_path(system_file_exists: bool) -> (path: &'static str)
    ensures
        path@ == if system_file_exists {
            SYSTEM_CONFIG_PATH@
        } else {
            LOCAL_CONFIG_PATH@
        },
{
    if system_file_exists {
        SYSTEM_CONFIG_PATH
    } else {
        LOCAL_CONFIG_PATH
    }
}

/// The EPP of every profile.
#[derive(Clone, Copy, PartialEq, Eq, Structural, Debug)]
pub struct EPPConfig {
    pub power_saver: EnergyPerformancePreference,
    pub balanced: EnergyPerformancePreference,
    pub performance: EnergyPerformancePreference,
}

impl EPPConfig {
    /// The EPP that goes with `profile`.
    pub open spec fn lookup(self, profile: PPDPowerProfile) -> EnergyPerformancePreference {
        match profile {
            PPDPowerProfile::PowerSaver => self.power_saver,
            PPDPowerProfile::Balanced => self.balanced,
            PPDPowerProfile::Performance => self.performance,
        }
    }
}

/// The scaling governor of every profile.
#[derive(Clone, Copy, PartialEq, Eq, Structural, Debug)]
pub struct GovernorConfig {
    pub power_saver: ScalingGovernor,
    pub balanced: ScalingGovernor,
    pub performance: ScalingGovernor,
}

impl GovernorConfig {
    /// The governor that goes with `profile`.
    pub open spec fn lookup(self, profile: PPDPowerProfile) -> ScalingGovernor {
        match profile {
            PPDPowerProfile::PowerSaver => self.power_saver,
            PPDPowerProfile::Balanced => self.balanced,
            PPDPowerProfile::Performance => self.performance,
        }
    }
}

/// The whole mapping from profiles to tunables.
#[derive(Clone, Copy, PartialEq, Eq, Structural, Debug)]
pub struct Config {
    pub epp: EPPConfig,
    pub scaling_governor: GovernorConfig,
}

/// One section of the configuration as the file gave it: for each profile
/// the text of its entry, or `None` where the section has no such entry.
#[derive(Clone, PartialEq, Eq, Debug)]
pub struct RawSection {
    pub power_saver: Option<String>,
    pub balanced: Option<String>,
    pub performance: Option<String>,
}

impl RawSection {
    /// The text of the section's entry for `profile`, where it has one.
    pub open spec fn entry(self, profile: PPDPowerProfile) -> Option<String> {
        match profile {
            PPDPowerProfile::PowerSaver => self.power_saver,
            PPDPowerProfile::Balanced => self.balanced,
            PPDPowerProfile::Performance => self.performance,
        }
    }
}

/// The configuration as the file gave it, before any entry is looked at.
#[derive(Clone, PartialEq, Eq, Debug)]
pub struct RawConfig {
    pub epp: RawSection,
    pub scaling_governor: RawSection,
}

/// What the entry of `profile` in the EPP section stands for.
pub open spec fn epp_entry(
    entry: Option<String>,
    profile: PPDPowerProfile,
) -> Result<EnergyPerformancePreference, ConfigFault> {
    match entry {
        None => Err(ConfigFault::Missing(Section::Epp, profile)),
        Some(text) => match EnergyPerformancePreference::parse(text@) {
            Some(epp) => Ok(epp),
            None => Err(ConfigFault::Unknown(Section::Epp, profile)),
        },
    }
}

/// What the entry of `profile` in the governor section stands for.
pub open spec fn governor_entry(
    entry: Option<String>,
    profile: PPDPowerProfile,
) -> Result<ScalingGovernor, ConfigFault> {
    match entry {
        None => Err(ConfigFault::Missing(Section::ScalingGovernor, profile)),
        Some(text) => match ScalingGovernor::parse(text@) {
            Some(governor) => Ok(governor),
            None => Err(ConfigFault::Unknown(Section::ScalingGovernor, profile)),
        },
    }
}

/// What the EPP section stands for: the EPP of every profile, or the first
/// fault, going through the profiles from power saver to performance.
pub open spec fn epp_section(raw: RawSection) -> Result<EPPConfig, ConfigFault> {
    match epp_entry(raw.power_saver, PPDPowerProfile::PowerSaver) {
        Err(fault) => Err(fault),
        Ok(power_saver) => match epp_entry(raw.balanced, PPDPowerProfile::Balanced) {
            Err(fault) => Err(fault),
            Ok(balanced) => match epp_entry(raw.performance, PPDPowerProfile::Performance) {
                Err(fault) => Err(fault),
                Ok(performance) => Ok(EPPConfig { power_saver, balanced, performance }),
            },
        },
    }
}

/// What the governor section stands for: the governor of every profile, or
/// the first fault, going through the profiles from power saver to
/// performance.
pub open spec fn governor_section(raw: RawSection) -> Result<GovernorConfig, ConfigFault> {
    match governor_entry(raw.power_saver, PPDPowerProfile::PowerSaver) {
        Err(fault) => Err(fault),
        Ok(power_saver) => match governor_entry(raw.balanced, PPDPowerProfile::Balanced) {
            Err(fault) => Err(fault),
            Ok(balanced) => match governor_entry(raw.performance, PPDPowerProfile::Performance) {
                Err(fault) => Err(fault),
                Ok(performance) => Ok(GovernorConfig { power_saver, balanced, performance }),
            },
        },
    }
}

/// What the configuration stands for: a mapping that is total on the
/// profiles, or the first fault, the EPP section before the governor section.
pub open spec fn validated(raw: RawConfig) -> Result<Config, ConfigFault> {
    match epp_section(raw.epp) {
        Err(fault) => Err(fault),
        Ok(epp) => match governor_section(raw.scaling_governor) {
            Err(fault) => Err(fault),
            Ok(scaling_governor) => Ok(Config { epp, scaling_governor }),
        },
    }
}

fn read_epp_entry(
    entry: &Option<String>,
    profile: PPDPowerProfile,
) -> (r: Result<EnergyPerformancePreference, ConfigFault>)
    ensures
        r == epp_entry(*entry, profile),
{
    match entry {
        None => Err(ConfigFault::Missing(Section::Epp, profile)),
        Some(text) => match EnergyPerformancePreference::from_str(text.as_str()) {
            Ok(epp) => Ok(epp),
            Err(_) => Err(ConfigFault::Unknown(Section::Epp, profile)),
        },
    }
}

fn read_governor_entry(
    entry: &Option<String>,
    profile: PPDPowerProfile,
) -> (r: Result<ScalingGovernor, ConfigFault>)
    ensures
        r == governor_entry(*entry, profile),
{
    match entry {
        None => Err(ConfigFault::Missing(Section::ScalingGovernor, profile)),
        Some(text) => match ScalingGovernor::from_str(text.as_str()) {
            Ok(governor) => Ok(governor),
            Err(_) => Err(ConfigFault::Unknown(Section::ScalingGovernor, profile)),
        },
    }
}

impl EPPConfig {
    /// Reads the EPP section: every profile must have an entry, and every
    /// entry must be an EPP token.
    pub fn from_raw(raw: &RawSection) -> (r: Result<EPPConfig, ConfigFault>)
        ensures
            r == epp_section(*raw),
    {
        let power_saver = read_epp_entry(&raw.power_saver, PPDPowerProfile::PowerSaver)?;
        let balanced = read_epp_entry(&raw.balanced, PPDPowerProfile::Balanced)?;
        let performance = read_epp_entry(&raw.performance, PPDPowerProfile::Performance)?;
        Ok(EPPConfig { power_saver, balanced, performance })
    }
}

impl GovernorConfig {
    /// Reads the governor section: every profile must have an entry, and
    /// every entry must be a governor token.
    pub fn from_raw(raw: &RawSection) -> (r: Result<GovernorConfig, ConfigFault>)
        ensures
            r == governor_section(*raw),
    {
        let power_saver = read_governor_entry(&raw.power_saver, PPDPowerProfile::PowerSaver)?;
        let balanced = read_governor_entry(&raw.balanced, PPDPowerProfile::Balanced)?;
        let performance = read_governor_entry(&raw.performance, PPDPowerProfile::Performance)?;
        Ok(GovernorConfig { power_saver, balanced, performance })
    }
}

impl Config {
    /// Reads both sections. The result is a mapping that is total on the
    /// profiles; a configuration that leaves anything open is refused.
    pub fn from_raw(raw: &RawConfig) -> (r: Result<Config, ConfigFault>)
        ensures
            r == validated(*raw),
    {
        let epp = EPPConfig::from_raw(&raw.epp)?;
        let scaling_governor = GovernorConfig::from_raw(&raw.scaling_governor)?;
        Ok(Config { epp, scaling_governor })
    }
}

/// Turns what the loader got from the configuration file into the mapping.
/// A file that could not be loaded and a configuration with a fault are both
/// fatal: there is no partial mapping and no default.
pub fn read_config(loaded: Result<RawConfig, String>) -> (r: Result<Config, SetupError>)
    ensures
        match loaded {
            Err(reason) => r matches Err(SetupError::ConfigUnreadable(m)) && m@ == reason@,
            Ok(raw) => match validated(raw) {
                Ok(config) => r matches Ok(c) && c == config,
                Err(fault) => r matches Err(SetupError::ConfigInvalid(f)) && f == fault,
            },
        },
{
    match loaded {
        Err(reason) => Err(SetupError::ConfigUnreadable(reason)),
        Ok(raw) => match Config::from_raw(&raw) {
            Ok(config) => Ok(config),
            Err(fault) => Err(SetupError::ConfigInvalid(fault)),
        },
    }
}

/// A configuration is valid exactly if each section has, for every profile,
/// an entry that is a token of the section's tunable. The mapping that comes
/// of it is total on the profiles, and gives each profile what its two
/// entries name.
pub proof fn lemma_valid_config_is_total(raw: RawConfig, profile: PPDPowerProfile)
    ensures
        validated(raw) is Ok <==> forall|p: PPDPowerProfile|
            #![trigger raw.epp.entry(p)]
            #![trigger raw.scaling_governor.entry(p)]
            epp_entry(raw.epp.entry(p), p) is Ok && governor_entry(
                raw.scaling_governor.entry(p),
                p,
            ) is Ok,
        validated(raw) matches Ok(config) ==> {
            &&& epp_entry(raw.epp.entry(profile), profile) == Ok::<
                EnergyPerformancePreference,
                ConfigFault,
            >(config.epp.lookup(profile))
            &&& governor_entry(raw.scaling_governor.entry(profile), profile) == Ok::<
                ScalingGovernor,
                ConfigFault,
            >(config.scaling_governor.lookup(profile))
        },
{
    if validated(raw) is Err {
        let faulty = if epp_entry(raw.epp.power_saver, PPDPowerProfile::PowerSaver) is Err
            || governor_entry(raw.scaling_governor.power_saver, PPDPowerProfile::PowerSaver)
            is Err {
            PPDPowerProfile::PowerSaver
        } else if epp_entry(raw.epp.balanced, PPDPowerProfile::Balanced) is Err || governor_entry(
            raw.scaling_governor.balanced,
            PPDPowerProfile::Balanced,
        ) is Err {
            PPDPowerProfile::Balanced
        } else {
            PPDPowerProfile::Performance
        };
        assert(epp_entry(raw.epp.entry(faulty), faulty) is Err || governor_entry(
            raw.scaling_governor.entry(faulty),
            faulty,
        ) is Err);
    }
}

} // verus!
