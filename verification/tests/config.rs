use pstate_update::config::{
    config_file_path, read_config, Config, EPPConfig, GovernorConfig, RawConfig, RawSection,
    LOCAL_CONFIG_PATH, SYSTEM_CONFIG_PATH,
};
use pstate_update::error::{ConfigFault, Section, SetupError};
use pstate_update::profile::PPDPowerProfile;
use pstate_update::tunables::{EnergyPerformancePreference, ScalingGovernor};

fn section(power_saver: &str, balanced: &str, performance: &str) -> RawSection {
    RawSection {
        power_saver: Some(power_saver.to_string()),
        balanced: Some(balanced.to_string()),
        performance: Some(performance.to_string()),
    }
}

fn raw() -> RawConfig {
    RawConfig {
        epp: section("power", "balance_power", "performance"),
        scaling_governor: section("powersave", "powersave", "performance"),
    }
}

#[test]
fn config_file_is_the_system_one_if_it_exists() {
    assert_eq!(SYSTEM_CONFIG_PATH, "/etc/pstate_update/config.toml");
    assert_eq!(LOCAL_CONFIG_PATH, "config.toml");
    assert_eq!(config_file_path(true), "/etc/pstate_update/config.toml");
    assert_eq!(config_file_path(false), "config.toml");
}

#[test]
fn complete_config_is_accepted() {
    assert_eq!(
        read_config(Ok(raw())),
        Ok(Config {
            epp: EPPConfig {
                power_saver: EnergyPerformancePreference::Power,
                balanced: EnergyPerformancePreference::BalancePower,
                performance: EnergyPerformancePreference::Performance,
            },
            scaling_governor: GovernorConfig {
                power_saver: ScalingGovernor::PowerSave,
                balanced: ScalingGovernor::PowerSave,
                performance: ScalingGovernor::Performance,
            },
        })
    );
}

#[test]
fn config_may_use_every_epp() {
    let mut r = raw();
    r.epp = section("default", "balance_performance", "power");
    let config = read_config(Ok(r)).unwrap();
    assert_eq!(config.epp.power_saver, EnergyPerformancePreference::Default);
    assert_eq!(config.epp.balanced, EnergyPerformancePreference::BalancePerformance);
    assert_eq!(config.epp.performance, EnergyPerformancePreference::Power);
    assert_eq!(Config::from_raw(&raw()).ok(), read_config(Ok(raw())).ok());
}

#[test]
fn unloadable_config_is_fatal() {
    assert_eq!(
        read_config(Err("expected `=`".to_string())),
        Err(SetupError::ConfigUnreadable("expected `=`".to_string()))
    );
}

#[test]
fn missing_entry_is_fatal() {
    let mut r = raw();
    r.epp.balanced = None;
    assert_eq!(
        read_config(Ok(r)),
        Err(SetupError::ConfigInvalid(ConfigFault::Missing(Section::Epp, PPDPowerProfile::Balanced)))
    );
    let mut r = raw();
    r.scaling_governor.performance = None;
    assert_eq!(
        read_config(Ok(r)),
        Err(SetupError::ConfigInvalid(ConfigFault::Missing(
            Section::ScalingGovernor,
            PPDPowerProfile::Performance
        )))
    );
    let mut r = raw();
    r.scaling_governor = RawSection { power_saver: None, balanced: None, performance: None };
    assert_eq!(
        read_config(Ok(r)),
        Err(SetupError::ConfigInvalid(ConfigFault::Missing(
            Section::ScalingGovernor,
            PPDPowerProfile::PowerSaver
        )))
    );
}

#[test]
fn unknown_token_is_fatal() {
    let mut r = raw();
    r.epp.performance = Some("fastest".to_string());
    assert_eq!(
        read_config(Ok(r)),
        Err(SetupError::ConfigInvalid(ConfigFault::Unknown(Section::Epp, PPDPowerProfile::Performance)))
    );
    let mut r = raw();
    r.scaling_governor.power_saver = Some("power".to_string());
    assert_eq!(
        read_config(Ok(r)),
        Err(SetupError::ConfigInvalid(ConfigFault::Unknown(
            Section::ScalingGovernor,
            PPDPowerProfile::PowerSaver
        )))
    );
    let mut r = raw();
    r.epp.power_saver = Some("powersave".to_string());
    assert_eq!(
        read_config(Ok(r)),
        Err(SetupError::ConfigInvalid(ConfigFault::Unknown(Section::Epp, PPDPowerProfile::PowerSaver)))
    );
}

#[test]
fn first_fault_is_reported() {
    let mut r = raw();
    r.epp.performance = None;
    r.epp.balanced = Some("Balanced".to_string());
    r.scaling_governor.power_saver = None;
    assert_eq!(
        read_config(Ok(r)),
        Err(SetupError::ConfigInvalid(ConfigFault::Unknown(Section::Epp, PPDPowerProfile::Balanced)))
    );
    let mut r = raw();
    r.scaling_governor.balanced = Some("".to_string());
    r.scaling_governor.performance = None;
    assert_eq!(
        EPPConfig::from_raw(&r.epp),
        Ok(EPPConfig {
            power_saver: EnergyPerformancePreference::Power,
            balanced: EnergyPerformancePreference::BalancePower,
            performance: EnergyPerformancePreference::Performance,
        })
    );
    assert_eq!(
        GovernorConfig::from_raw(&r.scaling_governor),
        Err(ConfigFault::Unknown(Section::ScalingGovernor, PPDPowerProfile::Balanced))
    );
}
