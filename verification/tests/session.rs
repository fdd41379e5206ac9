use std::collections::BTreeMap;

use pstate_update::config::{read_config, RawConfig, RawSection};
use pstate_update::controller::{CoreFileSet, EPPController};
use pstate_update::error::SessionError;
use pstate_update::fan_out::FanOut;
use pstate_update::locator::{
    find_cpu_core_epp_paths, generate_cpu_core_gorvernor_paths, governor_path_beside, GovernorProbe,
    ScannedEntry,
};
use pstate_update::session::{SessionStep, OBJECT_PATH, PROPERTY_NAME, SERVICE_NAME};
use pstate_update::supervisor::{supervise, SupervisorAction, FAILURE_STATUS};

fn section(power_saver: &str, balanced: &str, performance: &str) -> RawSection {
    RawSection {
        power_saver: Some(power_saver.to_string()),
        balanced: Some(balanced.to_string()),
        performance: Some(performance.to_string()),
    }
}

/// A controller for one policy below `/base`, set up the way the daemon does.
fn one_policy_controller() -> EPPController {
    let scan = Ok(vec![ScannedEntry { name: Some("policy0".to_string()), has_epp_file: true }]);
    let epp_files = find_cpu_core_epp_paths("/base", scan).unwrap();
    let probes: Vec<GovernorProbe> = epp_files
        .iter()
        .map(|epp| GovernorProbe { epp_path: epp.clone(), governor_exists: true })
        .collect();
    let governor_files = generate_cpu_core_gorvernor_paths(&probes);
    let config = read_config(Ok(RawConfig {
        epp: section("power", "balance_power", "performance"),
        scaling_governor: section("powersave", "powersave", "performance"),
    }))
    .unwrap();
    EPPController::new(CoreFileSet::new(epp_files, governor_files).unwrap(), config)
}

/// Performs the writes of a fan-out on files kept in memory. A file that is
/// not in `files` cannot be written.
fn perform(mut fan_out: FanOut, files: &mut BTreeMap<String, String>) -> FanOut {
    loop {
        let outcome = match fan_out.pending() {
            None => break,
            Some(request) => match files.get_mut(&request.path) {
                Some(content) => {
                    *content = request.value.clone();
                    Ok(())
                }
                None => Err("No such file or directory".to_string()),
            },
        };
        fan_out = fan_out.record(outcome);
    }
    fan_out
}

fn apply(step: SessionStep, files: &mut BTreeMap<String, String>) -> FanOut {
    match step {
        SessionStep::Apply(fan_out) => perform(fan_out, files),
        other => panic!("expected writes, got {other:?}"),
    }
}

#[test]
fn bus_names_are_those_of_the_power_service() {
    assert_eq!(SERVICE_NAME, "net.hadess.PowerProfiles");
    assert_eq!(OBJECT_PATH, "/net/hadess/PowerProfiles");
    assert_eq!(PROPERTY_NAME, "ActiveProfile");
}

#[test]
fn session_fails_if_the_initial_query_fails() {
    let c = one_policy_controller();
    match c.start_session(Err("org.freedesktop.DBus.Error.ServiceUnknown".to_string())) {
        SessionStep::End(Err(e)) => {
            assert_eq!(e, SessionError::Bus("org.freedesktop.DBus.Error.ServiceUnknown".to_string()))
        }
        other => panic!("{other:?}"),
    }
}

#[test]
fn session_fails_if_the_initial_profile_is_unknown() {
    let c = one_policy_controller();
    match c.start_session(Ok("turbo".to_string())) {
        SessionStep::End(Err(e)) => {
            assert_eq!(e, SessionError::Profile("Could not parse turbo".to_string()))
        }
        other => panic!("{other:?}"),
    }
}

#[test]
fn session_ends_cleanly_when_the_notifications_end() {
    let c = one_policy_controller();
    match c.on_notification(None) {
        SessionStep::End(Ok(())) => {}
        other => panic!("{other:?}"),
    }
}

#[test]
fn session_fails_if_a_notification_cannot_be_read() {
    let c = one_policy_controller();
    match c.on_notification(Some(Err("connection closed".to_string()))) {
        SessionStep::End(Err(e)) => assert_eq!(e, SessionError::Bus("connection closed".to_string())),
        other => panic!("{other:?}"),
    }
}

#[test]
fn session_goes_on_after_an_unknown_profile() {
    let c = one_policy_controller();
    let mut files = BTreeMap::new();
    files.insert("/base/policy0/energy_performance_preference".to_string(), String::new());
    files.insert("/base/policy0/scaling_governor".to_string(), String::new());
    apply(c.start_session(Ok("balanced".to_string())), &mut files);
    let before = files.clone();

    match c.on_notification(Some(Ok("turbo".to_string()))) {
        SessionStep::Dropped(report) => assert_eq!(report, "Could not parse turbo"),
        other => panic!("{other:?}"),
    }
    assert_eq!(files, before);

    let done = apply(c.on_notification(Some(Ok("performance".to_string()))), &mut files);
    assert!(done.failures().is_empty());
    assert_eq!(files["/base/policy0/energy_performance_preference"], "performance");
    assert_eq!(files["/base/policy0/scaling_governor"], "performance");
}

#[test]
fn supervisor_respawns_after_a_clean_end() {
    assert_eq!(supervise(&Ok(())), SupervisorAction::Respawn);
}

#[test]
fn supervisor_exits_after_an_error() {
    assert_eq!(FAILURE_STATUS, 1);
    assert_eq!(
        supervise(&Err(SessionError::Bus("connection closed".to_string()))),
        SupervisorAction::Exit(1)
    );
    assert_eq!(
        supervise(&Err(SessionError::Profile("Could not parse turbo".to_string()))),
        SupervisorAction::Exit(1)
    );
}

#[test]
fn supervisor_follows_the_end_of_a_session() {
    let c = one_policy_controller();
    let clean = match c.on_notification(None) {
        SessionStep::End(outcome) => outcome,
        other => panic!("{other:?}"),
    };
    assert_eq!(supervise(&clean), SupervisorAction::Respawn);
    let failed = match c.on_notification(Some(Err("connection closed".to_string()))) {
        SessionStep::End(outcome) => outcome,
        other => panic!("{other:?}"),
    };
    match supervise(&failed) {
        SupervisorAction::Exit(status) => assert_ne!(status, 0),
        SupervisorAction::Respawn => panic!("respawned after an error"),
    }
}

#[test]
fn end_to_end() {
    let c = one_policy_controller();
    assert_eq!(
        c.files().epp_files(),
        &vec!["/base/policy0/energy_performance_preference".to_string()]
    );
    assert_eq!(c.files().governor_files(), &vec!["/base/policy0/scaling_governor".to_string()]);
    assert_eq!(
        governor_path_beside("/base/policy0/energy_performance_preference"),
        "/base/policy0/scaling_governor"
    );

    let mut files = BTreeMap::new();
    files.insert("/base/policy0/energy_performance_preference".to_string(), "default".to_string());
    files.insert("/base/policy0/scaling_governor".to_string(), "schedutil".to_string());

    let done = apply(c.start_session(Ok("performance".to_string())), &mut files);
    assert!(done.is_done());
    assert!(done.failures().is_empty());
    assert_eq!(files["/base/policy0/energy_performance_preference"], "performance");
    assert_eq!(files["/base/policy0/scaling_governor"], "performance");

    let done = apply(c.on_notification(Some(Ok("power-saver".to_string()))), &mut files);
    assert!(done.is_done());
    assert!(done.failures().is_empty());
    assert_eq!(files["/base/policy0/energy_performance_preference"], "power");
    assert_eq!(files["/base/policy0/scaling_governor"], "powersave");
    assert_eq!(files.len(), 2);
}

#[test]
fn event_is_handled_though_a_file_cannot_be_written() {
    let scan = Ok(vec![
        ScannedEntry { name: Some("policy0".to_string()), has_epp_file: true },
        ScannedEntry { name: Some("policy1".to_string()), has_epp_file: true },
        ScannedEntry { name: Some("policy2".to_string()), has_epp_file: true },
    ]);
    let epp_files = find_cpu_core_epp_paths("/base", scan).unwrap();
    let config = read_config(Ok(RawConfig {
        epp: section("power", "balance_power", "performance"),
        scaling_governor: section("powersave", "powersave", "performance"),
    }))
    .unwrap();
    let c = EPPController::new(CoreFileSet::new(epp_files, vec![]).unwrap(), config);

    let mut files = BTreeMap::new();
    files.insert("/base/policy0/energy_performance_preference".to_string(), String::new());
    files.insert("/base/policy2/energy_performance_preference".to_string(), String::new());

    let done = apply(c.start_session(Ok("balanced".to_string())), &mut files);
    assert!(done.is_done());
    assert_eq!(files["/base/policy0/energy_performance_preference"], "balance_power");
    assert_eq!(files["/base/policy2/energy_performance_preference"], "balance_power");
    assert_eq!(done.failures().len(), 1);
    assert_eq!(done.failures()[0].path, "/base/policy1/energy_performance_preference");
    assert_eq!(done.failures()[0].error, "No such file or directory");
}

/// Runs a session the way the daemon does, with the bus replaced by a list of
/// deliveries. Gives the outcome of the session and the reports of dropped
/// values.
fn drive(
    c: &EPPController,
    initial: Result<String, String>,
    notifications: Vec<Result<String, String>>,
    files: &mut BTreeMap<String, String>,
) -> (Result<(), SessionError>, Vec<String>) {
    let mut dropped = Vec::new();
    let mut deliveries = notifications.into_iter();
    let mut step = c.start_session(initial);
    loop {
        match step {
            SessionStep::Apply(fan_out) => {
                perform(fan_out, files);
            }
            SessionStep::Dropped(report) => dropped.push(report),
            SessionStep::End(outcome) => return (outcome, dropped),
        }
        step = c.on_notification(deliveries.next());
    }
}

fn policy0_files() -> BTreeMap<String, String> {
    let mut files = BTreeMap::new();
    files.insert("/base/policy0/energy_performance_preference".to_string(), String::new());
    files.insert("/base/policy0/scaling_governor".to_string(), String::new());
    files
}

#[test]
fn whole_session_ends_cleanly_and_is_respawned() {
    let c = one_policy_controller();
    let mut files = policy0_files();
    let (outcome, dropped) = drive(
        &c,
        Ok("balanced".to_string()),
        vec![Ok("turbo".to_string()), Ok("performance".to_string()), Ok("".to_string())],
        &mut files,
    );
    assert_eq!(outcome, Ok(()));
    assert_eq!(dropped, vec!["Could not parse turbo".to_string(), "Could not parse ".to_string()]);
    assert_eq!(files["/base/policy0/energy_performance_preference"], "performance");
    assert_eq!(files["/base/policy0/scaling_governor"], "performance");
    assert_eq!(supervise(&outcome), SupervisorAction::Respawn);
}

#[test]
fn whole_session_ends_with_the_bus() {
    let c = one_policy_controller();
    let mut files = policy0_files();
    let (outcome, dropped) = drive(
        &c,
        Ok("power-saver".to_string()),
        vec![
            Ok("balanced".to_string()),
            Err("connection closed".to_string()),
            Ok("performance".to_string()),
        ],
        &mut files,
    );
    assert_eq!(outcome, Err(SessionError::Bus("connection closed".to_string())));
    assert!(dropped.is_empty());
    assert_eq!(files["/base/policy0/energy_performance_preference"], "balance_power");
    assert_eq!(files["/base/policy0/scaling_governor"], "powersave");
    assert_eq!(supervise(&outcome), SupervisorAction::Exit(1));
}

#[test]
fn whole_session_writes_nothing_if_it_cannot_start() {
    let c = one_policy_controller();
    let mut files = policy0_files();
    let (outcome, _) = drive(
        &c,
        Ok("turbo".to_string()),
        vec![Ok("performance".to_string())],
        &mut files,
    );
    assert_eq!(outcome, Err(SessionError::Profile("Could not parse turbo".to_string())));
    assert_eq!(files, policy0_files());

    let (outcome, _) =
        drive(&c, Err("no bus".to_string()), vec![Ok("performance".to_string())], &mut files);
    assert_eq!(outcome, Err(SessionError::Bus("no bus".to_string())));
    assert_eq!(files, policy0_files());
    assert_eq!(supervise(&outcome), SupervisorAction::Exit(FAILURE_STATUS));
}
