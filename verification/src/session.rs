//! One session with the power service.
//!
//! A session begins with a query for the active profile and then listens for
//! changes. The controller decides each step from what the bus delivered;
//! whoever holds the bus connection performs the step and comes back with
//! the next delivery. At the start the controller is strict: a bus that
//! fails or a profile that it does not know ends the session in failure.
//! While listening it is lenient towards values: one that it does not know
//! is dropped, and the session listens on.

use crate::controller::EPPController;
use crate::error::SessionError;
use crate::fan_out::{FanOut, FanOutView};
use crate::profile::PPDPowerProfile;
use crate::text::could_not_parse;
use vstd::prelude::*;

verus! {

/// The bus name of the power service.
pub const SERVICE_NAME: &'static str = "net.hadess.PowerProfiles";

/// The object on which the power service publishes the active profile.
pub const OBJECT_PATH: &'static str = "/net/hadess/PowerProfiles";

/// The property that holds the active profile.
pub const PROPERTY_NAME: &'static str = "ActiveProfile";

/// What a session does next.
#[derive(Debug)]
pub enum SessionStep {
    /// A profile is to be put into effect: perform these writes, then listen
    /// for the next change.
    Apply(FanOut),
    /// The value delivered was dropped and nothing is written: report the
    /// message, then listen for the next change.
    Dropped(String),
    /// The session is over: cleanly, or with the error that ended it.
    End(Result<(), SessionError>),
}

impl SessionStep {
    /// Whether the session goes on to listen after this step.
    pub open spec fn listens_on(self) -> bool {
        self is Apply || self is Dropped
    }
}

impl EPPController {
    /// The first step of a session, from the answer to the query for the
    /// active profile. A profile that the controller knows is put into
    /// effect. Anything else ends the session in failure: an unanswered
    /// query as a bus error with the reason given, an unknown profile with
    /// the report of the failed parse.
    pub fn start_session(&self, initial: Result<String, String>) -> (step: SessionStep)
        ensures
            match initial {
                Err(reason) => step matches SessionStep::End(Err(SessionError::Bus(m))) && m@
                    == reason@,
                Ok(value) => match PPDPowerProfile::parse(value@) {
                    Some(profile) => step matches SessionStep::Apply(fan_out) && fan_out@
                        == FanOutView::fresh(self@.writes_for(profile)),
                    None => step matches SessionStep::End(Err(SessionError::Profile(m))) && m@
                        == could_not_parse(value@),
                },
            },
    {
        match initial {
            Err(reason) => SessionStep::End(Err(SessionError::Bus(reason))),
            Ok(value) => match self.process_active_profile_changed(value.as_str()) {
                Ok(fan_out) => SessionStep::Apply(fan_out),
                Err(report) => SessionStep::End(Err(SessionError::Profile(report))),
            },
        }
    }

    /// One step of listening, from the next item of the sequence of change
    /// notifications, or `None` where the sequence has ended. A profile that
    /// the controller knows is put into effect. A value that it does not
    /// know is dropped with the report of the failed parse, and the session
    /// listens on. The end of the sequence ends the session cleanly; a
    /// notification that the bus failed to deliver ends it as a bus error
    /// with the reason given.
    pub fn on_notification(&self, next: Option<Result<String, String>>) -> (step: SessionStep)
        ensures
            match next {
                None => step matches SessionStep::End(Ok(())),
                Some(Err(reason)) => step matches SessionStep::End(Err(SessionError::Bus(m)))
                    && m@ == reason@,
                Some(Ok(value)) => match PPDPowerProfile::parse(value@) {
                    Some(profile) => step matches SessionStep::Apply(fan_out) && fan_out@
                        == FanOutView::fresh(self@.writes_for(profile)),
                    None => step matches SessionStep::Dropped(m) && m@ == could_not_parse(value@),
                },
            },
            next matches Some(Ok(_)) ==> step.listens_on(),
    {
        match next {
            None => SessionStep::End(Ok(())),
            Some(Err(reason)) => SessionStep::End(Err(SessionError::Bus(reason))),
            Some(Ok(value)) => match self.process_active_profile_changed(value.as_str()) {
                Ok(fan_out) => SessionStep::Apply(fan_out),
                Err(report) => SessionStep::Dropped(report),
            },
        }
    }
}

} // verus!
