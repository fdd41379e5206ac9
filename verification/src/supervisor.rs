//! The supervisor: what follows the end of a session.

use crate::error::SessionError;
use vstd::prelude::*;

verus! {

/// The exit status of the process after a fatal error.
pub const FAILURE_STATUS: i32 = 1;

/// What the supervisor does when a session is over.
#[derive(Clone, Copy, PartialEq, Eq, Structural, Debug)]
pub enum SupervisorAction {
    /// Begin a new session at once.
    Respawn,
    /// End the process with this status.
    Exit(i32),
}

/// Decides what follows the end of a session. After a clean end, as when the
/// power service was restarted, a new session begins at once; after an
/// error the process ends with the failure status.
pub fn supervise(outcome: &Result<(), SessionError>) -> (action: SupervisorAction)
    ensures
        action == match outcome {
            Ok(()) => SupervisorAction::Respawn,
            Err(_) => SupervisorAction::Exit(FAILURE_STATUS),
        },
{
    match outcome {
        Ok(()) => SupervisorAction::Respawn,
        Err(_) => SupervisorAction::Exit(FAILURE_STATUS),
    }
}

} // verus!
