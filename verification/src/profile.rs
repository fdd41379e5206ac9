//! The power profile published by the desktop's power service.

use crate::text::{could_not_parse, could_not_parse_message, str_eq};
use vstd::prelude::*;

verus! {

/// A system-wide power posture, as the power service names it.
#[derive(Clone, Copy, PartialEq, Eq, Structural, Debug)]
pub enum PPDPowerProfile {
    PowerSaver,
    Balanced,
    Performance,
}

impl PPDPowerProfile {
    /// The token by which the power service names this profile.
    pub open spec fn token(self) -> Seq<char> {
        match self {
            PPDPowerProfile::PowerSaver => "power-saver"@,
            PPDPowerProfile::Balanced => "balanced"@,
            PPDPowerProfile::Performance => "performance"@,
        }
    }

    /// The profile that `text` names: the one whose token it is, letter for
    /// letter. Any other text names none.
    pub open spec fn parse(text: Seq<char>) -> Option<PPDPowerProfile> {
        if text == PPDPowerProfile::PowerSaver.token() {
            Some(PPDPowerProfile::PowerSaver)
        } else if text == PPDPowerProfile::Balanced.token() {
            Some(PPDPowerProfile::Balanced)
        } else if text == PPDPowerProfile::Performance.token() {
            Some(PPDPowerProfile::Performance)
        } else {
            None
        }
    }

    /// The profile's token as a static string.
    pub fn as_str(&self) -> (s: &'static str)
        ensures
            s@ == self.token(),
    {
        match self {
            PPDPowerProfile::PowerSaver => "power-saver",
            PPDPowerProfile::Balanced => "balanced",
            PPDPowerProfile::Performance => "performance",
        }
    }

    /// The profile's token as an owned string.
    pub fn to_string(&self) -> (s: String)
        ensures
            s@ == self.token(),
    {
        self.as_str().to_owned()
    }

    /// Reads a profile from the text that the power service delivered.
    /// Text that is no profile's token is refused; no profile stands in for it.
    pub fn from_str(input: &str) -> (r: Result<PPDPowerProfile, String>)
        ensures
            match PPDPowerProfile::parse(input@) {
                Some(p) => r == Ok::<PPDPowerProfile, String>(p),
                None => r matches Err(msg) && msg@ == could_not_parse(input@),
            },
    {
        if str_eq(input, "power-saver") {
            Ok(PPDPowerProfile::PowerSaver)
        } else if str_eq(input, "balanced") {
            Ok(PPDPowerProfile::Balanced)
        } else if str_eq(input, "performance") {
            Ok(PPDPowerProfile::Performance)
        } else {
            Err(could_not_parse_message(input))
        }
    }
}

/// Parsing a profile's token gives that profile back.
pub proof fn lemma_profile_round_trip(p: PPDPowerProfile)
    ensures
        PPDPowerProfile::parse(p.token()) == Some(p),
{
    reveal_strlit("power-saver");
    reveal_strlit("balanced");
    reveal_strlit("performance");
    assert("power-saver"@[1] == 'o');
    assert("performance"@[1] == 'e');
}

/// Text parses to a profile only if it is that profile's token: nothing else
/// falls back to any profile.
pub proof fn lemma_profile_parse_is_exact(text: Seq<char>)
    ensures
        PPDPowerProfile::parse(text) matches Some(p) ==> text == p.token(),
        PPDPowerProfile::parse(text) is None ==> forall|p: PPDPowerProfile| p.token() != text,
{
}

} // verus!
