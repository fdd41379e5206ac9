//! The two tunables of a CPU frequency policy and the tokens by which the
//! kernel knows their values.

use crate::text::{could_not_parse, could_not_parse_message, str_eq};
use vstd::prelude::*;

verus! {

/// The energy performance preference (EPP) of a policy: a hint to the
/// processor on how to weigh speed against power.
#[derive(Clone, Copy, PartialEq, Eq, Structural, Debug)]
pub enum EnergyPerformancePreference {
    Default,
    Performance,
    BalancePerformance,
    BalancePower,
    Power,
}

impl EnergyPerformancePreference {
    /// The token that the kernel reads and writes for this preference.
    pub open spec fn token(self) -> Seq<char> {
        match self {
            EnergyPerformancePreference::Default => "default"@,
            EnergyPerformancePreference::Performance => "performance"@,
            EnergyPerformancePreference::BalancePerformance => "balance_performance"@,
            EnergyPerformancePreference::BalancePower => "balance_power"@,
            EnergyPerformancePreference::Power => "power"@,
        }
    }

    /// The preference that `text` names: the one whose token it is, letter
    /// for letter. Any other text names none.
    pub open spec fn parse(text: Seq<char>) -> Option<EnergyPerformancePreference> {
        if text == EnergyPerformancePreference::Default.token() {
            Some(EnergyPerformancePreference::Default)
        } else if text == EnergyPerformancePreference::Performance.token() {
            Some(EnergyPerformancePreference::Performance)
        } else if text == EnergyPerformancePreference::BalancePerformance.token() {
            Some(EnergyPerformancePreference::BalancePerformance)
        } else if text == EnergyPerformancePreference::BalancePower.token() {
            Some(EnergyPerformancePreference::BalancePower)
        } else if text == EnergyPerformancePreference::Power.token() {
            Some(EnergyPerformancePreference::Power)
        } else {
            None
        }
    }

    /// The preference's token as a static string.
    pub fn as_str(&self) -> (s: &'static str)
        ensures
            s@ == self.token(),
    {
        match self {
            EnergyPerformancePreference::Default => "default",
            EnergyPerformancePreference::Performance => "performance",
            EnergyPerformancePreference::BalancePerformance => "balance_performance",
            EnergyPerformancePreference::BalancePower => "balance_power",
            EnergyPerformancePreference::Power => "power",
        }
    }

    /// The preference's token as an owned string.
    pub fn to_string(&self) -> (s: String)
        ensures
            s@ == self.token(),
    {
        self.as_str().to_owned()
    }

    /// Reads a preference from its token. Text that is no preference's token
    /// is refused; no preference stands in for it.
    pub fn from_str(input: &str) -> (r: Result<EnergyPerformancePreference, String>)
        ensures
            match EnergyPerformancePreference::parse(input@) {
                Some(epp) => r == Ok::<EnergyPerformancePreference, String>(epp),
                None => r matches Err(msg) && msg@ == could_not_parse(input@),
            },
    {
        if str_eq(input, "default") {
            Ok(EnergyPerformancePreference::Default)
        } else if str_eq(input, "performance") {
            Ok(EnergyPerformancePreference::Performance)
        } else if str_eq(input, "balance_performance") {
            Ok(EnergyPerformancePreference::BalancePerformance)
        } else if str_eq(input, "balance_power") {
            Ok(EnergyPerformancePreference::BalancePower)
        } else if str_eq(input, "power") {
            Ok(EnergyPerformancePreference::Power)
        } else {
            Err(could_not_parse_message(input))
        }
    }
}

/// The scaling governor of a policy: the kernel's way of choosing frequencies.
#[derive(Clone, Copy, PartialEq, Eq, Structural, Debug)]
pub enum ScalingGovernor {
    PowerSave,
    Performance,
}

impl ScalingGovernor {
    /// The token that the kernel reads and writes for this governor.
    pub open spec fn token(self) -> Seq<char> {
        match self {
            ScalingGovernor::PowerSave => "powersave"@,
            ScalingGovernor::Performance => "performance"@,
        }
    }

    /// The governor that `text` names: the one whose token it is, letter for
    /// letter. Any other text names none.
    pub open spec fn parse(text: Seq<char>) -> Option<ScalingGovernor> {
        if text == ScalingGovernor::PowerSave.token() {
            Some(ScalingGovernor::PowerSave)
        } else if text == ScalingGovernor::Performance.token() {
            Some(ScalingGovernor::Performance)
        } else {
            None
        }
    }

    /// The governor's token as a static string.
    pub fn as_str(&self) -> (s: &'static str)
        ensures
            s@ == self.token(),
    {
        match self {
            ScalingGovernor::PowerSave => "powersave",
            ScalingGovernor::Performance => "performance",
        }
    }

    /// The governor's token as an owned string.
    pub fn to_string(&self) -> (s: String)
        ensures
            s@ == self.token(),
    {
        self.as_str().to_owned()
    }

    /// Reads a governor from its token. Text that is no governor's token is
    /// refused; no governor stands in for it.
    pub fn from_str(input: &str) -> (r: Result<ScalingGovernor, String>)
        ensures
            match ScalingGovernor::parse(input@) {
                Some(governor) => r == Ok::<ScalingGovernor, String>(governor),
                None => r matches Err(msg) && msg@ == could_not_parse(input@),
            },
    {
        if str_eq(input, "powersave") {
            Ok(ScalingGovernor::PowerSave)
        } else if str_eq(input, "performance") {
            Ok(ScalingGovernor::Performance)
        } else {
            Err(could_not_parse_message(input))
        }
    }
}

/// Parsing a preference's token gives that preference back.
pub proof fn lemma_epp_round_trip(epp: EnergyPerformancePreference)
    ensures
        EnergyPerformancePreference::parse(epp.token()) == Some(epp),
{
    reveal_strlit("default");
    reveal_strlit("performance");
    reveal_strlit("balance_performance");
    reveal_strlit("balance_power");
    reveal_strlit("power");
    assert("default"@.len() == 7);
    assert("performance"@.len() == 11);
    assert("balance_performance"@.len() == 19);
    assert("balance_power"@.len() == 13);
    assert("power"@.len() == 5);
}

/// Text parses to a preference only if it is that preference's token:
/// nothing else falls back to any preference.
pub proof fn lemma_epp_parse_is_exact(text: Seq<char>)
    ensures
        EnergyPerformancePreference::parse(text) matches Some(epp) ==> text == epp.token(),
        EnergyPerformancePreference::parse(text) is None ==> forall|
            epp: EnergyPerformancePreference,
        | epp.token() != text,
{
}

/// Parsing a governor's token gives that governor back.
pub proof fn lemma_governor_round_trip(governor: ScalingGovernor)
    ensures
        ScalingGovernor::parse(governor.token()) == Some(governor),
{
    reveal_strlit("powersave");
    reveal_strlit("performance");
    assert("powersave"@.len() == 9);
    assert("performance"@.len() == 11);
}

/// Text parses to a governor only if it is that governor's token: nothing
/// else falls back to any governor.
pub proof fn lemma_governor_parse_is_exact(text: Seq<char>)
    ensures
        ScalingGovernor::parse(text) matches Some(governor) ==> text == governor.token(),
        ScalingGovernor::parse(text) is None ==> forall|governor: ScalingGovernor|
            governor.token() != text,
{
}

} // verus!
