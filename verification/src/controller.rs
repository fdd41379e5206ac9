//! The controller: from a profile to the writes that put it into effect.

use crate::config::Config;
use crate::error::SetupError;
use crate::fan_out::{FanOut, FanOutView, TunableWrite, WriteRequest};
use crate::profile::PPDPowerProfile;
use crate::text::could_not_parse;
use crate::tunables::{EnergyPerformancePreference, ScalingGovernor};
use vstd::prelude::*;

verus! {

/// The writes that put `value` into each of `files`: one write per file, in
/// the order of the files.
pub open spec fn writes_to_all(files: Seq<Seq<char>>, value: Seq<char>) -> Seq<TunableWrite> {
    files.map_values(|path: Seq<char>| TunableWrite { path, value })
}

/// A controller, as contracts see it.
pub struct ControllerView {
    /// The EPP files under control, in the order of their discovery.
    pub epp_files: Seq<Seq<char>>,
    /// The governor files under control, in the order of their discovery.
    pub governor_files: Seq<Seq<char>>,
    /// The mapping from profiles to tunables.
    pub config: Config,
}

impl ControllerView {
    /// The writes that set every EPP file to `epp`.
    pub open spec fn epp_writes(self, epp: EnergyPerformancePreference) -> Seq<TunableWrite> {
        writes_to_all(self.epp_files, epp.token())
    }

    /// The writes that set every governor file to `governor`.
    pub open spec fn governor_writes(self, governor: ScalingGovernor) -> Seq<TunableWrite> {
        writes_to_all(self.governor_files, governor.token())
    }

    /// The writes that put `profile` into effect: first its governor to
    /// every governor file, then its EPP to every EPP file.
    pub open spec fn writes_for(self, profile: PPDPowerProfile) -> Seq<TunableWrite> {
        self.governor_writes(self.config.scaling_governor.lookup(profile)) + self.epp_writes(
            self.config.epp.lookup(profile),
        )
    }
}

/// The control files that were discovered: the EPP files, of which there is
/// at least one, and the governor files that exist beside them. The two
/// lists need not be of one length. They are fixed when the set is made.
#[derive(Debug)]
pub struct CoreFileSet {
    epp_files: Vec<String>,
    governor_files: Vec<String>,
}

impl CoreFileSet {
    #[verifier::type_invariant]
    spec fn inv(self) -> bool {
        self.epp_files.len() > 0
    }

    /// The EPP files, in the order of their discovery.
    pub closed spec fn epp_paths(self) -> Seq<Seq<char>> {
        self.epp_files.deep_view()
    }

    /// The governor files, in the order of their discovery.
    pub closed spec fn governor_paths(self) -> Seq<Seq<char>> {
        self.governor_files.deep_view()
    }

    /// Makes the set of the discovered files. Without a single EPP file
    /// there is nothing to control, and no set is made. There need not be
    /// any governor file.
    pub fn new(
        epp_files: Vec<String>,
        governor_files: Vec<String>,
    ) -> (r: Result<CoreFileSet, SetupError>)
        ensures
            match r {
                Ok(files) => {
                    &&& epp_files.len() > 0
                    &&& files.epp_paths() == epp_files.deep_view()
                    &&& files.governor_paths() == governor_files.deep_view()
                },
                Err(e) => epp_files.len() == 0 && e is NoCoreFiles,
            },
    {
        if epp_files.len() == 0 {
            return Err(SetupError::NoCoreFiles);
        }
        Ok(CoreFileSet { epp_files, governor_files })
    }

    /// The EPP files under control: there is at least one.
    pub fn epp_files(&self) -> (files: &Vec<String>)
        ensures
            files.deep_view() == self.epp_paths(),
            files.len() > 0,
    {
        proof {
            use_type_invariant(self);
        }
        &self.epp_files
    }

    /// The governor files under control.
    pub fn governor_files(&self) -> (files: &Vec<String>)
        ensures
            files.deep_view() == self.governor_paths(),
    {
        &self.governor_files
    }
}

/// Holds the files under control and the mapping from profiles to tunables.
/// It keeps nothing else from one event to the next.
#[derive(Debug)]
pub struct EPPController {
    files: CoreFileSet,
    config: Config,
}

impl View for EPPController {
    type V = ControllerView;

    closed spec fn view(&self) -> ControllerView {
        ControllerView {
            epp_files: self.files.epp_paths(),
            governor_files: self.files.governor_paths(),
            config: self.config,
        }
    }
}

fn write_to_all(files: &Vec<String>, value: &str) -> (requests: Vec<WriteRequest>)
    ensures
        requests.deep_view() == writes_to_all(files.deep_view(), value@),
{
    let mut requests: Vec<WriteRequest> = Vec::new();
    let mut i: usize = 0;
    while i < files.len()
        invariant
            i <= files.len(),
            requests.deep_view() == writes_to_all(files.deep_view().take(i as int), value@),
        decreases files.len() - i,
    {
        let ghost before = requests.deep_view();
        let request = WriteRequest { path: files[i].clone(), value: value.to_owned() };
        requests.push(request);
        assert(requests.deep_view() =~= before.push(request@));
        assert(requests.deep_view() =~= writes_to_all(
            files.deep_view().take(i + 1),
            value@,
        ));
        i += 1;
    }
    requests
}

impl EPPController {
    /// Makes a controller of the discovered files and the configuration.
    pub fn new(files: CoreFileSet, config: Config) -> (controller: EPPController)
        ensures
            controller@ == (ControllerView {
                epp_files: files.epp_paths(),
                governor_files: files.governor_paths(),
                config,
            }),
    {
        EPPController { files, config }
    }

    /// The files under control.
    pub fn files(&self) -> (files: &CoreFileSet)
        ensures
            files.epp_paths() == self@.epp_files,
            files.governor_paths() == self@.governor_files,
    {
        &self.files
    }

    /// The mapping from profiles to tunables.
    pub fn config(&self) -> (config: &Config)
        ensures
            *config == self@.config,
    {
        &self.config
    }

    /// The EPP that the configuration gives to `profile`.
    pub fn desired_epp(&self, profile: &PPDPowerProfile) -> (epp: &EnergyPerformancePreference)
        ensures
            *epp == self@.config.epp.lookup(*profile),
    {
        match profile {
            PPDPowerProfile::Performance => &self.config.epp.performance,
            PPDPowerProfile::Balanced => &self.config.epp.balanced,
            PPDPowerProfile::PowerSaver => &self.config.epp.power_saver,
        }
    }

    /// The scaling governor that the configuration gives to `profile`.
    pub fn desired_governor(&self, profile: &PPDPowerProfile) -> (governor: &ScalingGovernor)
        ensures
            *governor == self@.config.scaling_governor.lookup(*profile),
    {
        match profile {
            PPDPowerProfile::Performance => &self.config.scaling_governor.performance,
            PPDPowerProfile::Balanced => &self.config.scaling_governor.balanced,
            PPDPowerProfile::PowerSaver => &self.config.scaling_governor.power_saver,
        }
    }

    /// The writes that set the EPP of every policy to `epp`: one for each
    /// EPP file, in the order of discovery, each with the EPP's token.
    pub fn write_epp_to_all_cores(
        &self,
        epp: &EnergyPerformancePreference,
    ) -> (requests: Vec<WriteRequest>)
        ensures
            requests.deep_view() == self@.epp_writes(*epp),
    {
        write_to_all(self.files.epp_files(), epp.as_str())
    }

    /// The writes that set the governor of every policy to `governor`: one
    /// for each governor file, in the order of discovery, each with the
    /// governor's token.
    pub fn write_governor_to_all_cores(
        &self,
        governor: &ScalingGovernor,
    ) -> (requests: Vec<WriteRequest>)
        ensures
            requests.deep_view() == self@.governor_writes(*governor),
    {
        write_to_all(self.files.governor_files(), governor.as_str())
    }

    /// Turns a profile value from the power service into the writes that put
    /// it into effect: the governor writes first, then the EPP writes, none
    /// of them tried yet. A value that names no profile is refused with the
    /// report of the failed parse, and asks for no write.
    pub fn process_active_profile_changed(&self, value: &str) -> (r: Result<FanOut, String>)
        ensures
            match PPDPowerProfile::parse(value@) {
                Some(profile) => r matches Ok(fan_out) && fan_out@ == FanOutView::fresh(
                    self@.writes_for(profile),
                ),
                None => r matches Err(msg) && msg@ == could_not_parse(value@),
            },
    {
        let profile = match PPDPowerProfile::from_str(value) {
            Ok(p) => p,
            Err(e) => {
                return Err(e);
            },
        };
        let mut requests = self.write_governor_to_all_cores(self.desired_governor(&profile));
        let mut epp_requests = self.write_epp_to_all_cores(self.desired_epp(&profile));
        let ghost governor_writes = requests.deep_view();
        let ghost epp_writes = epp_requests.deep_view();
        requests.append(&mut epp_requests);
        assert(requests.deep_view() =~= governor_writes + epp_writes);
        Ok(FanOut::new(requests))
    }
}

} // verus!
