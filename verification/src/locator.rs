//! Finding the control files of the CPU frequency policies.
//!
//! The kernel shows each frequency policy as a directory `policyN` below one
//! base directory. A policy that can be tuned holds a file for its energy
//! performance preference (EPP), and beside it one for its scaling governor.
//! Which entries and files exist is learned by whoever scans the directory;
//! the functions here decide from those findings which files are controlled.

use crate::error::SetupError;
use crate::paths::{
    child_path, file_name, join, lemma_child_is_named, lemma_sibling_is_named,
    lemma_sibling_keeps_parent, lemma_sibling_of_child, parent_len, plain_name, sibling_path,
    with_file_name,
};
use crate::text::starts_with;
use vstd::prelude::*;

verus! {

/// Where the kernel keeps the frequency policies.
pub const CPUFREQ_PATH: &'static str = "/sys/devices/system/cpu/cpufreq";

/// Prefix of the name of every policy directory.
pub const POLICY_PREFIX: &'static str = "policy";

/// Name of the EPP control file inside a policy directory.
pub const EPP_FILE_NAME: &'static str = "energy_performance_preference";

/// Name of the governor control file inside a policy directory.
pub const GOVERNOR_FILE_NAME: &'static str = "scaling_governor";

/// Whether `name` is the name of a policy directory: it begins with the
/// policy prefix.
pub open spec fn policy_name(name: Seq<char>) -> bool {
    POLICY_PREFIX@.is_prefix_of(name)
}

/// The EPP file of the policy directory `name` below `base`.
pub open spec fn epp_file_path(base: Seq<char>, name: Seq<char>) -> Seq<char> {
    child_path(child_path(base, name), EPP_FILE_NAME@)
}

/// The governor file that stands beside the EPP file `epp_path`.
pub open spec fn governor_file_path(epp_path: Seq<char>) -> Seq<char> {
    sibling_path(epp_path, GOVERNOR_FILE_NAME@)
}

/// Whether `name` is the name of a policy directory.
pub fn is_policy_dir(name: &str) -> (yes: bool)
    ensures
        yes == policy_name(name@),
{
    starts_with(name, POLICY_PREFIX)
}

/// Builds the path of the EPP file of the policy directory `name` below
/// `cpufreq_path`.
pub fn epp_path_in(cpufreq_path: &str, name: &str) -> (path: String)
    ensures
        path@ == epp_file_path(cpufreq_path@, name@),
{
    let dir = join(cpufreq_path, name);
    join(dir.as_str(), EPP_FILE_NAME)
}

/// What the scan of the base directory learned about one of its entries.
#[derive(Clone, PartialEq, Eq, Debug)]
pub struct ScannedEntry {
    /// The entry's name; `None` where the entry could not be read or its name
    /// is not valid text.
    pub name: Option<String>,
    /// Whether the entry holds an EPP file. This is read of a policy
    /// directory only: of any other entry the scan need not look, and may
    /// say `false`.
    pub has_epp_file: bool,
}

impl ScannedEntry {
    /// The EPP file that this entry contributes below `base`: that of a policy
    /// directory that holds one. Any other entry contributes none.
    pub open spec fn epp_file(self, base: Seq<char>) -> Option<Seq<char>> {
        match self.name {
            Some(name) => if policy_name(name@) && self.has_epp_file {
                Some(epp_file_path(base, name@))
            } else {
                None
            },
            None => None,
        }
    }
}

/// The EPP files below `base`, given what the scan found there.
pub open spec fn epp_files(base: Seq<char>, entries: Seq<ScannedEntry>) -> Seq<Seq<char>> {
    entries.filter_map(|e: ScannedEntry| e.epp_file(base))
}

/// Collects the EPP file of every policy directory that has one, in the order
/// in which the scan listed the entries. Entries without a readable name,
/// entries that are no policy directory and policies without an EPP file are
/// passed over. A base directory that could not be scanned at all is fatal,
/// and the reason is handed on.
pub fn find_cpu_core_epp_paths(
    cpufreq_path: &str,
    scan: Result<Vec<ScannedEntry>, String>,
) -> (r: Result<Vec<String>, SetupError>)
    ensures
        match scan {
            Ok(entries) => r matches Ok(paths) && paths.deep_view() == epp_files(
                cpufreq_path@,
                entries@,
            ) && paths.len() <= entries.len(),
            Err(reason) => r matches Err(SetupError::Sysfs(m)) && m@ == reason@,
        },
{
    let entries = match scan {
        Ok(entries) => entries,
        Err(reason) => {
            return Err(SetupError::Sysfs(reason));
        },
    };
    let mut paths: Vec<String> = Vec::new();
    let mut i: usize = 0;
    while i < entries.len()
        invariant
            i <= entries.len(),
            paths.len() <= i,
            paths.deep_view() == epp_files(cpufreq_path@, entries@.take(i as int)),
        decreases entries.len() - i,
    {
        proof {
            entries@.lemma_filter_map_take_succ(
                |e: ScannedEntry| e.epp_file(cpufreq_path@),
                i as int,
            );
        }
        let entry = &entries[i];
        match &entry.name {
            Some(name) => {
                if entry.has_epp_file && is_policy_dir(name.as_str()) {
                    let epp_file = epp_path_in(cpufreq_path, name.as_str());
                    paths.push(epp_file);
                }
            },
            None => {},
        }
        i += 1;
    }
    assert(entries@.take(i as int) =~= entries@);
    Ok(paths)
}

/// An EPP file together with what a look at the file system told about the
/// governor file beside it.
#[derive(Clone, PartialEq, Eq, Debug)]
pub struct GovernorProbe {
    /// The EPP file of a policy.
    pub epp_path: String,
    /// Whether the governor file beside it exists.
    pub governor_exists: bool,
}

impl GovernorProbe {
    /// The governor file that this probe contributes: the one beside the EPP
    /// file, if it exists.
    pub open spec fn governor_file(self) -> Option<Seq<char>> {
        if self.governor_exists {
            Some(governor_file_path(self.epp_path@))
        } else {
            None
        }
    }
}

/// The governor files that exist beside the probed EPP files.
pub open spec fn governor_files(probes: Seq<GovernorProbe>) -> Seq<Seq<char>> {
    probes.filter_map(|p: GovernorProbe| p.governor_file())
}

/// Builds the path of the governor file beside the EPP file `epp_path`.
pub fn governor_path_beside(epp_path: &str) -> (path: String)
    ensures
        path@ == governor_file_path(epp_path@),
{
    with_file_name(epp_path, GOVERNOR_FILE_NAME)
}

/// Collects, in the order of the probes, the governor file beside each EPP
/// file, leaving out those that do not exist.
pub fn generate_cpu_core_gorvernor_paths(probes: &[GovernorProbe]) -> (paths: Vec<String>)
    ensures
        paths.deep_view() == governor_files(probes@),
        paths.len() <= probes.len(),
{
    let mut paths: Vec<String> = Vec::new();
    let mut i: usize = 0;
    while i < probes.len()
        invariant
            i <= probes.len(),
            paths.len() <= i,
            paths.deep_view() == governor_files(probes@.take(i as int)),
        decreases probes.len() - i,
    {
        proof {
            probes@.lemma_filter_map_take_succ(|p: GovernorProbe| p.governor_file(), i as int);
        }
        let probe = &probes[i];
        if probe.governor_exists {
            let governor_file = governor_path_beside(probe.epp_path.as_str());
            paths.push(governor_file);
        }
        i += 1;
    }
    assert(probes@.take(i as int) =~= probes@);
    paths
}

/// The names of the two control files are plain names.
pub proof fn lemma_control_file_names_are_plain()
    ensures
        plain_name(EPP_FILE_NAME@),
        plain_name(GOVERNOR_FILE_NAME@),
{
    reveal_strlit("energy_performance_preference");
    reveal_strlit("scaling_governor");
    let epp = EPP_FILE_NAME@;
    let governor = GOVERNOR_FILE_NAME@;
    assert(epp.len() == 29);
    assert(governor.len() == 16);
    assert forall|i: int| 0 <= i < epp.len() implies epp[i] != '/' by {}
    assert forall|i: int| 0 <= i < governor.len() implies governor[i] != '/' by {}
    assert(seq!['.'].len() == 1);
    assert(seq!['.', '.'].len() == 2);
}

/// The governor file of any path has the governor file's name. Beside a
/// path that has a file name, such as an EPP file, it stands in the same
/// directory: the part before the file name is the same in both.
pub proof fn lemma_governor_file_stands_beside(epp_path: Seq<char>)
    ensures
        file_name(governor_file_path(epp_path)) == Some(GOVERNOR_FILE_NAME@),
        file_name(epp_path) is Some ==> governor_file_path(epp_path).take(
            parent_len(governor_file_path(epp_path)),
        ) == epp_path.take(parent_len(epp_path)),
{
    lemma_control_file_names_are_plain();
    lemma_sibling_is_named(epp_path, GOVERNOR_FILE_NAME@);
    if file_name(epp_path) is Some {
        lemma_sibling_keeps_parent(epp_path, GOVERNOR_FILE_NAME@);
    }
}

/// The governor file of a policy stands in the policy's own directory,
/// beside its EPP file. This holds of every policy directory whose name is
/// a single component, as the names of the entries of a directory are.
pub proof fn lemma_governor_file_is_in_the_policy(base: Seq<char>, name: Seq<char>)
    requires
        policy_name(name),
        !name.contains('/'),
    ensures
        file_name(epp_file_path(base, name)) == Some(EPP_FILE_NAME@),
        governor_file_path(epp_file_path(base, name)) == child_path(
            child_path(base, name),
            GOVERNOR_FILE_NAME@,
        ),
{
    reveal_strlit("policy");
    assert(POLICY_PREFIX@.len() == 6);
    assert(seq!['.'].len() == 1);
    assert(seq!['.', '.'].len() == 2);
    lemma_control_file_names_are_plain();
    lemma_child_is_named(base, name);
    lemma_child_is_named(child_path(base, name), EPP_FILE_NAME@);
    lemma_sibling_of_child(child_path(base, name), EPP_FILE_NAME@, GOVERNOR_FILE_NAME@);
}

} // verus!
