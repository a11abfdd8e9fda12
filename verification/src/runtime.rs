//! Selection of the container runtime.

use vstd::prelude::*;

verus! {

/// The runtime families the orchestrator knows how to drive.
#[derive(Clone, Copy, Debug, PartialEq, Eq)]
pub enum RuntimePreference {
    /// The rootless runtime; used unless the caller asks otherwise.
    Rootless,
    /// The daemon-based alternative.
    Daemon,
}

/// What an invocation needs to know about the chosen runtime.
///
/// Both families accept the same flags for this use, so the executable name
/// is the only thing that varies.
#[derive(Clone, Copy, Debug, PartialEq, Eq)]
pub struct RuntimeDescriptor {
    pub preference: RuntimePreference,
    pub executable: &'static str,
}

/// Name of the executable for a runtime family.
pub open spec fn executable_name(preference: RuntimePreference) -> Seq<char> {
    match preference {
        RuntimePreference::Rootless => "podman"@,
        RuntimePreference::Daemon => "docker"@,
    }
}

/// The family selected by the command line's runtime switch.
pub open spec fn preference_for(use_docker: bool) -> RuntimePreference {
    if use_docker {
        RuntimePreference::Daemon
    } else {
        RuntimePreference::Rootless
    }
}

impl Default for RuntimePreference {
    /// The rootless runtime.
    fn default() -> (preference: RuntimePreference)
        ensures
            preference == RuntimePreference::Rootless,
    {
        RuntimePreference::Rootless
    }
}

impl RuntimePreference {
    /// Maps the runtime switch to a family: the daemon-based runtime when it
    /// is set, the rootless one otherwise.
    pub fn from_use_docker(use_docker: bool) -> (preference: RuntimePreference)
        ensures
            preference == preference_for(use_docker),
    {
        if use_docker {
            RuntimePreference::Daemon
        } else {
            RuntimePreference::Rootless
        }
    }
}

/// Resolves a preference to the descriptor of the runtime to invoke.
///
/// Nothing is probed here: a runtime that is not installed shows up as a
/// spawn failure at the first invocation.
pub fn select_runtime(preference: RuntimePreference) -> (descriptor: RuntimeDescriptor)
    ensures
        descriptor.preference == preference,
        descriptor.executable@ == executable_name(preference),
{
    match preference {
        RuntimePreference::Rootless => RuntimeDescriptor { preference, executable: "podman" },
        RuntimePreference::Daemon => RuntimeDescriptor { preference, executable: "docker" },
    }
}

/// Name of the runtime executable selected by the runtime switch.
pub fn get_runtime_name(use_docker: bool) -> (name: &'static str)
    ensures
        name@ == executable_name(preference_for(use_docker)),
{
    if use_docker {
        "docker"
    } else {
        "podman"
    }
}

} // verus!
