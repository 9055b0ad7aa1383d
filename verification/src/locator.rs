//! Where the configuration file is looked for, and which place wins.

use vstd::prelude::*;

verus! {

/// The configuration file of the current directory.
pub const CURRENT_DIR_CONFIG: &'static str = "./clouds.yaml";

/// The user's configuration file, relative to the home directory.
pub const HOME_CONFIG: &'static str = ".config/openstack/clouds.yaml";

/// The configuration file of the whole system.
pub const SYSTEM_CONFIG: &'static str = "/etc/openstack/clouds.yaml";

/// A place where the configuration file may lie.
#[derive(Clone, Copy, Debug, PartialEq, Eq, Structural)]
pub enum ConfigLocation {
    /// `./clouds.yaml`
    Current,
    /// `.config/openstack/clouds.yaml` under the home directory
    Home,
    /// `/etc/openstack/clouds.yaml`
    System,
}

/// What a look at `./clouds.yaml` showed.
#[derive(Clone, Copy, Debug, PartialEq, Eq, Structural)]
pub enum CurrentProbe {
    /// It is not a regular file.
    Missing,
    /// It is a regular file, but its canonical path could not be worked out.
    Unresolved,
    /// It is a regular file whose canonical path is known.
    Resolved,
}

/// What a look at the user's configuration file showed.
#[derive(Clone, Copy, Debug, PartialEq, Eq, Structural)]
pub enum HomeProbe {
    /// The home directory could not be determined.
    NoHome,
    /// The home directory is known, but the file is not a regular file.
    Missing,
    /// It is a regular file.
    Present,
}

/// What a look at each candidate place showed.
#[derive(Clone, Copy, Debug, PartialEq, Eq, Structural)]
pub struct Probe {
    pub current: CurrentProbe,
    pub home: HomeProbe,
    /// Whether the system's configuration file is a regular file.
    pub system: bool,
}

/// Something that the search steps over and that is worth a warning.
#[derive(Clone, Copy, Debug, PartialEq, Eq, Structural)]
pub enum SearchWarning {
    /// `./clouds.yaml` is a regular file whose canonical path could not be
    /// worked out.
    CannotCanonicalize,
    /// The home directory could not be determined.
    NoHomeDirectory,
}

/// Whether the file at a place can be used.
pub open spec fn usable(probe: Probe, location: ConfigLocation) -> bool {
    match location {
        ConfigLocation::Current => probe.current is Resolved,
        ConfigLocation::Home => probe.home is Present,
        ConfigLocation::System => probe.system,
    }
}

/// The order in which the places are tried, lowest first.
pub open spec fn rank(location: ConfigLocation) -> int {
    match location {
        ConfigLocation::Current => 0,
        ConfigLocation::Home => 1,
        ConfigLocation::System => 2,
    }
}

/// `found` is the first usable place in the order of search, or nothing
/// where no place is usable.
pub open spec fn first_usable(probe: Probe, found: Option<ConfigLocation>) -> bool {
    match found {
        Some(location) => usable(probe, location) && forall|other: ConfigLocation|
            #[trigger] usable(probe, other) ==> rank(location) <= rank(other),
        None => forall|other: ConfigLocation| !#[trigger] usable(probe, other),
    }
}

impl ConfigLocation {
    /// The path of this place; for [`ConfigLocation::Home`], relative to the
    /// home directory.
    pub fn path(self) -> (path: &'static str)
        ensures
            path@ == match self {
                ConfigLocation::Current => CURRENT_DIR_CONFIG@,
                ConfigLocation::Home => HOME_CONFIG@,
                ConfigLocation::System => SYSTEM_CONFIG@,
            },
    {
        match self {
            ConfigLocation::Current => CURRENT_DIR_CONFIG,
            ConfigLocation::Home => HOME_CONFIG,
            ConfigLocation::System => SYSTEM_CONFIG,
        }
    }
}

/// Chooses the configuration file: the first usable one of the current
/// directory's, the user's and the system's, in this order.
pub fn find_config(probe: &Probe) -> (found: Option<ConfigLocation>)
    ensures
        first_usable(*probe, found),
{
    match probe.current {
        CurrentProbe::Resolved => { return Some(ConfigLocation::Current); },
        _ => {},
    }
    match probe.home {
        HomeProbe::Present => { return Some(ConfigLocation::Home); },
        _ => {},
    }
    if probe.system {
        Some(ConfigLocation::System)
    } else {
        None
    }
}

/// The warnings that a search gives rise to, in the order in which it
/// comes across their causes: one for a current-directory file that cannot
/// be canonicalized, then one for an unknown home directory, unless the
/// search ended at the current directory before asking for it.
pub open spec fn warnings_of(probe: Probe) -> Seq<SearchWarning> {
    let current = if probe.current is Unresolved {
        seq![SearchWarning::CannotCanonicalize]
    } else {
        seq![]
    };
    let home = if !(probe.current is Resolved) && probe.home is NoHome {
        seq![SearchWarning::NoHomeDirectory]
    } else {
        seq![]
    };
    current + home
}

/// The warnings that the search for the configuration file gives rise to.
/// None of them ends the search.
pub fn search_warnings(probe: &Probe) -> (warnings: Vec<SearchWarning>)
    ensures
        warnings@ == warnings_of(*probe),
{
    let mut warnings: Vec<SearchWarning> = Vec::new();
    match probe.current {
        CurrentProbe::Resolved => { return warnings; },
        CurrentProbe::Unresolved => {
            warnings.push(SearchWarning::CannotCanonicalize);
        },
        CurrentProbe::Missing => {},
    }
    match probe.home {
        HomeProbe::NoHome => {
            warnings.push(SearchWarning::NoHomeDirectory);
        },
        _ => {},
    }
    warnings
}

/// The order of search: a usable file in the current directory is chosen
/// whatever the other places hold; failing that, a usable file of the user
/// is chosen whatever the system holds; failing both, the system's file, if
/// usable; and where none is usable, nothing is chosen.
pub proof fn lemma_search_order(probe: Probe, found: Option<ConfigLocation>)
    requires
        first_usable(probe, found),
    ensures
        probe.current is Resolved ==> found == Some(ConfigLocation::Current),
        !(probe.current is Resolved) && probe.home is Present ==> found == Some(ConfigLocation::Home),
        !(probe.current is Resolved) && !(probe.home is Present) && probe.system ==> found == Some(
            ConfigLocation::System,
        ),
        !(probe.current is Resolved) && !(probe.home is Present) && !probe.system ==> found is None,
{
    assert(usable(probe, ConfigLocation::Current) == (probe.current is Resolved));
    assert(usable(probe, ConfigLocation::Home) == (probe.home is Present));
    assert(usable(probe, ConfigLocation::System) == probe.system);
}

} // verus!
