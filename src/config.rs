use vstd::prelude::*;

verus! {

/// A host as the configuration lists it.
#[derive(Clone, Debug)]
pub struct Device {
    pub address: String,
    pub username: String,
    pub password: String,
}

/// What a pass reads from its configuration file.
#[derive(Clone, Debug)]
pub struct Config {
    pub devices: Vec<Device>,
    pub settings: Settings,
}

/// The pass-wide settings.
#[derive(Clone, Debug)]
pub struct Settings {
    /// Ids of the rules to skip.
    pub exclusion_ids: Vec<String>,
    /// Paths of rule sources, for seeding.
    pub check_files: Vec<String>,
}

/// The command line: an optional path to the configuration file (standard
/// input otherwise).
#[derive(Clone, Debug)]
pub struct Args {
    pub config: Option<String>,
}

} // verus!
