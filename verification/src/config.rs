use vstd::prelude::*;

verus! {

/// App config
#[derive(Debug, Clone)]
pub struct DirectShareConfig {
    /// Port that can be used to bind server
    pub port: u16,
    /// Key length for shorten url
    pub key_length: u8,
    /// File that will be used for 404 page
    pub default_file: Option<String>,
}

impl DirectShareConfig {
    /// A usable configuration: the port and the key length are positive.
    pub open spec fn wf(&self) -> bool {
        self.port >= 1 && self.key_length >= 1
    }

    /// The built-in default configuration.
    pub open spec fn spec_default() -> DirectShareConfig {
        DirectShareConfig { port: 1024, key_length: 8, default_file: None }
    }
}

impl Default for DirectShareConfig {
    fn default() -> (r: Self)
        ensures
            r == DirectShareConfig::spec_default(),
            r.wf(),
    {
        Self { port: 1024, key_length: 8, default_file: None }
    }
}

/// How the attempt to read and parse the configuration file went.
#[derive(Debug, Clone)]
pub enum ConfigLoadOutcome {
    /// The file was read and parsed.
    Loaded(DirectShareConfig),
    /// The file could not be read; `not_found` says it does not exist.
    Unreadable { not_found: bool },
    /// The file was read but does not hold a valid configuration.
    Invalid,
}

/// Decide the configuration to run with, and whether the default
/// configuration should be written out as a new file: a loaded file is taken
/// as it is; an unreadable or invalid file falls back to the default values;
/// and only a missing file has the defaults written.
pub fn load_config_decision(outcome: ConfigLoadOutcome) -> (r: (DirectShareConfig, bool))
    ensures
        outcome matches ConfigLoadOutcome::Loaded(c) ==> r.0 == c && !r.1,
        outcome matches ConfigLoadOutcome::Unreadable { not_found } ==> r.0
            == DirectShareConfig::spec_default() && r.1 == not_found,
        outcome is Invalid ==> r.0 == DirectShareConfig::spec_default() && !r.1,
{
    match outcome {
        ConfigLoadOutcome::Loaded(c) => (c, false),
        ConfigLoadOutcome::Unreadable { not_found } => (DirectShareConfig::default(), not_found),
        ConfigLoadOutcome::Invalid => (DirectShareConfig::default(), false),
    }
}

} // verus!
