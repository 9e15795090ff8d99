//! The settings document recording the default target and the registry
//! base URL. Reading and writing its file is the application's business;
//! this module holds the values and the defaults.

use vstd::prelude::*;
use vstd::string::*;

use crate::registry::{default_registry_url, default_registry_url_spec};

verus! {

/// Local settings, loaded once at startup.
#[derive(Debug, Clone, PartialEq)]
pub struct ApmConfig {
    /// Default target for installations.
    pub default_target: String,
    /// Registry base URL.
    pub registry_url: String,
    /// Whether to show verbose output.
    pub verbose: bool,
}

impl ApmConfig {
    /// A configuration with the given default target, the default registry
    /// URL and verbosity off.
    pub fn new(default_target: String) -> (r: ApmConfig)
        ensures
            r.default_target == default_target,
            r.registry_url@ == default_registry_url_spec(),
            !r.verbose,
    {
        ApmConfig { default_target, registry_url: default_registry_url(), verbose: false }
    }

    /// The configuration to run with: what the settings file held when it
    /// existed and parsed, else the hardcoded default.
    pub fn load_or_default(loaded: Option<ApmConfig>) -> (r: ApmConfig)
        ensures
            loaded matches Some(c) ==> r == c,
            loaded is None ==> r.default_target@ == "cloud"@ && r.registry_url@
                == default_registry_url_spec() && !r.verbose,
    {
        match loaded {
            Some(c) => c,
            None => ApmConfig::new("cloud".to_owned()),
        }
    }
}

impl Default for ApmConfig {
    /// The hardcoded default configuration.
    fn default() -> (r: ApmConfig)
        ensures
            r.default_target@ == "cloud"@,
            r.registry_url@ == default_registry_url_spec(),
            !r.verbose,
    {
        ApmConfig::new("cloud".to_owned())
    }
}

} // verus!
