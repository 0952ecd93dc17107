//! The service configuration.

use vstd::prelude::*;

verus! {

/// What the service needs to reach its remote conversion backend. The
/// value is read from the process environment outside the library and
/// handed in as a plain string.
pub struct Config {
    /// The credential sent with every remote conversion request.
    pub claude_api_key: String,
}

impl Config {
    /// A configuration with the given credential.
    pub fn new(claude_api_key: String) -> (config: Config)
        ensures
            config.claude_api_key == claude_api_key,
    {
        Config { claude_api_key }
    }
}

} // verus!
