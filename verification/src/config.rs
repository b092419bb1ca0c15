//! The service configuration: the values the process reads once at startup.
//!
//! Reading and decoding the configuration file is runtime work; the decoded
//! values are handed over as this plain type.

use vstd::prelude::*;

verus! {

/// The core section of the configuration.
pub struct CoreConfig {
    /// The gateway authentication token.
    pub token: String,
}

/// The whole service configuration.
pub struct Config {
    pub core: CoreConfig,
}

impl Config {
    /// A configuration with the given gateway token.
    pub fn new(token: String) -> (c: Config)
        ensures
            c.core.token@ == token@,
    {
        Config { core: CoreConfig { token } }
    }
}

} // verus!
