//! The memory agent's configuration. Its usage record carries a floating
//! point share and is assembled by the caller around the library.

use vstd::prelude::*;

use crate::settings::MixConfig;

verus! {

/// The schedule used when none is configured: every ten seconds.
pub fn default_cron() -> (r: String)
    ensures
        r@ == "*/10 * * * * ?"@,
{
    let r = "*/10 * * * * ?";
    r.to_owned()
}

/// The memory agent's configuration: its schedule.
pub struct MemoryAgentConfig {
    pub cron: String,
}

impl Default for MemoryAgentConfig {
    fn default() -> (r: MemoryAgentConfig)
        ensures
            r.cron@ == "*/10 * * * * ?"@,
    {
        MemoryAgentConfig { cron: default_cron() }
    }
}

impl MixConfig for MemoryAgentConfig {
    fn new() -> Self {
        MemoryAgentConfig::default()
    }
}

} // verus!
