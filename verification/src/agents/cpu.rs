//! The cpu agent's configuration. Its usage record carries a floating
//! point share and is assembled by the caller around the library.

use vstd::prelude::*;

use crate::settings::MixConfig;

verus! {

/// The schedule used when none is configured: every five seconds.
pub fn default_cron() -> (r: String)
    ensures
        r@ == "*/5 * * * * ?"@,
{
    let r = "*/5 * * * * ?";
    r.to_owned()
}

/// The cpu agent's configuration: its schedule.
pub struct CpuAgentConfig {
    pub cron: String,
}

impl Default for CpuAgentConfig {
    fn default() -> (r: CpuAgentConfig)
        ensures
            r.cron@ == "*/5 * * * * ?"@,
    {
        CpuAgentConfig { cron: default_cron() }
    }
}

impl MixConfig for CpuAgentConfig {
    fn new() -> Self {
        CpuAgentConfig::default()
    }
}

} // verus!
