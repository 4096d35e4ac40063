//! The global configuration every agent shares, and the trait an agent's
//! own configuration implements so the loader can fall back to defaults.

use vstd::prelude::*;

verus! {

/// An agent configuration that can be produced fresh when no
/// configuration file is present or it does not deserialize.
pub trait MixConfig: Sized {
    fn new() -> Self;
}

/// The global settings shared by every agent: the collector identity and
/// endpoint, the environment label, the HTTP timeout in milliseconds, and
/// the log-shipping switches.
pub struct GlobalConfig {
    pub customer_id: String,
    pub project_id: String,
    pub mix_endpoint: String,
    pub mix_endpoint_key: String,
    pub env: String,
    pub timeout: u64,
    pub print_log_json: bool,
    pub push_log: bool,
}

/// The environment label used when none is configured.
pub fn default_env() -> (r: String)
    ensures
        r@ == "dev"@,
{
    let r = "dev";
    r.to_owned()
}

/// The HTTP timeout in milliseconds used when none is configured.
pub fn default_timeout() -> (r: u64)
    ensures
        r == 5000,
{
    5000
}

/// Whether the shipped envelope is also printed, when not configured.
pub fn default_print_log_json() -> (r: bool)
    ensures
        r == true,
{
    true
}

/// Whether envelopes are shipped at all, when not configured.
pub fn default_push_log() -> (r: bool)
    ensures
        r == true,
{
    true
}

impl Default for GlobalConfig {
    /// An unconfigured deployment: empty identity, the stock collector
    /// endpoint, and the stock environment, timeout and switches.
    fn default() -> (r: GlobalConfig)
        ensures
            r.customer_id@ == Seq::<char>::empty(),
            r.project_id@ == Seq::<char>::empty(),
            r.mix_endpoint@ == "http://mix.wushiai.com"@,
            r.mix_endpoint_key@ == Seq::<char>::empty(),
            r.env@ == "dev"@,
            r.timeout == 5000,
            r.print_log_json == true,
            r.push_log == true,
    {
        let endpoint = "http://mix.wushiai.com";
        GlobalConfig {
            customer_id: String::new(),
            project_id: String::new(),
            mix_endpoint: endpoint.to_owned(),
            mix_endpoint_key: String::new(),
            env: default_env(),
            timeout: default_timeout(),
            print_log_json: default_print_log_json(),
            push_log: default_push_log(),
        }
    }
}

impl MixConfig for GlobalConfig {
    fn new() -> Self {
        GlobalConfig::default()
    }
}

} // verus!
