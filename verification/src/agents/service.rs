//! The service agent: one record per monitored system service, with the
//! optional forced restart of a stopped service recorded in its remark.

use vstd::prelude::*;

use crate::settings::MixConfig;

verus! {

/// What one monitored service reports.
pub struct Service {
    pub pid: i32,
    pub is_exist: bool,
    pub force_restart: bool,
    pub status: String,
    pub name: String,
    pub display_name: String,
    pub remark: String,
}

impl Default for Service {
    fn default() -> (r: Service)
        ensures
            r.pid == 0,
            r.is_exist == false,
            r.force_restart == false,
            r.status@ == Seq::<char>::empty(),
            r.name@ == Seq::<char>::empty(),
            r.display_name@ == Seq::<char>::empty(),
            r.remark@ == Seq::<char>::empty(),
    {
        Service {
            pid: 0,
            is_exist: false,
            force_restart: false,
            status: String::new(),
            name: String::new(),
            display_name: String::new(),
            remark: String::new(),
        }
    }
}

impl Service {
    /// An empty record to collect into; the caller sets up logging first.
    pub fn init() -> (r: Service)
        ensures
            r.pid == 0,
            r.is_exist == false,
            r.force_restart == false,
            r.status@ == Seq::<char>::empty(),
            r.name@ == Seq::<char>::empty(),
            r.display_name@ == Seq::<char>::empty(),
            r.remark@ == Seq::<char>::empty(),
    {
        Service::default()
    }
}

/// One service to monitor, and whether a stopped one is restarted.
pub struct Target {
    pub name: String,
    pub desc: String,
    pub force_restart: bool,
}

/// The schedule used when none is configured: every ten minutes.
pub fn default_cron() -> (r: String)
    ensures
        r@ == "0 0/10 * * * ?"@,
{
    let r = "0 0/10 * * * ?";
    r.to_owned()
}

/// The service agent's configuration: its schedule and the services to
/// monitor.
pub struct ServiceAgentConfig {
    pub name: String,
    pub enabled: bool,
    pub cron: String,
    pub services: Vec<Target>,
}

impl Default for ServiceAgentConfig {
    fn default() -> (r: ServiceAgentConfig)
        ensures
            r.name@ == Seq::<char>::empty(),
            r.enabled == false,
            r.cron@ == "0 0/10 * * * ?"@,
            r.services@.len() == 0,
    {
        ServiceAgentConfig {
            name: String::new(),
            enabled: false,
            cron: default_cron(),
            services: Vec::new(),
        }
    }
}

impl MixConfig for ServiceAgentConfig {
    fn new() -> Self {
        ServiceAgentConfig::default()
    }
}

} // verus!
