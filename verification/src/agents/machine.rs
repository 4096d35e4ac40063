//! The machine-metadata agent: a record of the host's operating system,
//! kernel, uptime and addresses, collected once a day.

use vstd::prelude::*;

use crate::settings::MixConfig;

verus! {

/// The host description one collection reports.
pub struct Machine {
    pub os_name: String,
    pub os_arch: String,
    pub os_family: String,
    pub os_version: String,
    pub os_edition: String,
    pub os_core: String,
    pub os_core_version: String,
    pub boot_time: u64,
    pub up_time: u64,
    pub host_name: String,
    pub ip: String,
    pub machine_name: String,
}

impl Default for Machine {
    fn default() -> (r: Machine)
        ensures
            r.os_name@ == Seq::<char>::empty(),
            r.os_arch@ == Seq::<char>::empty(),
            r.os_family@ == Seq::<char>::empty(),
            r.os_version@ == Seq::<char>::empty(),
            r.os_edition@ == Seq::<char>::empty(),
            r.os_core@ == Seq::<char>::empty(),
            r.os_core_version@ == Seq::<char>::empty(),
            r.boot_time == 0,
            r.up_time == 0,
            r.host_name@ == Seq::<char>::empty(),
            r.ip@ == Seq::<char>::empty(),
            r.machine_name@ == Seq::<char>::empty(),
    {
        Machine {
            os_name: String::new(),
            os_arch: String::new(),
            os_family: String::new(),
            os_version: String::new(),
            os_edition: String::new(),
            os_core: String::new(),
            os_core_version: String::new(),
            boot_time: 0,
            up_time: 0,
            host_name: String::new(),
            ip: String::new(),
            machine_name: String::new(),
        }
    }
}

impl Machine {
    /// An empty record to collect into; the caller sets up logging first.
    pub fn init() -> (r: Machine)
        ensures
            r.os_name@ == Seq::<char>::empty(),
            r.os_arch@ == Seq::<char>::empty(),
            r.os_family@ == Seq::<char>::empty(),
            r.os_version@ == Seq::<char>::empty(),
            r.os_edition@ == Seq::<char>::empty(),
            r.os_core@ == Seq::<char>::empty(),
            r.os_core_version@ == Seq::<char>::empty(),
            r.boot_time == 0,
            r.up_time == 0,
            r.host_name@ == Seq::<char>::empty(),
            r.ip@ == Seq::<char>::empty(),
            r.machine_name@ == Seq::<char>::empty(),
    {
        Machine::default()
    }
}

/// The schedule used when none is configured: once a day at midnight.
pub fn default_cron() -> (r: String)
    ensures
        r@ == "0 0 0 * * ?"@,
{
    let r = "0 0 0 * * ?";
    r.to_owned()
}

/// The machine agent's configuration: its schedule and the display name
/// the host is reported under.
pub struct MachineAgentConfig {
    pub cron: String,
    pub machine_name: String,
}

impl Default for MachineAgentConfig {
    fn default() -> (r: MachineAgentConfig)
        ensures
            r.cron@ == "0 0 0 * * ?"@,
            r.machine_name@ == Seq::<char>::empty(),
    {
        MachineAgentConfig { cron: default_cron(), machine_name: String::new() }
    }
}

impl MixConfig for MachineAgentConfig {
    fn new() -> Self {
        MachineAgentConfig::default()
    }
}

} // verus!
