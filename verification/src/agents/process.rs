//! The process agent: a record per monitored process, and the mapping of
//! a platform process state onto the fixed set of reported states.

use vstd::prelude::*;

use crate::settings::MixConfig;
use crate::text::str_eq;

verus! {

/// What one monitored process reports: its pid and start time when it was
/// found, and whether it exists at all.
pub struct Process {
    pub pid: i32,
    pub name: String,
    pub is_exist: bool,
    pub status: String,
    pub start_time: i64,
}

impl Default for Process {
    fn default() -> (r: Process)
        ensures
            r.pid == 0,
            r.name@ == Seq::<char>::empty(),
            r.is_exist == false,
            r.status@ == Seq::<char>::empty(),
            r.start_time == 0,
    {
        Process { pid: 0, name: String::new(), is_exist: false, status: String::new(), start_time: 0 }
    }
}

impl Process {
    /// An empty record to collect into; the caller sets up logging first.
    pub fn init() -> (r: Process)
        ensures
            r.pid == 0,
            r.name@ == Seq::<char>::empty(),
            r.is_exist == false,
            r.status@ == Seq::<char>::empty(),
            r.start_time == 0,
    {
        Process::default()
    }
}

/// One process to look for, by name.
pub struct Target {
    pub name: String,
    pub remark: String,
}

/// The schedule used when none is configured: every ten minutes.
pub fn default_cron() -> (r: String)
    ensures
        r@ == "0 0/10 * * * ?"@,
{
    let r = "0 0/10 * * * ?";
    r.to_owned()
}

/// The process agent's configuration: its schedule and the processes to
/// look for.
pub struct ProcessAgentConfig {
    pub name: String,
    pub enabled: bool,
    pub cron: String,
    pub target: Vec<Target>,
}

impl Default for ProcessAgentConfig {
    fn default() -> (r: ProcessAgentConfig)
        ensures
            r.name@ == Seq::<char>::empty(),
            r.enabled == false,
            r.cron@ == "0 0/10 * * * ?"@,
            r.target@.len() == 0,
    {
        ProcessAgentConfig {
            name: String::new(),
            enabled: false,
            cron: default_cron(),
            target: Vec::new(),
        }
    }
}

impl MixConfig for ProcessAgentConfig {
    fn new() -> Self {
        ProcessAgentConfig::default()
    }
}

/// The reported name for a platform process state: the known states map
/// onto themselves (with `Runnable` reported as `Running`), anything else
/// onto a placeholder.
pub open spec fn spec_process_status(s: Seq<char>) -> Seq<char> {
    if s == "Idle"@ {
        "Idle"@
    } else if s == "Runnable"@ {
        "Running"@
    } else if s == "Sleeping"@ {
        "Sleeping"@
    } else if s == "Stopped"@ {
        "Stopped"@
    } else if s == "Zombie"@ {
        "Zombie"@
    } else if s == "Unknown"@ {
        "Unknown"@
    } else {
        "_"@
    }
}

/// Map a platform process state onto the fixed set of reported states.
pub fn get_process_status(status: &str) -> (r: String)
    ensures
        r@ == spec_process_status(status@),
{
    if str_eq(status, "Idle") {
        let r = "Idle";
        r.to_owned()
    } else if str_eq(status, "Runnable") {
        let r = "Running";
        r.to_owned()
    } else if str_eq(status, "Sleeping") {
        let r = "Sleeping";
        r.to_owned()
    } else if str_eq(status, "Stopped") {
        let r = "Stopped";
        r.to_owned()
    } else if str_eq(status, "Zombie") {
        let r = "Zombie";
        r.to_owned()
    } else if str_eq(status, "Unknown") {
        let r = "Unknown";
        r.to_owned()
    } else {
        let r = "_";
        r.to_owned()
    }
}

} // verus!
