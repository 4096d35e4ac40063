//! The log envelope that carries every collection result to the remote
//! collector, and the plan for shipping it. Envelope assembly is verified;
//! the batch id, the local address and the wall clock come from outside
//! crates behind trusted declarations, and the HTTP delivery itself is the
//! caller's.

use vstd::prelude::*;

use crate::settings::GlobalConfig;

verus! {

/// The severity attached to a shipped envelope.
pub enum LogLevel {
    Info,
    Warn,
    Error,
    Debug,
    Trace,
}

/// The lowercase name of a severity.
pub open spec fn spec_level_lower(l: LogLevel) -> Seq<char> {
    match l {
        LogLevel::Info => "info"@,
        LogLevel::Warn => "warn"@,
        LogLevel::Error => "error"@,
        LogLevel::Debug => "debug"@,
        LogLevel::Trace => "trace"@,
    }
}

impl LogLevel {
    /// The lowercase name the envelope carries.
    pub fn to_lower(&self) -> (r: String)
        ensures
            r@ == spec_level_lower(*self),
    {
        match *self {
            LogLevel::Info => {
                let r = "info";
                r.to_owned()
            },
            LogLevel::Warn => {
                let r = "warn";
                r.to_owned()
            },
            LogLevel::Error => {
                let r = "error";
                r.to_owned()
            },
            LogLevel::Debug => {
                let r = "debug";
                r.to_owned()
            },
            LogLevel::Trace => {
                let r = "trace";
                r.to_owned()
            },
        }
    }
}

/// The delivery priority attached to a shipped envelope.
pub enum Priority {
    High,
    Middle,
    Low,
}

/// The lowercase name of a priority.
pub open spec fn spec_priority_lower(p: Priority) -> Seq<char> {
    match p {
        Priority::High => "high"@,
        Priority::Middle => "middle"@,
        Priority::Low => "low"@,
    }
}

impl Priority {
    /// The lowercase name the envelope carries.
    pub fn to_lower(&self) -> (r: String)
        ensures
            r@ == spec_priority_lower(*self),
    {
        match *self {
            Priority::High => {
                let r = "high";
                r.to_owned()
            },
            Priority::Middle => {
                let r = "middle";
                r.to_owned()
            },
            Priority::Low => {
                let r = "low";
                r.to_owned()
            },
        }
    }
}

/// Who a result belongs to: the configured customer and project, and the
/// address of the monitored host.
pub struct Identity {
    pub customer_id: String,
    pub project_id: String,
    pub target_ip: String,
}

/// Where a result came from: the agent family, its name, version,
/// implementation language and address.
pub struct Source {
    pub from: String,
    pub name: String,
    pub version: String,
    pub lang: String,
    pub ip: String,
}

impl Default for Source {
    /// The stock source stamp; the address is whatever the host reports.
    fn default() -> (r: Source)
        ensures
            r.from@ == "agent"@,
            r.name@ == Seq::<char>::empty(),
            r.version@ == "v1.0.0"@,
            r.lang@ == "rust"@,
    {
        let from = "agent";
        let version = "v1.0.0";
        let lang = "rust";
        Source {
            from: from.to_owned(),
            name: String::new(),
            version: version.to_owned(),
            lang: lang.to_owned(),
            ip: get_local_ip(),
        }
    }
}

/// The standard envelope wrapped around every shipped payload.
pub struct Log<T> {
    pub batch_id: String,
    pub identity: Identity,
    pub time: i64,
    pub level: String,
    pub tags: Box<Vec<String>>,
    pub category: String,
    pub content: String,
    pub raw_data: T,
    pub remark: String,
    pub priority: String,
    pub env: String,
    pub source: Source,
}

/// Relies on chrono's `Local::now` and `format("%Y%m%d%H%M%S%f")` for a
/// subsecond-resolution local timestamp string; a fresh one per call.
/// Every outcome holds at least 23 characters: the year is rendered with
/// at least four digits, the five two-digit fields and the nine-digit
/// nanosecond field are fixed-width. (That the string is digits only is
/// not promised: chrono prefixes a sign for years outside 1-9999.)
#[verifier::external_body]
pub fn get_batch_id() -> (r: String)
    ensures
        r@.len() >= 23,
{
    chrono::Local::now().format("%Y%m%d%H%M%S%f").to_string()
}

/// Relies on `local_ipaddress::get` for the host's local address; a host
/// without one reports a placeholder.
#[verifier::external_body]
pub fn get_local_ip() -> (r: String) {
    match local_ipaddress::get() {
        None => {
            let fallback = "unknown";
            fallback.to_owned()
        },
        Some(ip) => ip,
    }
}

/// Relies on chrono's `Local::now` for the current epoch time in
/// milliseconds; every representable instant lies within chrono's
/// documented datetime range.
#[verifier::external_body]
pub fn get_timestamp_millis() -> (r: i64)
    ensures
        -crate::timecheck::TIME_RANGE_BOUND_MILLIS < r < crate::timecheck::TIME_RANGE_BOUND_MILLIS,
{
    chrono::Local::now().timestamp_millis()
}

/// Assemble the envelope around a payload: identity and environment from
/// the global configuration, a fresh batch id and timestamp, the level's
/// and priority's lowercase names, and the agent's name as the source.
pub fn init_log<T>(
    global: &GlobalConfig,
    category: &str,
    content: &str,
    level: LogLevel,
    tags: Box<Vec<String>>,
    data: T,
    agent_name: &str,
) -> (r: Log<T>)
    ensures
        r.identity.customer_id@ == global.customer_id@,
        r.identity.project_id@ == global.project_id@,
        r.level@ == spec_level_lower(level),
        r.tags == tags,
        r.category@ == category@,
        r.content@ == content@,
        r.raw_data == data,
        r.remark@ == Seq::<char>::empty(),
        r.priority@ == spec_priority_lower(Priority::Low),
        r.env@ == global.env@,
        r.source.from@ == "agent"@,
        r.source.name@ == agent_name@,
        r.source.version@ == "v1.0.0"@,
        r.source.lang@ == "rust"@,
{
    let batch_id = get_batch_id();
    let target_ip = get_local_ip();
    let mut source = Source::default();
    source.name = agent_name.to_owned();
    Log {
        batch_id,
        identity: Identity {
            customer_id: global.customer_id.clone(),
            project_id: global.project_id.clone(),
            target_ip,
        },
        time: get_timestamp_millis(),
        level: level.to_lower(),
        tags,
        category: category.to_owned(),
        content: content.to_owned(),
        raw_data: data,
        remark: String::new(),
        priority: Priority::Low.to_lower(),
        env: global.env.clone(),
        source,
    }
}

/// The fixed path envelopes are posted to, under the configured endpoint.
pub open spec fn spec_collect_path() -> Seq<char> {
    "/mix/api/v1/monitor/collect"@
}

/// How an envelope is to be delivered: the full collector url, whether an
/// endpoint was configured at all, whether the envelope is printed and
/// whether it is posted, and the post's timeout.
pub struct ShipPlan {
    pub endpoint: String,
    pub endpoint_configured: bool,
    pub print_log_json: bool,
    pub push_log: bool,
    pub timeout_millis: u64,
}

/// Decide how an envelope is shipped. The collector url is the configured
/// endpoint with the fixed collect path appended; an empty endpoint is
/// flagged so the caller can report it.
pub fn ship_plan(global: &GlobalConfig) -> (r: ShipPlan)
    ensures
        r.endpoint@ == global.mix_endpoint@ + spec_collect_path(),
        r.endpoint_configured == (global.mix_endpoint@.len() != 0),
        r.print_log_json == global.print_log_json,
        r.push_log == global.push_log,
        r.timeout_millis == global.timeout,
{
    let mut endpoint = global.mix_endpoint.clone();
    endpoint.append("/mix/api/v1/monitor/collect");
    let configured = !global.mix_endpoint.as_str().is_empty();
    ShipPlan {
        endpoint,
        endpoint_configured: configured,
        print_log_json: global.print_log_json,
        push_log: global.push_log,
        timeout_millis: global.timeout,
    }
}

} // verus!
