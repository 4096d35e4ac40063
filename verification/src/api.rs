//! The API-probing agent's configuration and its per-tick result: how a
//! tick's outcome is assembled from the token fetch (when authentication
//! is enabled) and the per-target results the engine produced.

use vstd::prelude::*;

use crate::engine::{spec_is_success_status, Target, TargetResult};
use crate::settings::MixConfig;
use crate::text::{spec_trim, trim_str};

verus! {

/// Where the bearer token comes from: the endpoint posted to, the path
/// query that extracts the token from its response, and the header name.
pub struct Token {
    pub url: String,
    pub json_path: String,
    pub header: String,
}

impl Default for Token {
    fn default() -> (r: Token)
        ensures
            r.url@ == Seq::<char>::empty(),
            r.json_path@ == Seq::<char>::empty(),
            r.header@ == Seq::<char>::empty(),
    {
        Token { url: String::new(), json_path: String::new(), header: String::new() }
    }
}

/// Token acquisition: whether it happens at all, the key/value pairs
/// posted to the token endpoint, and the token endpoint itself.
pub struct Auth {
    pub enabled: bool,
    pub keys: Vec<(String, String)>,
    pub token: Token,
}

impl Default for Auth {
    fn default() -> (r: Auth)
        ensures
            r.enabled == false,
            r.keys@.len() == 0,
            r.token.url@ == Seq::<char>::empty(),
            r.token.json_path@ == Seq::<char>::empty(),
            r.token.header@ == Seq::<char>::empty(),
    {
        Auth { enabled: false, keys: Vec::new(), token: Token::default() }
    }
}

/// The host the probed endpoints live on.
pub struct TargetSource {
    pub ip: String,
    pub port: i32,
}

impl Default for TargetSource {
    fn default() -> (r: TargetSource)
        ensures
            r.ip@ == Seq::<char>::empty(),
            r.port == 0,
    {
        TargetSource { ip: String::new(), port: 0 }
    }
}

/// The schedule used when none is configured: every fifteen seconds.
pub fn default_cron() -> (r: String)
    ensures
        r@ == "*/15 * * * * ?"@,
{
    let r = "*/15 * * * * ?";
    r.to_owned()
}

/// The API agent's configuration: its name, its schedule, the token
/// acquisition settings, the probed host, and the targets in order.
pub struct ApiAgentConfig {
    pub name: String,
    pub cron: String,
    pub auth: Auth,
    pub target_source: TargetSource,
    pub targets: Vec<Target>,
}

impl Default for ApiAgentConfig {
    fn default() -> (r: ApiAgentConfig)
        ensures
            r.name@ == Seq::<char>::empty(),
            r.cron@ == "*/15 * * * * ?"@,
            r.auth.enabled == false,
            r.targets@.len() == 0,
    {
        ApiAgentConfig {
            name: String::new(),
            cron: default_cron(),
            auth: Auth::default(),
            target_source: TargetSource::default(),
            targets: Vec::new(),
        }
    }
}

impl MixConfig for ApiAgentConfig {
    fn new() -> Self {
        ApiAgentConfig::default()
    }
}

/// Whether a probed host was configured: its address must hold more than
/// whitespace. An unconfigured host is fatal for the tick.
pub fn target_source_configured(cfg: &ApiAgentConfig) -> (r: bool)
    ensures
        r == (spec_trim(cfg.target_source.ip@).len() != 0),
{
    let trimmed = trim_str(cfg.target_source.ip.as_str());
    !trimmed.as_str().is_empty()
}

/// The payload one tick of the API agent ships: the per-target results
/// and the verdict of the tick itself (for an authenticated tick, the
/// verdict of the token fetch).
pub struct ApiResult {
    pub name: String,
    pub auth: bool,
    pub targets: Vec<TargetResult>,
    pub success: bool,
    pub status: u16,
    pub message: String,
}

impl ApiResult {
    /// A fresh, empty collection result.
    pub fn init() -> (r: ApiResult)
        ensures
            r.name@ == Seq::<char>::empty(),
            r.auth == false,
            r.targets@.len() == 0,
            r.success == false,
            r.status == 0,
            r.message@ == Seq::<char>::empty(),
    {
        ApiResult {
            name: String::new(),
            auth: false,
            targets: Vec::new(),
            success: false,
            status: 0,
            message: String::new(),
        }
    }

    /// The tick's result when authentication is disabled: the targets ran
    /// without a token and the tick itself is a success.
    pub fn unauthenticated(name: &str, targets: Vec<TargetResult>) -> (r: ApiResult)
        ensures
            r.name@ == name@,
            r.auth == false,
            r.targets == targets,
            r.success == true,
            r.status == 200,
            r.message@ == Seq::<char>::empty(),
    {
        ApiResult {
            name: name.to_owned(),
            auth: false,
            targets,
            success: true,
            status: 200,
            message: String::new(),
        }
    }

    /// The tick's result when the token endpoint accepted: the targets
    /// ran with the token, and the tick records the token response.
    pub fn authenticated(name: &str, status: u16, body: &str, targets: Vec<TargetResult>) -> (r:
        ApiResult)
        requires
            spec_is_success_status(status),
        ensures
            r.name@ == name@,
            r.auth == true,
            r.targets == targets,
            r.success == true,
            r.status == status,
            r.message@ == body@,
    {
        ApiResult {
            name: name.to_owned(),
            auth: true,
            targets,
            success: true,
            status,
            message: body.to_owned(),
        }
    }

    /// The tick's result when the token endpoint refused: no target runs,
    /// and the tick records the refusal.
    pub fn token_refused(name: &str, status: u16, body: &str) -> (r: ApiResult)
        requires
            !spec_is_success_status(status),
        ensures
            r.name@ == name@,
            r.auth == true,
            r.targets@.len() == 0,
            r.success == false,
            r.status == status,
            r.message@ == body@,
    {
        ApiResult {
            name: name.to_owned(),
            auth: true,
            targets: Vec::new(),
            success: false,
            status,
            message: body.to_owned(),
        }
    }

    /// The tick's result when the token endpoint could not be reached at
    /// all: no target runs and nothing was received.
    pub fn token_unreachable(name: &str) -> (r: ApiResult)
        ensures
            r.name@ == name@,
            r.auth == true,
            r.targets@.len() == 0,
            r.success == false,
            r.status == 0,
            r.message@ == Seq::<char>::empty(),
    {
        ApiResult {
            name: name.to_owned(),
            auth: true,
            targets: Vec::new(),
            success: false,
            status: 0,
            message: String::new(),
        }
    }
}

} // verus!
