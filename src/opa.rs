//! Policy decisions from an Open Policy Agent server: the query URL and the
//! reading of its answer. The HTTP exchange happens outside.
use vstd::prelude::*;

use crate::text::concat3;

verus! {

/// OPA settings.
#[derive(Clone, Debug)]
pub struct OpaConfig {
    pub enabled: bool,
    pub server_url: String,
    pub policy_package: String,
    /// Rule queried inside the package.
    pub decision_path: String,
    pub timeout_seconds: u64,
}

impl Default for OpaConfig {
    fn default() -> (r: OpaConfig)
        ensures
            !r.enabled,
            r.server_url@ == "http://127.0.0.1:8181"@,
            r.policy_package@ == "cage.authz"@,
            r.decision_path@ == "allow"@,
            r.timeout_seconds == 5,
    {
        OpaConfig {
            enabled: false,
            server_url: "http://127.0.0.1:8181".to_string(),
            policy_package: "cage.authz".to_string(),
            decision_path: "allow".to_string(),
            timeout_seconds: 5,
        }
    }
}

/// Answer of the policy server.
#[derive(Clone, Debug)]
pub struct OpaDecision {
    pub result: Option<bool>,
}

/// `<server>/v1/data/<package>/<rule>`.
pub open spec fn decision_url(c: OpaConfig) -> Seq<char> {
    c.server_url@ + "/v1/data/"@ + c.policy_package@ + "/"@ + c.decision_path@
}

/// The URL a decision is requested from.
pub fn policy_url(config: &OpaConfig) -> (r: String)
    ensures
        r@ == decision_url(*config),
{
    let a = concat3(config.server_url.as_str(), "/v1/data/", config.policy_package.as_str());
    concat3(a.as_str(), "/", config.decision_path.as_str())
}

/// Whether an execution may go ahead: always when policies are off, else
/// only on an explicit `true` from the server.
pub fn execution_allowed(config: &OpaConfig, decision: Option<&OpaDecision>) -> (r: bool)
    ensures
        !config.enabled ==> r,
        config.enabled ==> r == (decision matches Some(d) && d.result == Some(true)),
{
    if !config.enabled {
        return true;
    }
    match decision {
        Some(d) => match d.result {
            Some(b) => b,
            None => false,
        },
        None => false,
    }
}

} // verus!
