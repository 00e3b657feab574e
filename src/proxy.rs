//! Egress URL filter: an allowlist of URL patterns when blocking by default,
//! else a blocklist.
use vstd::prelude::*;

use crate::text::{push_text, strings_view};

verus! {

/// Whether the regular expression `pattern` is valid and matches somewhere
/// in `text`.
pub uninterp spec fn regex_matches(pattern: Seq<char>, text: Seq<char>) -> bool;

/// Relies on regex's `Regex::new` and `Regex::is_match`: true iff the
/// pattern compiles and matches somewhere in the text.
#[verifier::external_body]
fn pattern_matches(pattern: &str, text: &str) -> (r: bool)
    ensures
        r == regex_matches(pattern@, text@),
{
    regex::Regex::new(pattern).map(|re| re.is_match(text)).unwrap_or(false)
}

/// Egress proxy settings.
#[derive(Clone, Debug)]
pub struct ProxyConfig {
    pub enabled: bool,
    pub listen_addr: String,
    pub port: u16,
    /// Patterns of allowed destination URLs.
    pub allowed_urls: Vec<String>,
    /// Refuse whatever is not allowed; otherwise allow whatever is not blocked.
    pub block_by_default: bool,
    pub blocked_urls: Vec<String>,
    pub log_requests: bool,
}

impl Default for ProxyConfig {
    fn default() -> (r: ProxyConfig)
        ensures
            !r.enabled,
            r.listen_addr@ == "127.0.0.1"@,
            r.port == 3128,
            strings_view(r.allowed_urls@) == seq![
                "^https://api\\.example\\.com/.*"@,
                "^https://.*\\.safe-domain\\.com/.*"@,
            ],
            r.block_by_default,
            r.blocked_urls@.len() == 0,
            r.log_requests,
    {
        let mut allowed: Vec<String> = Vec::new();
        assert(strings_view(allowed@) =~= Seq::empty());
        push_text(&mut allowed, "^https://api\\.example\\.com/.*");
        push_text(&mut allowed, "^https://.*\\.safe-domain\\.com/.*");
        assert(strings_view(allowed@) =~= seq![
            "^https://api\\.example\\.com/.*"@,
            "^https://.*\\.safe-domain\\.com/.*"@,
        ]);
        ProxyConfig {
            enabled: false,
            listen_addr: default_listen(),
            port: default_port(),
            allowed_urls: allowed,
            block_by_default: default_true(),
            blocked_urls: Vec::new(),
            log_requests: default_true(),
        }
    }
}

fn default_listen() -> (r: String)
    ensures
        r@ == "127.0.0.1"@,
{
    "127.0.0.1".to_string()
}

fn default_port() -> (r: u16)
    ensures
        r == 3128,
{
    3128
}

fn default_true() -> (r: bool)
    ensures
        r,
{
    true
}

/// Some pattern of the list matches the URL.
pub open spec fn any_match(patterns: Seq<String>, url: Seq<char>) -> bool {
    exists|i: int| 0 <= i < patterns.len() && regex_matches(patterns[i]@, url)
}

/// The verdict on a URL given whether an allowed and a blocked pattern matched it.
pub open spec fn verdict(block_by_default: bool, allowed_match: bool, blocked_match: bool) -> bool {
    if block_by_default {
        allowed_match
    } else {
        !blocked_match
    }
}

/// Decides a URL from the pattern matches.
pub fn decide(block_by_default: bool, allowed_match: bool, blocked_match: bool) -> (r: bool)
    ensures
        r == verdict(block_by_default, allowed_match, blocked_match),
{
    if block_by_default {
        allowed_match
    } else {
        !blocked_match
    }
}

fn matches_any(patterns: &Vec<String>, url: &str) -> (r: bool)
    ensures
        r == any_match(patterns@, url@),
{
    let mut i: usize = 0;
    while i < patterns.len()
        invariant
            i <= patterns@.len(),
            forall|j: int| 0 <= j < i ==> !regex_matches(patterns@[j]@, url@),
        decreases patterns@.len() - i,
    {
        if pattern_matches(patterns[i].as_str(), url) {
            return true;
        }
        i = i + 1;
    }
    false
}

/// The egress filter.
pub struct EgressProxy {
    config: ProxyConfig,
}

impl EgressProxy {
    pub closed spec fn spec_config(&self) -> ProxyConfig {
        self.config
    }

    pub fn new(config: ProxyConfig) -> (r: EgressProxy)
        ensures
            r.spec_config() == config,
    {
        EgressProxy { config }
    }

    /// Whether a request to `url` may leave the sandbox.
    pub fn is_url_allowed(&self, url: &str) -> (r: bool)
        ensures
            r == if self.spec_config().block_by_default {
                any_match(self.spec_config().allowed_urls@, url@)
            } else {
                !any_match(self.spec_config().blocked_urls@, url@)
            },
    {
        if self.config.block_by_default {
            let allowed = matches_any(&self.config.allowed_urls, url);
            decide(true, allowed, false)
        } else {
            let blocked = matches_any(&self.config.blocked_urls, url);
            decide(false, false, blocked)
        }
    }
}

} // verus!
