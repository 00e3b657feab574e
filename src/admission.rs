//! Admission of an execute request: payload and timeout validation, the
//! user's standing, the rate limit and the static analysis, in that order.
use vstd::prelude::*;
use vstd::utf8::encode_utf8;

use crate::analysis::{max_severity, reports, warnings_for, AnalysisResult, CodeAnalyzer, RiskLevel};
use crate::audit::{create_execution_event, AuditEvent, AuditEventType, AuditOutcome};
use crate::config::{user_entry, AppConfig};
use crate::models::ExecuteRequest;
use crate::ratelimit::{RateLimiter, TOKEN};

verus! {

/// Largest accepted code size, in bytes.
pub const MAX_CODE_BYTES: usize = 1_000_000;

/// Why a request was not admitted.
#[derive(Clone, Debug)]
pub enum AdmissionError {
    /// The code is empty.
    EmptyCode,
    /// The code is larger than `MAX_CODE_BYTES`.
    PayloadTooLarge,
    /// The timeout is zero.
    InvalidTimeout,
    /// The user is disabled.
    Forbidden,
    /// The user's rate limit is exhausted.
    TooManyRequests,
    /// Strict analysis found a critical risk; the warning categories.
    Blocked(Vec<String>),
}

/// Size of code in bytes, as the machine counts it.
pub open spec fn code_bytes(code: Seq<char>) -> nat {
    (encode_utf8(code).len() as usize) as nat
}

/// Outcome of validating a request's own fields.
pub open spec fn validation(code_len: nat, timeout_seconds: u64) -> Option<AdmissionError> {
    if code_len == 0 {
        Some(AdmissionError::EmptyCode)
    } else if code_len > MAX_CODE_BYTES {
        Some(AdmissionError::PayloadTooLarge)
    } else if timeout_seconds == 0 {
        Some(AdmissionError::InvalidTimeout)
    } else {
        None
    }
}

/// Checks the code size (1 to 1,000,000 bytes) and a non-zero timeout.
pub fn validate_request(request: &ExecuteRequest) -> (r: Result<(), AdmissionError>)
    ensures
        match validation(code_bytes(request.code@), request.timeout_seconds) {
            Some(AdmissionError::EmptyCode) => r matches Err(AdmissionError::EmptyCode),
            Some(AdmissionError::PayloadTooLarge) => r matches Err(AdmissionError::PayloadTooLarge),
            Some(AdmissionError::InvalidTimeout) => r matches Err(AdmissionError::InvalidTimeout),
            Some(_) => false,
            None => r is Ok,
        },
{
    let len = request.code.as_str().len();
    if len == 0 {
        Err(AdmissionError::EmptyCode)
    } else if len > MAX_CODE_BYTES {
        Err(AdmissionError::PayloadTooLarge)
    } else if request.timeout_seconds == 0 {
        Err(AdmissionError::InvalidTimeout)
    } else {
        Ok(())
    }
}

/// The timeout an execution runs under: the request's, capped at the user's limit.
pub fn effective_timeout(requested: u64, limit: u64) -> (r: u64)
    ensures
        r == if requested <= limit {
            requested
        } else {
            limit
        },
{
    if requested <= limit {
        requested
    } else {
        limit
    }
}

/// An admitted request.
pub struct Admission {
    pub timeout_seconds: u64,
    /// The analysis, whose warnings are to be logged.
    pub analysis: AnalysisResult,
}

/// A refused request, with the audit event the refusal emits, if any.
pub struct Denial {
    pub error: AdmissionError,
    pub audit: Option<AuditEvent>,
}

/// The denial carries a Denied audit event with the given action and id.
pub open spec fn audited(d: Denial, action: Seq<char>, id: Seq<char>) -> bool {
    match d.audit {
        Some(e) => e.action@ == action && e.outcome == AuditOutcome::Denied
            && e.event_type == AuditEventType::CodeExecution && (e.execution_id
            matches Some(x) && x@ == id),
        None => false,
    }
}

/// Whether the configuration lets the user run code.
pub open spec fn user_enabled(config: AppConfig, user_id: Seq<char>) -> bool {
    match user_entry(config.users@, user_id) {
        Some(u) => u.enabled,
        None => true,
    }
}

/// The effective execution cap of a user, in seconds.
pub open spec fn user_timeout_cap(config: AppConfig, user_id: Seq<char>) -> u64 {
    match user_entry(config.users@, user_id) {
        Some(u) => match u.resource_limits {
            Some(l) => l.max_execution_seconds,
            None => config.default_limits.max_execution_seconds,
        },
        None => config.default_limits.max_execution_seconds,
    }
}

fn categories(analysis: &AnalysisResult) -> (r: Vec<String>)
    ensures
        r@.len() == analysis.warnings@.len(),
        forall|i: int| 0 <= i < r@.len() ==> r@[i]@ == analysis.warnings@[i].category@,
{
    let mut out: Vec<String> = Vec::new();
    let mut i: usize = 0;
    while i < analysis.warnings.len()
        invariant
            i <= analysis.warnings@.len(),
            out@.len() == i,
            forall|k: int| 0 <= k < i ==> out@[k]@ == analysis.warnings@[k].category@,
        decreases analysis.warnings@.len() - i,
    {
        out.push(analysis.warnings[i].category.clone());
        i = i + 1;
    }
    out
}

fn denial_event(user_id: &str, audit_id: String, request: &ExecuteRequest, action: &str, now_ms: u64) -> (r: AuditEvent)
    ensures
        r.outcome == AuditOutcome::Denied,
        r.event_type == AuditEventType::CodeExecution,
        r.action@ == action@,
        r.user_id@ == user_id@,
        r.execution_id == Some(audit_id),
        r.timestamp_ms == now_ms,
{
    let mut event = create_execution_event(
        user_id.to_string(),
        audit_id,
        request.language.as_str(),
        AuditOutcome::Denied,
        0,
        now_ms,
    );
    event.action = action.to_string();
    event
}

/// Runs the admission gate for `user_id` at `now_ms`. Every denial carries a
/// Denied audit event whose execution id is the synthetic `audit_id`. Only the
/// rate-limit step changes state: it spends a token when it is reached and
/// a token is available.
pub fn check_admission(
    config: &AppConfig,
    limiter: &mut RateLimiter,
    analyzer: &CodeAnalyzer,
    user_id: &str,
    request: &ExecuteRequest,
    audit_id: String,
    now_ms: u64,
) -> (r: Result<Admission, Denial>)
    requires
        old(limiter).wf(),
    ensures
        final(limiter).wf(),
        ({
            let invalid = validation(code_bytes(request.code@), request.timeout_seconds);
            let enabled = user_enabled(*config, user_id@);
            let allowed = old(limiter).level_at(user_id@, now_ms) >= TOKEN;
            let findings = warnings_for(encode_utf8(request.code@), request.language);
            let blocked = analyzer.strict() && max_severity(findings) == RiskLevel::Critical;
            &&& invalid is Some ==> (r is Err && *final(limiter) == *old(limiter))
            &&& invalid == Some(AdmissionError::EmptyCode) ==> (r matches Err(d) && d.error is EmptyCode
                && audited(d, "payload-empty"@, audit_id@))
            &&& invalid == Some(AdmissionError::PayloadTooLarge) ==> (r matches Err(d) && d.error is PayloadTooLarge
                && audited(d, "payload-too-large"@, audit_id@))
            &&& invalid == Some(AdmissionError::InvalidTimeout) ==> (r matches Err(d) && d.error is InvalidTimeout
                && audited(d, "invalid-timeout"@, audit_id@))
            &&& invalid is None && !enabled ==> (r matches Err(d) && d.error is Forbidden
                && audited(d, "user-disabled"@, audit_id@)
                && *final(limiter) == *old(limiter))
            &&& invalid is None && enabled ==> final(limiter).credits_of(user_id@) == if allowed {
                (old(limiter).level_at(user_id@, now_ms) - TOKEN) as nat
            } else {
                old(limiter).level_at(user_id@, now_ms)
            }
            &&& invalid is None && enabled && !allowed ==> (r matches Err(d) && d.error is TooManyRequests
                && audited(d, "rate-limited"@, audit_id@))
            &&& invalid is None && enabled && allowed && blocked ==> (r matches Err(d)
                && audited(d, "blocked"@, audit_id@) && (d.error matches AdmissionError::Blocked(c)
                && c@.len() == findings.len() && forall|i: int|
                0 <= i < c@.len() ==> (#[trigger] c@[i])@ == findings[i].category))
            &&& invalid is None && enabled && allowed && !blocked ==> (r matches Ok(a)
                && reports(a.analysis, findings, analyzer.strict())
                && a.timeout_seconds == if request.timeout_seconds <= user_timeout_cap(*config, user_id@) {
                    request.timeout_seconds
                } else {
                    user_timeout_cap(*config, user_id@)
                })
        }),
{
    match validate_request(request) {
        Err(e) => {
            let action = match e {
                AdmissionError::EmptyCode => "payload-empty",
                AdmissionError::PayloadTooLarge => "payload-too-large",
                _ => "invalid-timeout",
            };
            let event = denial_event(user_id, audit_id, request, action, now_ms);
            return Err(Denial { error: e, audit: Some(event) });
        },
        Ok(()) => {},
    }
    if !config.is_user_enabled(user_id) {
        let event = denial_event(user_id, audit_id, request, "user-disabled", now_ms);
        return Err(Denial { error: AdmissionError::Forbidden, audit: Some(event) });
    }
    if !limiter.check_limit_at(user_id, now_ms) {
        let event = denial_event(user_id, audit_id, request, "rate-limited", now_ms);
        return Err(Denial { error: AdmissionError::TooManyRequests, audit: Some(event) });
    }
    let analysis = analyzer.analyze(request.code.as_str(), request.language);
    if analysis.blocked {
        let event = denial_event(user_id, audit_id, request, "blocked", now_ms);
        return Err(Denial { error: AdmissionError::Blocked(categories(&analysis)), audit: Some(event) });
    }
    let cap = config.get_user_limits(user_id).max_execution_seconds;
    Ok(Admission { timeout_seconds: effective_timeout(request.timeout_seconds, cap), analysis })
}

} // verus!
