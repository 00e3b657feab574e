//! Audit events for admissions, executions and file operations, and their
//! rendering as syslog (RFC 5424) or CEF lines.
use vstd::prelude::*;

use crate::text::{concat, concat3, decimal, decimal_string};

verus! {

#[derive(Clone, Copy, Debug, PartialEq, Eq, Structural)]
pub enum AuditEventType {
    Authentication,
    Authorization,
    CodeExecution,
    FileOperation,
    SessionManagement,
    ResourceLimit,
    SecurityViolation,
    ConfigChange,
}

impl AuditEventType {
    /// The variant's name as written in log lines.
    pub open spec fn label(self) -> Seq<char> {
        match self {
            AuditEventType::Authentication => "Authentication"@,
            AuditEventType::Authorization => "Authorization"@,
            AuditEventType::CodeExecution => "CodeExecution"@,
            AuditEventType::FileOperation => "FileOperation"@,
            AuditEventType::SessionManagement => "SessionManagement"@,
            AuditEventType::ResourceLimit => "ResourceLimit"@,
            AuditEventType::SecurityViolation => "SecurityViolation"@,
            AuditEventType::ConfigChange => "ConfigChange"@,
        }
    }

    pub fn name(&self) -> (r: &'static str)
        ensures
            r@ == self.label(),
    {
        match self {
            AuditEventType::Authentication => "Authentication",
            AuditEventType::Authorization => "Authorization",
            AuditEventType::CodeExecution => "CodeExecution",
            AuditEventType::FileOperation => "FileOperation",
            AuditEventType::SessionManagement => "SessionManagement",
            AuditEventType::ResourceLimit => "ResourceLimit",
            AuditEventType::SecurityViolation => "SecurityViolation",
            AuditEventType::ConfigChange => "ConfigChange",
        }
    }
}

#[derive(Clone, Copy, Debug, PartialEq, Eq, Structural)]
pub enum AuditOutcome {
    Success,
    Failure,
    Denied,
}

impl AuditOutcome {
    pub open spec fn label(self) -> Seq<char> {
        match self {
            AuditOutcome::Success => "Success"@,
            AuditOutcome::Failure => "Failure"@,
            AuditOutcome::Denied => "Denied"@,
        }
    }

    pub fn name(&self) -> (r: &'static str)
        ensures
            r@ == self.label(),
    {
        match self {
            AuditOutcome::Success => "Success",
            AuditOutcome::Failure => "Failure",
            AuditOutcome::Denied => "Denied",
        }
    }

    /// Syslog priority: informational, warning or error.
    pub open spec fn priority(self) -> nat {
        match self {
            AuditOutcome::Success => 6,
            AuditOutcome::Failure => 4,
            AuditOutcome::Denied => 3,
        }
    }

    /// CEF severity.
    pub open spec fn severity(self) -> nat {
        match self {
            AuditOutcome::Success => 2,
            AuditOutcome::Failure => 5,
            AuditOutcome::Denied => 8,
        }
    }
}

/// Output format of the audit log.
#[derive(Clone, Copy, Debug, PartialEq, Eq, Structural)]
pub enum SiemFormat {
    Syslog,
    Cef,
    Json,
}

/// One audited action.
#[derive(Clone, Debug)]
pub struct AuditEvent {
    /// Milliseconds since the Unix epoch.
    pub timestamp_ms: u64,
    pub event_type: AuditEventType,
    pub user_id: String,
    pub action: String,
    pub outcome: AuditOutcome,
    /// Key/value details, in order.
    pub details: Vec<(String, String)>,
    pub execution_id: Option<String>,
    pub container_id: Option<String>,
    pub source_ip: Option<String>,
}

/// RFC 3339 rendering, in UTC, of a time given in milliseconds since the
/// epoch; empty for an instant outside chrono's range.
pub uninterp spec fn rfc3339(ms: u64) -> Seq<char>;

/// Relies on chrono's `DateTime::<Utc>::from_timestamp_millis` and
/// `to_rfc3339`: the RFC 3339 rendering of the instant, or nothing where
/// chrono cannot represent it.
#[verifier::external_body]
fn rfc3339_of_millis(ms: u64) -> (r: String)
    requires
        ms <= i64::MAX as u64,
    ensures
        r@ == rfc3339(ms),
{
    match chrono::DateTime::<chrono::Utc>::from_timestamp_millis(ms as i64) {
        Some(t) => t.to_rfc3339(),
        None => String::new(),
    }
}

/// `k=v` for each detail, separated by single spaces.
pub open spec fn details_text(d: Seq<(String, String)>) -> Seq<char>
    decreases d.len(),
{
    if d.len() == 0 {
        Seq::empty()
    } else if d.len() == 1 {
        d[0].0@ + "="@ + d[0].1@
    } else {
        details_text(d.drop_last()) + " "@ + d.last().0@ + "="@ + d.last().1@
    }
}

/// The syslog line of an event stamped with `ts`.
pub open spec fn syslog_line(app: Seq<char>, e: AuditEvent, ts: Seq<char>) -> Seq<char> {
    "<"@ + decimal(e.outcome.priority()) + ">1 "@ + ts + " cage-orchestrator "@ + app
        + " - - [user=\""@ + e.user_id@ + "\" action=\""@ + e.action@ + "\" outcome=\""@
        + e.outcome.label() + "\" event_type=\""@ + e.event_type.label() + "\"] "@ + details_text(
        e.details@,
    )
}

/// The fixed CEF extension fields of an event, in order.
pub open spec fn cef_head(e: AuditEvent) -> Seq<Seq<char>> {
    let base = seq![
        "suser="@ + e.user_id@,
        "outcome="@ + e.outcome.label(),
        "rt="@ + decimal(e.timestamp_ms as nat),
    ];
    let with_exec = match e.execution_id {
        Some(x) => base.push("externalId="@ + x@),
        None => base,
    };
    let with_container = match e.container_id {
        Some(c) => with_exec.push("cs1="@ + c@).push("cs1Label=ContainerID"@),
        None => with_exec,
    };
    match e.source_ip {
        Some(s) => with_container.push("src="@ + s@),
        None => with_container,
    }
}

/// All CEF extension fields of an event: the fixed ones, then the details.
pub open spec fn cef_fields(e: AuditEvent) -> Seq<Seq<char>> {
    cef_head(e) + e.details@.map_values(|kv: (String, String)| kv.0@ + "="@ + kv.1@)
}

/// Strings joined with single spaces.
pub open spec fn spaced(parts: Seq<Seq<char>>) -> Seq<char>
    decreases parts.len(),
{
    if parts.len() == 0 {
        Seq::empty()
    } else if parts.len() == 1 {
        parts[0]
    } else {
        spaced(parts.drop_last()) + " "@ + parts.last()
    }
}

/// The CEF line of an event.
pub open spec fn cef_line(e: AuditEvent) -> Seq<char> {
    "CEF:0|CAGE|Orchestrator|1.0.0|"@ + e.event_type.label() + "|"@ + e.action@ + "|"@ + decimal(
        e.outcome.severity(),
    ) + "|"@ + spaced(cef_fields(e))
}

fn join_spaced(parts: &Vec<String>) -> (r: String)
    ensures
        r@ == spaced(parts@.map_values(|s: String| s@)),
{
    let ghost v = parts@.map_values(|s: String| s@);
    let mut out = String::new();
    let mut i: usize = 0;
    while i < parts.len()
        invariant
            v == parts@.map_values(|s: String| s@),
            i <= parts@.len(),
            out@ == spaced(v.take(i as int)),
        decreases parts@.len() - i,
    {
        proof {
            assert(v.take(i + 1).drop_last() =~= v.take(i as int));
        }
        if i == 0 {
            out = parts[0].clone();
            assert(v.take(1) =~= seq![parts@[0]@]);
        } else {
            out = concat3(out.as_str(), " ", parts[i].as_str());
        }
        i = i + 1;
    }
    assert(v.take(parts@.len() as int) =~= v);
    out
}

/// Audit log writer.
pub struct AuditLogger {
    pub format: SiemFormat,
    pub app_name: String,
}

impl AuditLogger {
    pub fn new(format: SiemFormat) -> (r: AuditLogger)
        ensures
            r.format == format,
            r.app_name@ == "CAGE"@,
    {
        AuditLogger { format, app_name: "CAGE".to_string() }
    }

    /// `k=v` pairs separated by spaces.
    pub fn format_details(&self, details: &Vec<(String, String)>) -> (r: String)
        ensures
            r@ == details_text(details@),
    {
        let mut out = String::new();
        let mut i: usize = 0;
        while i < details.len()
            invariant
                i <= details@.len(),
                out@ == details_text(details@.take(i as int)),
            decreases details@.len() - i,
        {
            proof {
                assert(details@.take(i + 1).drop_last() =~= details@.take(i as int));
            }
            let pair = concat3(details[i].0.as_str(), "=", details[i].1.as_str());
            if i == 0 {
                out = pair;
                assert(details@.take(1) =~= seq![details@[0]]);
            } else {
                out = concat3(out.as_str(), " ", pair.as_str());
            }
            i = i + 1;
        }
        assert(details@.take(details@.len() as int) =~= details@);
        out
    }

    /// The syslog line of an event.
    pub fn syslog_line(&self, event: &AuditEvent) -> (r: String)
        requires
            event.timestamp_ms <= i64::MAX as u64,
        ensures
            r@ == syslog_line(self.app_name@, *event, rfc3339(event.timestamp_ms)),
    {
        let ts = rfc3339_of_millis(event.timestamp_ms);
        self.syslog_line_at(event, ts.as_str())
    }

    /// The syslog line of an event, stamped with the rendered time `ts`.
    pub fn syslog_line_at(&self, event: &AuditEvent, ts: &str) -> (r: String)
        ensures
            r@ == syslog_line(self.app_name@, *event, ts@),
    {
        let priority: u64 = match event.outcome {
            AuditOutcome::Success => 6,
            AuditOutcome::Failure => 4,
            AuditOutcome::Denied => 3,
        };
        let p = decimal_string(priority);
        let s = concat3("<", p.as_str(), ">1 ");
        let s = concat3(s.as_str(), ts, " cage-orchestrator ");
        let s = concat3(s.as_str(), self.app_name.as_str(), " - - [user=\"");
        let s = concat3(s.as_str(), event.user_id.as_str(), "\" action=\"");
        let s = concat3(s.as_str(), event.action.as_str(), "\" outcome=\"");
        let s = concat3(s.as_str(), event.outcome.name(), "\" event_type=\"");
        let s = concat3(s.as_str(), event.event_type.name(), "\"] ");
        let d = self.format_details(&event.details);
        concat(s.as_str(), d.as_str())
    }

    /// The CEF line of an event.
    pub fn cef_line(&self, event: &AuditEvent) -> (r: String)
        ensures
            r@ == cef_line(*event),
    {
        let severity: u64 = match event.outcome {
            AuditOutcome::Success => 2,
            AuditOutcome::Failure => 5,
            AuditOutcome::Denied => 8,
        };
        let mut fields: Vec<String> = Vec::new();
        fields.push(concat("suser=", event.user_id.as_str()));
        fields.push(concat("outcome=", event.outcome.name()));
        let rt = decimal_string(event.timestamp_ms);
        fields.push(concat("rt=", rt.as_str()));
        match &event.execution_id {
            Some(x) => fields.push(concat("externalId=", x.as_str())),
            None => {},
        }
        match &event.container_id {
            Some(c) => {
                fields.push(concat("cs1=", c.as_str()));
                fields.push("cs1Label=ContainerID".to_string());
            },
            None => {},
        }
        match &event.source_ip {
            Some(s) => fields.push(concat("src=", s.as_str())),
            None => {},
        }
        let ghost head = fields@.map_values(|s: String| s@);
        let ghost expected_head = cef_head(*event);
        assert(head =~= expected_head);
        let ghost kvs = event.details@.map_values(|kv: (String, String)| kv.0@ + "="@ + kv.1@);
        let mut i: usize = 0;
        while i < event.details.len()
            invariant
                kvs == event.details@.map_values(|kv: (String, String)| kv.0@ + "="@ + kv.1@),
                kvs.len() == event.details@.len(),
                i <= event.details@.len(),
                fields@.map_values(|s: String| s@) == head + kvs.take(i as int),
            decreases event.details@.len() - i,
        {
            let ghost prev = fields@;
            fields.push(concat3(event.details[i].0.as_str(), "=", event.details[i].1.as_str()));
            proof {
                assert(kvs[i as int] == event.details@[i as int].0@ + "="@ + event.details@[i as int].1@);
                assert(kvs.take(i + 1) =~= kvs.take(i as int).push(kvs[i as int]));
                assert(fields@.map_values(|s: String| s@) =~= prev.map_values(|s: String| s@).push(
                    kvs[i as int],
                ));
                assert(fields@.map_values(|s: String| s@) =~= head + kvs.take(i + 1));
            }
            i = i + 1;
        }
        assert(kvs.take(event.details@.len() as int) =~= kvs);
        let sev = decimal_string(severity);
        let s = concat3("CEF:0|CAGE|Orchestrator|1.0.0|", event.event_type.name(), "|");
        let s = concat3(s.as_str(), event.action.as_str(), "|");
        let s = concat3(s.as_str(), sev.as_str(), "|");
        let ext = join_spaced(&fields);
        concat(s.as_str(), ext.as_str())
    }

    /// The line this logger writes for an event; JSON lines are produced by
    /// the serializer of the embedding program, so there is none here.
    pub fn render(&self, event: &AuditEvent) -> (r: Option<String>)
        requires
            event.timestamp_ms <= i64::MAX as u64,
        ensures
            self.format == SiemFormat::Syslog ==> (r matches Some(l) && l@ == syslog_line(
                self.app_name@,
                *event,
                rfc3339(event.timestamp_ms),
            )),
            self.format == SiemFormat::Cef ==> (r matches Some(l) && l@ == cef_line(*event)),
            self.format == SiemFormat::Json ==> r is None,
    {
        match self.format {
            SiemFormat::Syslog => Some(self.syslog_line(event)),
            SiemFormat::Cef => Some(self.cef_line(event)),
            SiemFormat::Json => None,
        }
    }
}

impl Default for AuditLogger {
    fn default() -> (r: AuditLogger)
        ensures
            r.format == SiemFormat::Json,
    {
        AuditLogger::new(SiemFormat::Json)
    }
}

/// The audit event of an execution attempt or of its denial.
pub fn create_execution_event(
    user_id: String,
    execution_id: String,
    language: &str,
    outcome: AuditOutcome,
    duration_ms: u64,
    now_ms: u64,
) -> (r: AuditEvent)
    ensures
        r.timestamp_ms == now_ms,
        r.event_type == AuditEventType::CodeExecution,
        r.user_id == user_id,
        r.action@ == "CODE_EXECUTION"@,
        r.outcome == outcome,
        r.details@.len() == 2,
        r.details@[0].0@ == "language"@ && r.details@[0].1@ == language@,
        r.details@[1].0@ == "duration_ms"@ && r.details@[1].1@ == decimal(duration_ms as nat),
        r.execution_id == Some(execution_id),
        r.container_id is None,
        r.source_ip is None,
{
    let mut details: Vec<(String, String)> = Vec::new();
    details.push(("language".to_string(), language.to_string()));
    details.push(("duration_ms".to_string(), decimal_string(duration_ms)));
    AuditEvent {
        timestamp_ms: now_ms,
        event_type: AuditEventType::CodeExecution,
        user_id,
        action: "CODE_EXECUTION".to_string(),
        outcome,
        details,
        execution_id: Some(execution_id),
        container_id: None,
        source_ip: None,
    }
}

/// The audit event of an authentication attempt.
pub fn create_auth_event(
    user_id: String,
    outcome: AuditOutcome,
    source_ip: Option<String>,
    now_ms: u64,
) -> (r: AuditEvent)
    ensures
        r.timestamp_ms == now_ms,
        r.event_type == AuditEventType::Authentication,
        r.user_id == user_id,
        r.action@ == "AUTHENTICATION"@,
        r.outcome == outcome,
        r.details@.len() == 0,
        r.execution_id is None,
        r.container_id is None,
        r.source_ip == source_ip,
{
    AuditEvent {
        timestamp_ms: now_ms,
        event_type: AuditEventType::Authentication,
        user_id,
        action: "AUTHENTICATION".to_string(),
        outcome,
        details: Vec::new(),
        execution_id: None,
        container_id: None,
        source_ip,
    }
}

/// The audit event of a workspace file operation.
pub fn create_file_event(
    user_id: String,
    operation: String,
    filename: String,
    size_bytes: u64,
    now_ms: u64,
) -> (r: AuditEvent)
    ensures
        r.timestamp_ms == now_ms,
        r.event_type == AuditEventType::FileOperation,
        r.user_id == user_id,
        r.action@ == operation@,
        r.outcome == AuditOutcome::Success,
        r.details@.len() == 3,
        r.details@[0].0@ == "filename"@ && r.details@[0].1@ == filename@,
        r.details@[1].0@ == "size_bytes"@ && r.details@[1].1@ == decimal(size_bytes as nat),
        r.details@[2].0@ == "operation"@ && r.details@[2].1@ == operation@,
        r.execution_id is None,
{
    let mut details: Vec<(String, String)> = Vec::new();
    let op = operation.clone();
    details.push(("filename".to_string(), filename));
    details.push(("size_bytes".to_string(), decimal_string(size_bytes)));
    details.push(("operation".to_string(), op));
    AuditEvent {
        timestamp_ms: now_ms,
        event_type: AuditEventType::FileOperation,
        user_id,
        action: operation,
        outcome: AuditOutcome::Success,
        details,
        execution_id: None,
        container_id: None,
        source_ip: None,
    }
}

} // verus!
