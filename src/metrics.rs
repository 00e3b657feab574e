//! Metric updates for sessions, file operations, security events and
//! execution outcomes. Each function says which series change and by how
//! much; the exporter applies them.
use vstd::prelude::*;

verus! {

/// How a series changes.
#[derive(Clone, Copy, Debug, PartialEq, Eq, Structural)]
pub enum MetricChange {
    /// A counter grows by the amount.
    CounterAdd(u64),
    /// A gauge grows by one.
    GaugeUp,
    /// A gauge shrinks by one.
    GaugeDown,
}

/// One change to one labelled series.
#[derive(Clone, Debug)]
pub struct MetricUpdate {
    pub name: String,
    pub labels: Vec<(String, String)>,
    pub change: MetricChange,
}

/// An update as plain values.
pub open spec fn update_is(
    u: MetricUpdate,
    name: Seq<char>,
    labels: Seq<(Seq<char>, Seq<char>)>,
    change: MetricChange,
) -> bool {
    &&& u.name@ == name
    &&& u.labels@.len() == labels.len()
    &&& forall|i: int|
        0 <= i < labels.len() ==> (#[trigger] u.labels@[i]).0@ == labels[i].0 && u.labels@[i].1@
            == labels[i].1
    &&& u.change == change
}

fn update(name: &str, labels: Vec<(String, String)>, change: MetricChange) -> (r: MetricUpdate)
    ensures
        r.name@ == name@,
        r.labels == labels,
        r.change == change,
{
    MetricUpdate { name: name.to_string(), labels, change }
}

fn one_label(key: &str, value: &str) -> (r: Vec<(String, String)>)
    ensures
        r@.len() == 1,
        r@[0].0@ == key@ && r@[0].1@ == value@,
{
    let mut v: Vec<(String, String)> = Vec::new();
    v.push((key.to_string(), value.to_string()));
    v
}

fn two_labels(k1: &str, v1: &str, k2: &str, v2: &str) -> (r: Vec<(String, String)>)
    ensures
        r@.len() == 2,
        r@[0].0@ == k1@ && r@[0].1@ == v1@,
        r@[1].0@ == k2@ && r@[1].1@ == v2@,
{
    let mut v: Vec<(String, String)> = Vec::new();
    v.push((k1.to_string(), v1.to_string()));
    v.push((k2.to_string(), v2.to_string()));
    v
}

/// A session was created: its counter grows, and so does the active gauge.
pub fn record_session_created(user_id: &str) -> (r: Vec<MetricUpdate>)
    ensures
        r@.len() == 2,
        update_is(r@[0], "cage_sessions_created_total"@, seq![("user"@, user_id@)], MetricChange::CounterAdd(1)),
        update_is(r@[1], "cage_active_sessions"@, seq![], MetricChange::GaugeUp),
{
    let mut v: Vec<MetricUpdate> = Vec::new();
    v.push(update("cage_sessions_created_total", one_label("user", user_id), MetricChange::CounterAdd(1)));
    v.push(update("cage_active_sessions", Vec::new(), MetricChange::GaugeUp));
    v
}

/// A session ended: its counter grows and the active gauge shrinks.
pub fn record_session_terminated(user_id: &str) -> (r: Vec<MetricUpdate>)
    ensures
        r@.len() == 2,
        update_is(r@[0], "cage_sessions_terminated_total"@, seq![("user"@, user_id@)], MetricChange::CounterAdd(1)),
        update_is(r@[1], "cage_active_sessions"@, seq![], MetricChange::GaugeDown),
{
    let mut v: Vec<MetricUpdate> = Vec::new();
    v.push(update("cage_sessions_terminated_total", one_label("user", user_id), MetricChange::CounterAdd(1)));
    v.push(update("cage_active_sessions", Vec::new(), MetricChange::GaugeDown));
    v
}

/// A file operation: one more operation and `size_bytes` more bytes.
pub fn record_file_operation(user_id: &str, operation: &str, size_bytes: u64) -> (r: Vec<MetricUpdate>)
    ensures
        r@.len() == 2,
        update_is(
            r@[0],
            "cage_file_operations_total"@,
            seq![("user"@, user_id@), ("operation"@, operation@)],
            MetricChange::CounterAdd(1),
        ),
        update_is(
            r@[1],
            "cage_file_bytes_total"@,
            seq![("user"@, user_id@), ("operation"@, operation@)],
            MetricChange::CounterAdd(size_bytes),
        ),
{
    let mut v: Vec<MetricUpdate> = Vec::new();
    v.push(update("cage_file_operations_total", two_labels("user", user_id, "operation", operation), MetricChange::CounterAdd(1)));
    v.push(update("cage_file_bytes_total", two_labels("user", user_id, "operation", operation), MetricChange::CounterAdd(size_bytes)));
    v
}

/// A security event of a type and severity.
pub fn record_security_event(event_type: &str, severity: &str) -> (r: Vec<MetricUpdate>)
    ensures
        r@.len() == 1,
        update_is(
            r@[0],
            "cage_security_events_total"@,
            seq![("type"@, event_type@), ("severity"@, severity@)],
            MetricChange::CounterAdd(1),
        ),
{
    let mut v: Vec<MetricUpdate> = Vec::new();
    v.push(update("cage_security_events_total", two_labels("type", event_type, "severity", severity), MetricChange::CounterAdd(1)));
    v
}

/// The counters of a finished execution: the total, and the success or the
/// error counter.
pub fn record_execution_counts(user_id: &str, language: &str, success: bool) -> (r: Vec<MetricUpdate>)
    ensures
        r@.len() == 2,
        update_is(
            r@[0],
            "cage_executions_total"@,
            seq![("user"@, user_id@), ("language"@, language@)],
            MetricChange::CounterAdd(1),
        ),
        update_is(
            r@[1],
            if success {
                "cage_executions_success_total"@
            } else {
                "cage_executions_error_total"@
            },
            seq![("user"@, user_id@), ("language"@, language@)],
            MetricChange::CounterAdd(1),
        ),
{
    let mut v: Vec<MetricUpdate> = Vec::new();
    v.push(update("cage_executions_total", two_labels("user", user_id, "language", language), MetricChange::CounterAdd(1)));
    let name = if success {
        "cage_executions_success_total"
    } else {
        "cage_executions_error_total"
    };
    v.push(update(name, two_labels("user", user_id, "language", language), MetricChange::CounterAdd(1)));
    v
}

} // verus!
