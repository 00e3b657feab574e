//! A session: one container for one user and language, its workspace, its
//! counters, its execution guard and its bounded execution history.
use vstd::prelude::*;

use crate::config::{NetworkPolicy, ResourceLimits};
use crate::models::{ExecutionStatus, Language, SessionStatus};
use crate::text::concat;
use crate::usage::{usage_from_stats, ResourceUsage};

verus! {

/// Number of execution summaries a session keeps.
pub const MAX_EXECUTION_HISTORY: usize = 100;

/// Lifecycle of a session.
#[derive(Clone, Copy, Debug, PartialEq, Eq, Structural)]
pub enum SessionState {
    Creating,
    Running,
    Stopped,
    Error,
}

/// Moves a session may make: from Creating to any other state, and from
/// Running to Stopped or Error. Stopped and Error are final.
pub open spec fn allowed_transition(from: SessionState, to: SessionState) -> bool {
    match from {
        SessionState::Creating => to != SessionState::Creating,
        SessionState::Running => to == SessionState::Stopped || to == SessionState::Error,
        _ => false,
    }
}

pub open spec fn status_of(state: SessionState) -> SessionStatus {
    match state {
        SessionState::Creating => SessionStatus::Creating,
        SessionState::Running => SessionStatus::Running,
        SessionState::Stopped => SessionStatus::Stopped,
        SessionState::Error => SessionStatus::Error,
    }
}

impl From<SessionState> for SessionStatus {
    fn from(state: SessionState) -> (r: SessionStatus) {
        match state {
            SessionState::Creating => SessionStatus::Creating,
            SessionState::Running => SessionStatus::Running,
            SessionState::Stopped => SessionStatus::Stopped,
            SessionState::Error => SessionStatus::Error,
        }
    }
}

impl vstd::std_specs::convert::FromSpecImpl<SessionState> for SessionStatus {
    open spec fn obeys_from_spec() -> bool {
        true
    }

    open spec fn from_spec(state: SessionState) -> SessionStatus {
        status_of(state)
    }
}

/// Record of one execution kept in a session's history.
#[derive(Clone, Debug)]
pub struct ExecutionSummary {
    pub execution_id: String,
    /// Completion time, milliseconds since the Unix epoch.
    pub timestamp_ms: u64,
    pub language: Language,
    /// Lowercase hex SHA-256 of the code.
    pub code_hash: String,
    pub status: ExecutionStatus,
    pub duration_ms: u64,
    pub exit_code: Option<i32>,
}

/// Timestamps in the order recorded never decrease.
pub open spec fn chronological(h: Seq<ExecutionSummary>) -> bool {
    forall|i: int, j: int| 0 <= i < j < h.len() ==> h[i].timestamp_ms <= h[j].timestamp_ms
}

/// The summary as it enters a history whose latest entry is `h.last()`: a
/// clock that stepped back is read as the latest recorded time.
pub open spec fn stamped(h: Seq<ExecutionSummary>, s: ExecutionSummary) -> ExecutionSummary {
    if h.len() > 0 && s.timestamp_ms < h.last().timestamp_ms {
        ExecutionSummary { timestamp_ms: h.last().timestamp_ms, ..s }
    } else {
        s
    }
}

/// The history after recording `s`: the oldest entry leaves when the buffer is full.
pub open spec fn recorded(h: Seq<ExecutionSummary>, s: ExecutionSummary) -> Seq<ExecutionSummary> {
    if h.len() >= MAX_EXECUTION_HISTORY {
        h.drop_first().push(stamped(h, s))
    } else {
        h.push(stamped(h, s))
    }
}

/// Counter step that stops at the largest value.
pub open spec fn bumped(n: u64) -> u64 {
    if n < u64::MAX {
        (n + 1) as u64
    } else {
        n
    }
}

/// A user's container session.
pub struct Session {
    pub session_id: String,
    pub user_id: String,
    pub language: Language,
    pub container_id: Option<String>,
    pub container_name: String,
    pub state: SessionState,
    pub workspace_path: String,
    pub resource_limits: ResourceLimits,
    pub network_policy: NetworkPolicy,
    pub created_at_ms: u64,
    pub last_activity_ms: u64,
    pub execution_count: u64,
    pub error_count: u64,
    pub history: Vec<ExecutionSummary>,
    pub executing: bool,
    /// Last known resource usage of the container.
    pub current_usage: ResourceUsage,
}

/// Name of the container of a session: `cage_<user>_<session id>`.
pub open spec fn container_name_for(user_id: Seq<char>, session_id: Seq<char>) -> Seq<char> {
    "cage_"@ + user_id + "_"@ + session_id
}

impl Session {
    pub open spec fn spec_state(&self) -> SessionState {
        self.state
    }

    pub open spec fn spec_container_id(&self) -> Option<Seq<char>> {
        match self.container_id {
            Some(id) => Some(id@),
            None => None,
        }
    }

    pub open spec fn spec_history(&self) -> Seq<ExecutionSummary> {
        self.history@
    }

    pub open spec fn spec_executions(&self) -> u64 {
        self.execution_count
    }

    pub open spec fn spec_errors(&self) -> u64 {
        self.error_count
    }

    pub open spec fn spec_last_activity(&self) -> u64 {
        self.last_activity_ms
    }

    /// An execution holds the session's guard.
    pub open spec fn spec_executing(&self) -> bool {
        self.executing
    }

    /// The history is chronological and holds at most 100 entries.
    pub open spec fn wf(&self) -> bool {
        &&& self.spec_history().len() <= MAX_EXECUTION_HISTORY
        &&& chronological(self.spec_history())
    }

    /// A new session in the Creating state; `session_id` is the id in its
    /// short (unhyphenated) form.
    pub fn new(
        user_id: String,
        language: Language,
        session_id: String,
        workspace_path: String,
        resource_limits: ResourceLimits,
        network_policy: NetworkPolicy,
        now_ms: u64,
    ) -> (r: Session)
        ensures
            r.wf(),
            r.user_id == user_id,
            r.language == language,
            r.session_id == session_id,
            r.container_name@ == container_name_for(user_id@, session_id@),
            r.workspace_path == workspace_path,
            r.resource_limits == resource_limits,
            r.spec_state() == SessionState::Creating,
            r.spec_container_id() is None,
            r.spec_history().len() == 0,
            r.spec_executions() == 0,
            r.spec_errors() == 0,
            !r.spec_executing(),
            r.created_at_ms == now_ms,
            r.spec_last_activity() == now_ms,
    {
        let prefix = concat("cage_", user_id.as_str());
        let with_sep = concat(prefix.as_str(), "_");
        let container_name = concat(with_sep.as_str(), session_id.as_str());
        Session {
            session_id,
            user_id,
            language,
            container_id: None,
            container_name,
            state: SessionState::Creating,
            workspace_path,
            resource_limits,
            network_policy,
            created_at_ms: now_ms,
            last_activity_ms: now_ms,
            execution_count: 0,
            error_count: 0,
            history: Vec::new(),
            executing: false,
            current_usage: ResourceUsage { memory_bytes: 0, cpu_hundredths: 0, disk_mb: 0, pids: 0 },
        }
    }

    pub fn state(&self) -> (r: SessionState)
        ensures
            r == self.spec_state(),
    {
        self.state
    }

    /// Moves to `state` where the lifecycle allows it; reports whether it moved.
    pub fn set_state(&mut self, state: SessionState) -> (r: bool)
        ensures
            r == allowed_transition(old(self).spec_state(), state),
            final(self).spec_state() == if r {
                state
            } else {
                old(self).spec_state()
            },
            final(self).spec_container_id() == old(self).spec_container_id(),
            final(self).spec_history() == old(self).spec_history(),
            final(self).spec_executing() == old(self).spec_executing(),
            final(self).container_name == old(self).container_name,
            final(self).user_id == old(self).user_id,
            final(self).language == old(self).language,
            final(self).session_id == old(self).session_id,
            final(self).workspace_path == old(self).workspace_path,
    {
        let ok = match self.state {
            SessionState::Creating => state != SessionState::Creating,
            SessionState::Running => state == SessionState::Stopped || state == SessionState::Error,
            _ => false,
        };
        if ok {
            self.state = state;
        }
        ok
    }

    pub fn container_id(&self) -> (r: Option<String>)
        ensures
            match r {
                Some(id) => self.spec_container_id() == Some(id@),
                None => self.spec_container_id() is None,
            },
    {
        match &self.container_id {
            Some(id) => Some(id.clone()),
            None => None,
        }
    }

    /// Records the container id the runtime returned; it is set only once.
    pub fn set_container_id(&mut self, container_id: String) -> (r: bool)
        ensures
            r == (old(self).spec_container_id() is None),
            final(self).spec_container_id() == if r {
                Some(container_id@)
            } else {
                old(self).spec_container_id()
            },
            final(self).spec_state() == old(self).spec_state(),
            final(self).spec_history() == old(self).spec_history(),
            final(self).spec_executing() == old(self).spec_executing(),
            final(self).container_name == old(self).container_name,
            final(self).user_id == old(self).user_id,
            final(self).language == old(self).language,
            final(self).session_id == old(self).session_id,
            final(self).workspace_path == old(self).workspace_path,
    {
        if self.container_id.is_some() {
            return false;
        }
        self.container_id = Some(container_id);
        true
    }

    /// Marks activity at `now_ms`; the activity time never moves back.
    pub fn touch(&mut self, now_ms: u64)
        ensures
            final(self).spec_last_activity() == if now_ms > old(self).spec_last_activity() {
                now_ms
            } else {
                old(self).spec_last_activity()
            },
            final(self).spec_state() == old(self).spec_state(),
            final(self).spec_history() == old(self).spec_history(),
            final(self).spec_executing() == old(self).spec_executing(),
            final(self).spec_executions() == old(self).spec_executions(),
            final(self).spec_errors() == old(self).spec_errors(),
            final(self).spec_container_id() == old(self).spec_container_id(),
    {
        if now_ms > self.last_activity_ms {
            self.last_activity_ms = now_ms;
        }
    }

    pub fn last_activity(&self) -> (r: u64)
        ensures
            r == self.spec_last_activity(),
    {
        self.last_activity_ms
    }

    pub fn increment_executions(&mut self)
        ensures
            final(self).spec_executions() == bumped(old(self).spec_executions()),
            final(self).spec_errors() == old(self).spec_errors(),
            final(self).spec_state() == old(self).spec_state(),
            final(self).spec_history() == old(self).spec_history(),
            final(self).spec_executing() == old(self).spec_executing(),
            final(self).spec_container_id() == old(self).spec_container_id(),
            final(self).spec_last_activity() == old(self).spec_last_activity(),
    {
        if self.execution_count < u64::MAX {
            self.execution_count = self.execution_count + 1;
        }
    }

    pub fn increment_errors(&mut self)
        ensures
            final(self).spec_errors() == bumped(old(self).spec_errors()),
            final(self).spec_executions() == old(self).spec_executions(),
            final(self).spec_state() == old(self).spec_state(),
            final(self).spec_history() == old(self).spec_history(),
            final(self).spec_executing() == old(self).spec_executing(),
            final(self).spec_container_id() == old(self).spec_container_id(),
            final(self).spec_last_activity() == old(self).spec_last_activity(),
            final(self).user_id == old(self).user_id,
            final(self).language == old(self).language,
            final(self).container_name == old(self).container_name,
            final(self).workspace_path == old(self).workspace_path,
    {
        if self.error_count < u64::MAX {
            self.error_count = self.error_count + 1;
        }
    }

    pub fn execution_count(&self) -> (r: u64)
        ensures
            r == self.spec_executions(),
    {
        self.execution_count
    }

    pub fn error_count(&self) -> (r: u64)
        ensures
            r == self.spec_errors(),
    {
        self.error_count
    }

    /// Appends a summary; the oldest leaves once 100 are kept.
    pub fn add_execution(&mut self, summary: ExecutionSummary)
        requires
            old(self).wf(),
        ensures
            final(self).wf(),
            final(self).spec_history() == recorded(old(self).spec_history(), summary),
            final(self).spec_state() == old(self).spec_state(),
            final(self).spec_executing() == old(self).spec_executing(),
            final(self).spec_executions() == old(self).spec_executions(),
            final(self).spec_errors() == old(self).spec_errors(),
            final(self).spec_container_id() == old(self).spec_container_id(),
            final(self).spec_last_activity() == old(self).spec_last_activity(),
            final(self).user_id == old(self).user_id,
            final(self).language == old(self).language,
            final(self).container_name == old(self).container_name,
            final(self).workspace_path == old(self).workspace_path,
    {
        let ghost h = self.history@;
        let n = self.history.len();
        let mut entry = summary;
        if n > 0 && entry.timestamp_ms < self.history[n - 1].timestamp_ms {
            entry.timestamp_ms = self.history[n - 1].timestamp_ms;
        }
        assert(entry == stamped(h, summary));
        if n >= MAX_EXECUTION_HISTORY {
            self.history.remove(0);
            assert(self.history@ =~= h.drop_first());
        }
        self.history.push(entry);
        assert(self.history@ =~= recorded(h, summary));
    }

    /// Takes the runtime's figures for the container; a figure that cannot
    /// be read keeps its last known value.
    pub fn update_usage(&mut self, cpu: &[u8], memory: &[u8], pids: &[u8], disk_mb: u64)
        ensures
            final(self).current_usage.cpu_hundredths == match crate::usage::percent_hundredths(cpu@) {
                Some(h) => h as u64,
                None => old(self).current_usage.cpu_hundredths,
            },
            final(self).current_usage.memory_bytes == match crate::usage::memory_bytes(
                crate::usage::used_part(memory@),
            ) {
                Some(b) => b as u64,
                None => old(self).current_usage.memory_bytes,
            },
            final(self).current_usage.pids == match crate::usage::count_of(pids@) {
                Some(n) => n as u32,
                None => old(self).current_usage.pids,
            },
            final(self).current_usage.disk_mb == disk_mb,
            *final(self) == (Session { current_usage: final(self).current_usage, ..*old(self) }),
    {
        let usage = usage_from_stats(&self.current_usage, cpu, memory, pids, disk_mb);
        self.current_usage = usage;
    }

    pub fn get_execution_history(&self) -> (r: &Vec<ExecutionSummary>)
        ensures
            r@ == self.spec_history(),
    {
        &self.history
    }

    /// Takes the session's execution guard, marks activity and counts the
    /// execution; refuses while another execution holds the guard.
    pub fn begin_execution(&mut self, now_ms: u64) -> (r: bool)
        ensures
            r == !old(self).spec_executing(),
            final(self).spec_executing(),
            r ==> final(self).spec_executions() == bumped(old(self).spec_executions()),
            !r ==> final(self).spec_executions() == old(self).spec_executions(),
            final(self).spec_errors() == old(self).spec_errors(),
            final(self).spec_history() == old(self).spec_history(),
            final(self).spec_state() == old(self).spec_state(),
            final(self).spec_container_id() == old(self).spec_container_id(),
            final(self).user_id == old(self).user_id,
            final(self).language == old(self).language,
            final(self).workspace_path == old(self).workspace_path,
            final(self).container_name == old(self).container_name,
            old(self).wf() ==> final(self).wf(),
            final(self).spec_last_activity() == if r && now_ms > old(self).spec_last_activity() {
                now_ms
            } else {
                old(self).spec_last_activity()
            },
    {
        if self.executing {
            return false;
        }
        self.executing = true;
        if now_ms > self.last_activity_ms {
            self.last_activity_ms = now_ms;
        }
        if self.execution_count < u64::MAX {
            self.execution_count = self.execution_count + 1;
        }
        true
    }

    /// Records the finished execution and releases the guard.
    pub fn end_execution(&mut self, summary: ExecutionSummary)
        requires
            old(self).wf(),
            old(self).spec_executing(),
        ensures
            final(self).wf(),
            !final(self).spec_executing(),
            final(self).spec_history() == recorded(old(self).spec_history(), summary),
            final(self).spec_executions() == old(self).spec_executions(),
            final(self).spec_errors() == if summary.status == ExecutionStatus::Success {
                old(self).spec_errors()
            } else {
                bumped(old(self).spec_errors())
            },
            final(self).spec_state() == old(self).spec_state(),
            final(self).spec_container_id() == old(self).spec_container_id(),
            final(self).user_id == old(self).user_id,
            final(self).language == old(self).language,
            final(self).container_name == old(self).container_name,
            final(self).workspace_path == old(self).workspace_path,
    {
        if summary.status != ExecutionStatus::Success {
            self.increment_errors();
        }
        self.add_execution(summary);
        self.executing = false;
    }
}

/// Recording keeps the history chronological and within 100 entries.
pub proof fn lemma_history_bounded(h: Seq<ExecutionSummary>, s: ExecutionSummary)
    requires
        h.len() <= MAX_EXECUTION_HISTORY,
        chronological(h),
    ensures
        recorded(h, s).len() <= MAX_EXECUTION_HISTORY,
        chronological(recorded(h, s)),
{
}

} // verus!
