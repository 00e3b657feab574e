//! Queue of asynchronous executions: submitted, picked up by a worker, then
//! completed; completed jobs are purged an hour later.
use vstd::prelude::*;

use crate::config::same_text;
use crate::models::{ExecuteRequest, ExecuteResponse, ExecutionStatus, JobStatus};

verus! {

/// Completed jobs are kept this long, in milliseconds.
pub const JOB_RETENTION_MS: u64 = 3_600_000;

/// A queued execution.
#[derive(Clone, Debug)]
pub struct Job {
    pub id: String,
    pub user_id: String,
    pub request: ExecuteRequest,
    pub status: JobStatus,
    pub result: Option<ExecuteResponse>,
    pub queued_at_ms: u64,
    pub started_at_ms: Option<u64>,
    pub completed_at_ms: Option<u64>,
}

/// Status of a job that ended with an execution of the given status.
pub open spec fn final_status(s: ExecutionStatus) -> JobStatus {
    match s {
        ExecutionStatus::Success => JobStatus::Completed,
        ExecutionStatus::Timeout => JobStatus::Timeout,
        _ => JobStatus::Failed,
    }
}

/// Index of the job with the id.
pub open spec fn job_index(jobs: Seq<Job>, id: Seq<char>) -> Option<int> {
    if exists|i: int| 0 <= i < jobs.len() && jobs[i].id@ == id {
        Some(choose|i: int| 0 <= i < jobs.len() && jobs[i].id@ == id)
    } else {
        None
    }
}

/// Ids are unique.
pub open spec fn unique_ids(jobs: Seq<Job>) -> bool {
    forall|i: int, j: int| 0 <= i < j < jobs.len() ==> (#[trigger] jobs[i]).id@ != (#[trigger] jobs[j]).id@
}

/// A job is kept by a cleanup at `now` unless it completed over an hour ago.
pub open spec fn retained(job: Job, now: u64) -> bool {
    match job.completed_at_ms {
        Some(t) => now < JOB_RETENTION_MS || t > now - JOB_RETENTION_MS,
        None => true,
    }
}

/// The asynchronous job queue.
pub struct JobQueue {
    jobs: Vec<Job>,
}

impl JobQueue {
    pub closed spec fn spec_jobs(&self) -> Seq<Job> {
        self.jobs@
    }

    pub open spec fn wf(&self) -> bool {
        unique_ids(self.spec_jobs())
    }

    pub fn new() -> (r: JobQueue)
        ensures
            r.wf(),
            r.spec_jobs().len() == 0,
    {
        JobQueue { jobs: Vec::new() }
    }

    fn position(&self, id: &str) -> (r: Option<usize>)
        requires
            self.wf(),
        ensures
            match job_index(self.spec_jobs(), id@) {
                Some(i) => r is Some && r.unwrap() as int == i,
                None => r is None,
            },
            r is Some ==> r.unwrap() < self.spec_jobs().len(),
    {
        let mut i: usize = 0;
        while i < self.jobs.len()
            invariant
                self.wf(),
                i <= self.jobs@.len(),
                forall|j: int| 0 <= j < i ==> self.jobs@[j].id@ != id@,
            decreases self.jobs@.len() - i,
        {
            if same_text(self.jobs[i].id.as_str(), id) {
                proof {
                    let k = choose|k: int| 0 <= k < self.jobs@.len() && self.jobs@[k].id@ == id@;
                    if k > i {
                        assert(self.spec_jobs()[i as int].id@ != self.spec_jobs()[k].id@);
                    }
                }
                return Some(i);
            }
            i = i + 1;
        }
        None
    }

    /// Queues a request under a fresh id at `now_ms`; refused if the id is taken.
    pub fn submit(&mut self, id: String, user_id: String, request: ExecuteRequest, now_ms: u64) -> (r: bool)
        requires
            old(self).wf(),
        ensures
            final(self).wf(),
            r == (job_index(old(self).spec_jobs(), id@) is None),
            !r ==> final(self).spec_jobs() == old(self).spec_jobs(),
            r ==> final(self).spec_jobs().len() == old(self).spec_jobs().len() + 1,
            r ==> ({
                let j = final(self).spec_jobs().last();
                &&& j.id == id
                &&& j.user_id == user_id
                &&& j.request == request
                &&& j.status == JobStatus::Queued
                &&& j.result is None
                &&& j.queued_at_ms == now_ms
                &&& j.started_at_ms is None
                &&& j.completed_at_ms is None
            }),
    {
        if self.position(id.as_str()).is_some() {
            return false;
        }
        let ghost before = self.jobs@;
        let ghost new_id = id@;
        self.jobs.push(
            Job {
                id,
                user_id,
                request,
                status: JobStatus::Queued,
                result: None,
                queued_at_ms: now_ms,
                started_at_ms: None,
                completed_at_ms: None,
            },
        );
        assert forall|a: int, b: int| 0 <= a < b < self.jobs@.len() implies (
        #[trigger] self.jobs@[a]).id@ != (#[trigger] self.jobs@[b]).id@ by {
            assert(self.jobs@[a] == before[a]);
            if b < before.len() {
                assert(self.jobs@[b] == before[b]);
                assert(before[a].id@ != before[b].id@);
            } else {
                assert(before[a].id@ != new_id);
            }
        }
        true
    }

    /// The job with the id.
    pub fn get_status(&self, id: &str) -> (r: Option<&Job>)
        requires
            self.wf(),
        ensures
            match job_index(self.spec_jobs(), id@) {
                Some(i) => r is Some && *r.unwrap() == self.spec_jobs()[i],
                None => r is None,
            },
    {
        match self.position(id) {
            Some(i) => Some(&self.jobs[i]),
            None => None,
        }
    }

    fn replace(&mut self, i: usize, job: Job)
        requires
            old(self).wf(),
            i < old(self).spec_jobs().len(),
            job.id == old(self).spec_jobs()[i as int].id,
        ensures
            final(self).wf(),
            final(self).spec_jobs() == old(self).spec_jobs().update(i as int, job),
    {
        let ghost before = self.jobs@;
        self.jobs.set(i, job);
        assert forall|a: int, b: int| 0 <= a < b < self.jobs@.len() implies (
        #[trigger] self.jobs@[a]).id@ != (#[trigger] self.jobs@[b]).id@ by {
            assert(before[a].id@ != before[b].id@);
        }
    }

    /// Sets a job's status; a job that starts running gets its start time once.
    pub fn update_status(&mut self, id: &str, status: JobStatus, now_ms: u64)
        requires
            old(self).wf(),
        ensures
            final(self).wf(),
            final(self).spec_jobs().len() == old(self).spec_jobs().len(),
            match job_index(old(self).spec_jobs(), id@) {
                Some(i) => {
                    let before = old(self).spec_jobs()[i];
                    &&& final(self).spec_jobs()[i].status == status
                    &&& final(self).spec_jobs()[i].started_at_ms == if status == JobStatus::Running
                        && before.started_at_ms is None {
                        Some(now_ms)
                    } else {
                        before.started_at_ms
                    }
                },
                None => final(self).spec_jobs() == old(self).spec_jobs(),
            },
    {
        match self.position(id) {
            Some(i) => {
                let mut job = self.jobs[i].clone();
                let ghost before = self.jobs@[i as int];
                job.id = self.jobs[i].id.clone();
                job.status = status;
                job.started_at_ms = self.jobs[i].started_at_ms;
                if status == JobStatus::Running && job.started_at_ms.is_none() {
                    job.started_at_ms = Some(now_ms);
                }
                self.replace(i, job);
            },
            None => {},
        }
    }

    /// Records a job's result: Completed on success, Timeout on timeout,
    /// Failed otherwise.
    pub fn complete(&mut self, id: &str, result: ExecuteResponse, now_ms: u64)
        requires
            old(self).wf(),
        ensures
            final(self).wf(),
            final(self).spec_jobs().len() == old(self).spec_jobs().len(),
            match job_index(old(self).spec_jobs(), id@) {
                Some(i) => {
                    &&& final(self).spec_jobs()[i].status == final_status(result.status)
                    &&& final(self).spec_jobs()[i].result == Some(result)
                    &&& final(self).spec_jobs()[i].completed_at_ms == Some(now_ms)
                },
                None => final(self).spec_jobs() == old(self).spec_jobs(),
            },
    {
        match self.position(id) {
            Some(i) => {
                let mut job = self.jobs[i].clone();
                job.id = self.jobs[i].id.clone();
                job.status = match result.status {
                    ExecutionStatus::Success => JobStatus::Completed,
                    ExecutionStatus::Timeout => JobStatus::Timeout,
                    _ => JobStatus::Failed,
                };
                job.result = Some(result);
                job.completed_at_ms = Some(now_ms);
                self.replace(i, job);
            },
            None => {},
        }
    }

    /// Takes the first queued job, marks it running from `now_ms` and returns its id.
    pub fn get_next_queued(&mut self, now_ms: u64) -> (r: Option<String>)
        requires
            old(self).wf(),
        ensures
            final(self).wf(),
            final(self).spec_jobs().len() == old(self).spec_jobs().len(),
            r is None ==> final(self).spec_jobs() == old(self).spec_jobs() && forall|i: int|
                0 <= i < old(self).spec_jobs().len() ==> old(self).spec_jobs()[i].status
                    != JobStatus::Queued,
            r matches Some(id) ==> (job_index(old(self).spec_jobs(), id@) matches Some(i)
                && old(self).spec_jobs()[i].status == JobStatus::Queued
                && final(self).spec_jobs()[i].status == JobStatus::Running
                && final(self).spec_jobs()[i].started_at_ms == Some(now_ms)),
    {
        let mut i: usize = 0;
        while i < self.jobs.len()
            invariant
                self.wf(),
                self.jobs@ == old(self).jobs@,
                i <= self.jobs@.len(),
                forall|j: int| 0 <= j < i ==> self.jobs@[j].status != JobStatus::Queued,
            decreases self.jobs@.len() - i,
        {
            if self.jobs[i].status == JobStatus::Queued {
                let id = self.jobs[i].id.clone();
                proof {
                    let k = choose|k: int| 0 <= k < self.jobs@.len() && self.jobs@[k].id@ == id@;
                    assert(self.jobs@[i as int].id@ == id@);
                    if k != i {
                        if k < i {
                            assert(self.spec_jobs()[k].id@ != self.spec_jobs()[i as int].id@);
                        } else {
                            assert(self.spec_jobs()[i as int].id@ != self.spec_jobs()[k].id@);
                        }
                    }
                }
                let mut job = self.jobs[i].clone();
                job.id = self.jobs[i].id.clone();
                job.status = JobStatus::Running;
                job.started_at_ms = Some(now_ms);
                self.replace(i, job);
                return Some(id);
            }
            i = i + 1;
        }
        None
    }

    /// Drops the jobs completed more than an hour before `now_ms`.
    pub fn cleanup_old_jobs(&mut self, now_ms: u64)
        requires
            old(self).wf(),
        ensures
            final(self).wf(),
            forall|i: int| 0 <= i < final(self).spec_jobs().len() ==> retained(#[trigger] final(self).spec_jobs()[i], now_ms),
            forall|i: int| 0 <= i < final(self).spec_jobs().len() ==> old(self).spec_jobs().contains(#[trigger] final(self).spec_jobs()[i]),
            forall|i: int| 0 <= i < old(self).spec_jobs().len() && retained(#[trigger] old(self).spec_jobs()[i], now_ms) ==> final(self).spec_jobs().contains(old(self).spec_jobs()[i]),
    {
        let ghost before = self.jobs@;
        let mut i: usize = 0;
        while i < self.jobs.len()
            invariant
                self.wf(),
                i <= self.jobs@.len(),
                forall|a: int| 0 <= a < i ==> retained(#[trigger] self.jobs@[a], now_ms),
                forall|a: int| 0 <= a < self.jobs@.len() ==> before.contains(#[trigger] self.jobs@[a]),
                forall|a: int| 0 <= a < before.len() && retained(#[trigger] before[a], now_ms) ==> self.jobs@.contains(before[a]),
            decreases self.jobs@.len() - i,
        {
            let keep = match self.jobs[i].completed_at_ms {
                Some(t) => now_ms < JOB_RETENTION_MS || t > now_ms - JOB_RETENTION_MS,
                None => true,
            };
            if keep {
                i = i + 1;
            } else {
                let ghost prev = self.jobs@;
                let ghost gone = self.jobs@[i as int];
                self.jobs.remove(i);
                proof {
                    assert forall|a: int| 0 <= a < self.jobs@.len() implies before.contains(#[trigger] self.jobs@[a]) by {
                        if a < i {
                            assert(self.jobs@[a] == prev[a]);
                        } else {
                            assert(self.jobs@[a] == prev[a + 1]);
                        }
                    }
                    assert forall|a: int| 0 <= a < before.len() && retained(#[trigger] before[a], now_ms) implies self.jobs@.contains(before[a]) by {
                        let k = choose|k: int| 0 <= k < prev.len() && prev[k] == before[a];
                        assert(k != i);
                        if k < i {
                            assert(self.jobs@[k] == prev[k]);
                        } else {
                            assert(self.jobs@[k - 1] == prev[k]);
                        }
                    }
                    assert forall|a: int, b: int| 0 <= a < b < self.jobs@.len() implies (
                    #[trigger] self.jobs@[a]).id@ != (#[trigger] self.jobs@[b]).id@ by {
                        let a0 = if a < i { a } else { a + 1 };
                        let b0 = if b < i { b } else { b + 1 };
                        assert(self.jobs@[a] == prev[a0]);
                        assert(self.jobs@[b] == prev[b0]);
                        assert(prev[a0].id@ != prev[b0].id@);
                    }
                    assert forall|a: int| 0 <= a < i implies retained(#[trigger] self.jobs@[a], now_ms) by {
                        assert(self.jobs@[a] == prev[a]);
                    }
                }
            }
        }
    }
}

} // verus!
