//! Execution counters: totals since start and the executions and errors of
//! the last hour.
use vstd::prelude::*;

verus! {

/// Length of the rolling window, in milliseconds.
pub const WINDOW_MS: u64 = 3_600_000;

/// The instant is inside the window that ends at `now`.
pub open spec fn recent(t: u64, now: u64) -> bool {
    now < WINDOW_MS || t > now - WINDOW_MS
}

/// Every instant of the list is recent at `now`.
pub open spec fn all_recent(ts: Seq<u64>, now: u64) -> bool {
    forall|i: int| 0 <= i < ts.len() ==> recent(#[trigger] ts[i], now)
}

/// Counter step that stops at the largest value.
pub open spec fn step(n: u64) -> u64 {
    if n < u64::MAX {
        (n + 1) as u64
    } else {
        n
    }
}

/// Totals and the instants of the last hour's executions and errors.
pub struct ExecutionStats {
    total_executions: u64,
    total_errors: u64,
    executions: Vec<u64>,
    errors: Vec<u64>,
}

/// The recent instants of `ts`, in order.
pub open spec fn keep_recent(ts: Seq<u64>, now: u64) -> Seq<u64> {
    ts.filter(|t: u64| recent(t, now))
}

fn prune(ts: &mut Vec<u64>, now: u64)
    ensures
        final(ts)@ == keep_recent(old(ts)@, now),
{
    let ghost before = ts@;
    let mut kept: Vec<u64> = Vec::new();
    let mut i: usize = 0;
    while i < ts.len()
        invariant
            ts@ == before,
            i <= before.len(),
            kept@ == keep_recent(before.take(i as int), now),
        decreases before.len() - i,
    {
        proof {
            assert(before.take(i + 1).drop_last() =~= before.take(i as int));
            reveal(Seq::filter);
        }
        if now < WINDOW_MS || ts[i] > now - WINDOW_MS {
            kept.push(ts[i]);
        }
        i = i + 1;
    }
    assert(before.take(before.len() as int) =~= before);
    *ts = kept;
}

impl ExecutionStats {
    pub closed spec fn spec_total_executions(&self) -> u64 {
        self.total_executions
    }

    pub closed spec fn spec_total_errors(&self) -> u64 {
        self.total_errors
    }

    pub fn total_executions(&self) -> (r: u64)
        ensures
            r == self.spec_total_executions(),
    {
        self.total_executions
    }

    pub fn total_errors(&self) -> (r: u64)
        ensures
            r == self.spec_total_errors(),
    {
        self.total_errors
    }

    pub closed spec fn window(&self) -> Seq<u64> {
        self.executions@
    }

    pub closed spec fn error_window(&self) -> Seq<u64> {
        self.errors@
    }

    pub fn new() -> (r: ExecutionStats)
        ensures
            r.spec_total_executions() == 0,
            r.spec_total_errors() == 0,
            r.window().len() == 0,
            r.error_window().len() == 0,
    {
        ExecutionStats { total_executions: 0, total_errors: 0, executions: Vec::new(), errors: Vec::new() }
    }

    /// Counts an execution finished at `now_ms`, an error too unless it
    /// succeeded, and drops what is older than an hour.
    pub fn record(&mut self, success: bool, now_ms: u64)
        ensures
            final(self).spec_total_executions() == step(old(self).spec_total_executions()),
            final(self).spec_total_errors() == if success {
                old(self).spec_total_errors()
            } else {
                step(old(self).spec_total_errors())
            },
            final(self).window() == keep_recent(old(self).window().push(now_ms), now_ms),
            final(self).error_window() == if success {
                keep_recent(old(self).error_window(), now_ms)
            } else {
                keep_recent(old(self).error_window().push(now_ms), now_ms)
            },
            all_recent(final(self).window(), now_ms),
            all_recent(final(self).error_window(), now_ms),
    {
        if self.total_executions < u64::MAX {
            self.total_executions = self.total_executions + 1;
        }
        self.executions.push(now_ms);
        if !success {
            if self.total_errors < u64::MAX {
                self.total_errors = self.total_errors + 1;
            }
            self.errors.push(now_ms);
        }
        prune(&mut self.executions, now_ms);
        prune(&mut self.errors, now_ms);
        proof {
            lemma_kept_recent(self.executions@, now_ms);
            lemma_kept_recent(self.errors@, now_ms);
        }
    }

    /// Executions during the hour before the last record.
    pub fn executions_last_hour(&self) -> (r: usize)
        ensures
            r == self.window().len(),
    {
        self.executions.len()
    }

    /// Failed executions during the hour before the last record.
    pub fn errors_last_hour(&self) -> (r: usize)
        ensures
            r == self.error_window().len(),
    {
        self.errors.len()
    }
}

proof fn lemma_kept_recent(kept: Seq<u64>, now: u64)
    requires
        exists|ts: Seq<u64>| kept == keep_recent(ts, now),
    ensures
        all_recent(kept, now),
{
    broadcast use vstd::seq_lib::group_filter_ensures;

    let ts = choose|ts: Seq<u64>| kept == keep_recent(ts, now);
    assert forall|i: int| 0 <= i < kept.len() implies recent(#[trigger] kept[i], now) by {
        assert(ts.filter(|t: u64| recent(t, now)).contains(kept[i]));
    }
}

} // verus!
