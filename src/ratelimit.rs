//! Per-user token buckets. A bucket holds `requests_per_minute` tokens and
//! refills at `requests_per_minute / 60` tokens per second. Amounts are kept
//! exactly as integers: one token is `TOKEN` credits and one millisecond
//! refills `requests_per_minute` credits.
use vstd::prelude::*;

use crate::config::same_text;

verus! {

/// Credits per token: the number of milliseconds in a minute.
pub const TOKEN: u64 = 60_000;

/// Buckets untouched for this long are dropped by a cleanup.
pub const IDLE_BUCKET_MS: u64 = 3_600_000;

/// One user's bucket.
#[derive(Clone, Copy, Debug)]
pub struct TokenBucket {
    pub credits: u64,
    pub last_refill_ms: u64,
}

/// Credits after refilling a bucket of capacity `cap` at `rate` credits per
/// millisecond from `last` to `now`; a clock that went back refills nothing.
pub open spec fn refilled(credits: nat, last: nat, now: nat, rate: nat, cap: nat) -> nat {
    let elapsed: nat = if now > last {
        (now - last) as nat
    } else {
        0
    };
    if credits + elapsed * rate >= cap {
        cap
    } else {
        (credits + elapsed * rate) as nat
    }
}

pub open spec fn later(a: nat, b: nat) -> nat {
    if a > b {
        a
    } else {
        b
    }
}

impl TokenBucket {
    fn new(capacity: u64, now_ms: u64) -> (r: TokenBucket)
        ensures
            r.credits == capacity,
            r.last_refill_ms == now_ms,
    {
        TokenBucket { credits: capacity, last_refill_ms: now_ms }
    }

    fn refill(&mut self, now_ms: u64, rate: u64, capacity: u64)
        requires
            old(self).credits <= capacity,
            capacity == rate * TOKEN,
        ensures
            final(self).credits == refilled(
                old(self).credits as nat,
                old(self).last_refill_ms as nat,
                now_ms as nat,
                rate as nat,
                capacity as nat,
            ),
            final(self).last_refill_ms == later(old(self).last_refill_ms as nat, now_ms as nat),
            final(self).credits <= capacity,
    {
        if now_ms > self.last_refill_ms {
            let elapsed = now_ms - self.last_refill_ms;
            if elapsed >= TOKEN {
                assert(elapsed * rate >= TOKEN * rate) by (nonlinear_arith)
                    requires
                        elapsed >= TOKEN,
                ;
                self.credits = capacity;
            } else {
                assert(elapsed * rate <= TOKEN * rate) by (nonlinear_arith)
                    requires
                        elapsed < TOKEN,
                ;
                let add = elapsed * rate;
                if add >= capacity - self.credits {
                    self.credits = capacity;
                } else {
                    self.credits = self.credits + add;
                }
            }
            self.last_refill_ms = now_ms;
        }
    }

    fn try_consume(&mut self, amount: u64, now_ms: u64, rate: u64, capacity: u64) -> (r: bool)
        requires
            old(self).credits <= capacity,
            capacity == rate * TOKEN,
        ensures
            ({
                let level = refilled(
                    old(self).credits as nat,
                    old(self).last_refill_ms as nat,
                    now_ms as nat,
                    rate as nat,
                    capacity as nat,
                );
                &&& r == (level >= amount)
                &&& final(self).credits == if r {
                    (level - amount) as nat
                } else {
                    level
                }
            }),
            final(self).last_refill_ms == later(old(self).last_refill_ms as nat, now_ms as nat),
            final(self).credits <= capacity,
    {
        self.refill(now_ms, rate, capacity);
        if self.credits >= amount {
            self.credits = self.credits - amount;
            true
        } else {
            false
        }
    }
}

/// Rate limiter with one bucket per user.
pub struct RateLimiter {
    buckets: Vec<(String, TokenBucket)>,
    rate: u64,
    capacity: u64,
}

/// Each bucket holds at most `cap` credits and no user has two buckets.
pub open spec fn buckets_ok(b: Seq<(String, TokenBucket)>, cap: u64) -> bool {
    &&& forall|i: int| 0 <= i < b.len() ==> (#[trigger] b[i]).1.credits <= cap
    &&& forall|i: int, j: int| 0 <= i < j < b.len() ==> (#[trigger] b[i]).0@ != (#[trigger] b[j]).0@
}

/// Index of the bucket of a user.
pub open spec fn bucket_index(b: Seq<(String, TokenBucket)>, user_id: Seq<char>) -> Option<int> {
    if exists|i: int| 0 <= i < b.len() && b[i].0@ == user_id {
        Some(choose|i: int| 0 <= i < b.len() && b[i].0@ == user_id)
    } else {
        None
    }
}

impl RateLimiter {
    pub closed spec fn spec_buckets(&self) -> Seq<(String, TokenBucket)> {
        self.buckets@
    }

    /// Requests admitted per minute.
    pub closed spec fn spec_rate(&self) -> u64 {
        self.rate
    }

    /// Capacity of a bucket in credits: `rate * TOKEN`.
    pub closed spec fn spec_capacity(&self) -> u64 {
        self.capacity
    }

    /// The credits the user's bucket would hold at `now`, refilled; a user
    /// without a bucket gets a full one.
    pub open spec fn level_at(&self, user_id: Seq<char>, now: u64) -> nat {
        let b = match bucket_index(self.spec_buckets(), user_id) {
            Some(i) => self.spec_buckets()[i].1,
            None => TokenBucket { credits: self.spec_capacity(), last_refill_ms: now },
        };
        refilled(
            b.credits as nat,
            b.last_refill_ms as nat,
            now as nat,
            self.spec_rate() as nat,
            self.spec_capacity() as nat,
        )
    }

    /// When the user's bucket was last refilled; none without a bucket.
    pub open spec fn refill_time_of(&self, user_id: Seq<char>) -> Option<u64> {
        match bucket_index(self.spec_buckets(), user_id) {
            Some(i) => Some(self.spec_buckets()[i].1.last_refill_ms),
            None => None,
        }
    }

    /// The user's bucket as found at `now`: the stored one, or a full one.
    pub open spec fn bucket_at(&self, user_id: Seq<char>, now: u64) -> TokenBucket {
        match bucket_index(self.spec_buckets(), user_id) {
            Some(i) => self.spec_buckets()[i].1,
            None => TokenBucket { credits: self.spec_capacity(), last_refill_ms: now },
        }
    }

    /// Credits in the user's bucket; none without a bucket.
    pub open spec fn credits_of(&self, user_id: Seq<char>) -> nat {
        match bucket_index(self.spec_buckets(), user_id) {
            Some(i) => self.spec_buckets()[i].1.credits as nat,
            None => 0,
        }
    }

    /// Every bucket holds between zero and capacity credits, and each user
    /// has at most one bucket.
    pub open spec fn wf(&self) -> bool {
        &&& self.spec_rate() > 0
        &&& self.spec_capacity() == self.spec_rate() * TOKEN
        &&& buckets_ok(self.spec_buckets(), self.spec_capacity())
    }

    /// A limiter admitting `requests_per_minute` requests per minute per user.
    pub fn new(requests_per_minute: u64) -> (r: RateLimiter)
        requires
            requests_per_minute > 0,
            requests_per_minute <= u64::MAX / TOKEN,
        ensures
            r.wf(),
            r.spec_rate() == requests_per_minute,
            r.spec_buckets().len() == 0,
    {
        RateLimiter {
            buckets: Vec::new(),
            rate: requests_per_minute,
            capacity: requests_per_minute * TOKEN,
        }
    }

    fn bucket_for(&mut self, user_id: &str, now_ms: u64) -> (r: usize)
        requires
            old(self).wf(),
        ensures
            final(self).wf(),
            final(self).spec_rate() == old(self).spec_rate(),
            r < final(self).spec_buckets().len(),
            final(self).spec_buckets()[r as int].0@ == user_id@,
            match bucket_index(old(self).spec_buckets(), user_id@) {
                Some(i) => {
                    &&& r == i
                    &&& final(self).spec_buckets() == old(self).spec_buckets()
                },
                None => {
                    &&& r == old(self).spec_buckets().len()
                    &&& final(self).spec_buckets() == old(self).spec_buckets().push(
                        final(self).spec_buckets()[r as int],
                    )
                    &&& final(self).spec_buckets()[r as int].1.credits == old(self).spec_capacity()
                    &&& final(self).spec_buckets()[r as int].1.last_refill_ms == now_ms
                },
            },
    {
        let mut i: usize = 0;
        while i < self.buckets.len()
            invariant
                self.wf(),
                self.buckets@ == old(self).buckets@,
                self.rate == old(self).rate,
                self.capacity == old(self).capacity,
                i <= self.buckets@.len(),
                forall|j: int| 0 <= j < i ==> self.buckets@[j].0@ != user_id@,
            decreases self.buckets@.len() - i,
        {
            if same_text(self.buckets[i].0.as_str(), user_id) {
                proof {
                    let k = choose|k: int| 0 <= k < self.buckets@.len() && self.buckets@[k].0@ == user_id@;
                    if k != i {
                        assert(buckets_ok(self.buckets@, self.capacity));
                        if k < i {
                        } else {
                            assert(self.buckets@[i as int].0@ != self.buckets@[k].0@);
                        }
                    }
                }
                return i;
            }
            i = i + 1;
        }
        let n = self.buckets.len();
        let ghost before = self.buckets@;
        self.buckets.push((user_id.to_string(), TokenBucket::new(self.capacity, now_ms)));
        assert forall|a: int, b: int|
            0 <= a < b < self.buckets@.len() implies (#[trigger] self.buckets@[a]).0@
            != (#[trigger] self.buckets@[b]).0@ by {
            if b == n {
                assert(self.buckets@[a] == before[a]);
            } else {
                assert(self.buckets@[a] == before[a] && self.buckets@[b] == before[b]);
            }
        }
        assert forall|a: int|
            0 <= a < self.buckets@.len() implies (#[trigger] self.buckets@[a]).1.credits
            <= self.capacity by {
            if a < n {
                assert(self.buckets@[a] == before[a]);
            }
        }
        n
    }

    /// Admits `tokens` requests for the user at time `now_ms` if the bucket,
    /// refilled up to now, holds that many tokens; a first reference creates a
    /// full bucket.
    pub fn check_limit_n_at(&mut self, user_id: &str, tokens: u64, now_ms: u64) -> (r: bool)
        requires
            old(self).wf(),
            tokens <= u64::MAX / TOKEN,
        ensures
            final(self).wf(),
            final(self).spec_rate() == old(self).spec_rate(),
            r == (old(self).level_at(user_id@, now_ms) >= tokens * TOKEN),
            final(self).credits_of(user_id@) == if r {
                (old(self).level_at(user_id@, now_ms) - tokens * TOKEN) as nat
            } else {
                old(self).level_at(user_id@, now_ms)
            },
            bucket_index(final(self).spec_buckets(), user_id@) is Some,
            final(self).refill_time_of(user_id@) == Some(
                later(old(self).bucket_at(user_id@, now_ms).last_refill_ms as nat, now_ms as nat) as u64,
            ),
            forall|v: Seq<char>|
                v != user_id@ ==> #[trigger] final(self).credits_of(v) == old(self).credits_of(v)
                    && final(self).refill_time_of(v) == old(self).refill_time_of(v),
    {
        let ghost start = self.buckets@;
        let i = self.bucket_for(user_id, now_ms);
        let rate = self.rate;
        let capacity = self.capacity;
        let mut bucket = self.buckets[i].1;
        let ghost before_buckets = self.buckets@;
        let r = bucket.try_consume(tokens * TOKEN, now_ms, rate, capacity);
        let name = user_id.to_string();
        self.buckets.set(i, (name, bucket));
        proof {
            assert forall|a: int, b: int|
                0 <= a < b < self.buckets@.len() implies (#[trigger] self.buckets@[a]).0@
                != (#[trigger] self.buckets@[b]).0@ by {
                assert(before_buckets[a].0@ != before_buckets[b].0@);
            }
            assert forall|a: int|
                0 <= a < self.buckets@.len() implies (#[trigger] self.buckets@[a]).1.credits
                <= self.capacity by {
                assert(before_buckets[a].1.credits <= self.capacity);
            }
            assert forall|v: Seq<char>| v != user_id@ implies #[trigger] self.credits_of(v)
                == old(self).credits_of(v) && self.refill_time_of(v) == old(self).refill_time_of(v) by {
                lemma_other_user(start, self.buckets@, i as int, user_id@, v);
            }
            let k = choose|k: int| 0 <= k < self.buckets@.len() && self.buckets@[k].0@ == user_id@;
            assert(self.buckets@[i as int].0@ == user_id@);
            if k != i as int {
                if k < i {
                    assert(self.buckets@[k].0@ != self.buckets@[i as int].0@);
                } else {
                    assert(self.buckets@[i as int].0@ != self.buckets@[k].0@);
                }
            }
        }
        r
    }

    /// Admits one request for the user at time `now_ms`.
    pub fn check_limit_at(&mut self, user_id: &str, now_ms: u64) -> (r: bool)
        requires
            old(self).wf(),
        ensures
            final(self).wf(),
            final(self).spec_rate() == old(self).spec_rate(),
            r == (old(self).level_at(user_id@, now_ms) >= TOKEN),
            final(self).credits_of(user_id@) == if r {
                (old(self).level_at(user_id@, now_ms) - TOKEN) as nat
            } else {
                old(self).level_at(user_id@, now_ms)
            },
            final(self).refill_time_of(user_id@) == Some(
                later(old(self).bucket_at(user_id@, now_ms).last_refill_ms as nat, now_ms as nat) as u64,
            ),
            forall|v: Seq<char>|
                v != user_id@ ==> #[trigger] final(self).credits_of(v) == old(self).credits_of(v)
                    && final(self).refill_time_of(v) == old(self).refill_time_of(v),
    {
        self.check_limit_n_at(user_id, 1, now_ms)
    }

    /// Admits one request for the user now. Whatever the clock reads, the
    /// outcome is that of `check_limit_at` at some instant, and a user's first
    /// request is admitted.
    pub fn check_limit(&mut self, user_id: &str) -> (r: bool)
        requires
            old(self).wf(),
        ensures
            final(self).wf(),
            final(self).spec_rate() == old(self).spec_rate(),
            exists|t: u64|
                r == (old(self).level_at(user_id@, t) >= TOKEN) && final(self).credits_of(user_id@)
                    == if r {
                    (old(self).level_at(user_id@, t) - TOKEN) as nat
                } else {
                    old(self).level_at(user_id@, t)
                },
            bucket_index(old(self).spec_buckets(), user_id@) is None ==> r,
            forall|v: Seq<char>|
                v != user_id@ ==> #[trigger] final(self).credits_of(v) == old(self).credits_of(v)
                    && final(self).refill_time_of(v) == old(self).refill_time_of(v),
    {
        let now = unix_millis();
        proof {
            let rate = self.spec_rate();
            assert(rate * TOKEN >= TOKEN) by (nonlinear_arith)
                requires
                    rate > 0,
            ;
        }
        let r = self.check_limit_at(user_id, now);
        assert(r == (old(self).level_at(user_id@, now) >= TOKEN));
        r
    }

    /// Credits left to the user at time `now_ms`, after refilling.
    pub fn remaining_at(&mut self, user_id: &str, now_ms: u64) -> (r: u64)
        requires
            old(self).wf(),
        ensures
            final(self).wf(),
            r == old(self).level_at(user_id@, now_ms),
            r <= final(self).spec_capacity(),
            match bucket_index(final(self).spec_buckets(), user_id@) {
                Some(i) => final(self).spec_buckets()[i].1.credits == r,
                None => false,
            },
    {
        self.check_limit_n_at(user_id, 0, now_ms);
        let i = self.bucket_for(user_id, now_ms);
        self.buckets[i].1.credits
    }

    /// Drops the buckets not refilled during the last hour before `now_ms`.
    pub fn cleanup_old_buckets_at(&mut self, now_ms: u64)
        requires
            old(self).wf(),
        ensures
            final(self).wf(),
            final(self).spec_rate() == old(self).spec_rate(),
            forall|i: int|
                0 <= i < final(self).spec_buckets().len() ==> now_ms < IDLE_BUCKET_MS || (
                #[trigger] final(self).spec_buckets()[i]).1.last_refill_ms > now_ms - IDLE_BUCKET_MS,
            forall|i: int|
                0 <= i < final(self).spec_buckets().len() ==> old(self).spec_buckets().contains(
                    #[trigger] final(self).spec_buckets()[i],
                ),
            forall|i: int|
                0 <= i < old(self).spec_buckets().len() && (now_ms < IDLE_BUCKET_MS || (
                #[trigger] old(self).spec_buckets()[i]).1.last_refill_ms > now_ms - IDLE_BUCKET_MS)
                    ==> final(self).spec_buckets().contains(old(self).spec_buckets()[i]),
    {
        let ghost before = self.buckets@;
        let mut i: usize = 0;
        while i < self.buckets.len()
            invariant
                self.wf(),
                self.rate == old(self).rate,
                i <= self.buckets@.len(),
                forall|a: int|
                    0 <= a < i ==> now_ms < IDLE_BUCKET_MS || (
                    #[trigger] self.buckets@[a]).1.last_refill_ms > now_ms - IDLE_BUCKET_MS,
                forall|a: int|
                    0 <= a < self.buckets@.len() ==> before.contains(#[trigger] self.buckets@[a]),
                forall|a: int|
                    0 <= a < before.len() && (now_ms < IDLE_BUCKET_MS || (
                    #[trigger] before[a]).1.last_refill_ms > now_ms - IDLE_BUCKET_MS)
                        ==> self.buckets@.contains(before[a]),
            decreases self.buckets@.len() - i,
        {
            let keep = now_ms < IDLE_BUCKET_MS || self.buckets[i].1.last_refill_ms > now_ms
                - IDLE_BUCKET_MS;
            if keep {
                i = i + 1;
            } else {
                let ghost prev = self.buckets@;
                assert(buckets_ok(prev, self.capacity));
                self.buckets.remove(i);
                proof {
                    assert forall|a: int|
                        0 <= a < before.len() && (now_ms < IDLE_BUCKET_MS || (
                        #[trigger] before[a]).1.last_refill_ms > now_ms - IDLE_BUCKET_MS)
                            implies self.buckets@.contains(before[a]) by {
                        let k = choose|k: int| 0 <= k < prev.len() && prev[k] == before[a];
                        assert(k != i);
                        if k < i {
                            assert(self.buckets@[k] == prev[k]);
                        } else {
                            assert(self.buckets@[k - 1] == prev[k]);
                        }
                    }
                    assert forall|a: int|
                        0 <= a < self.buckets@.len() implies before.contains(
                            #[trigger] self.buckets@[a],
                        ) by {
                        if a < i {
                            assert(self.buckets@[a] == prev[a]);
                        } else {
                            assert(self.buckets@[a] == prev[a + 1]);
                        }
                    }
                    assert forall|a: int, b: int|
                        0 <= a < b < self.buckets@.len() implies (#[trigger] self.buckets@[a]).0@
                        != (#[trigger] self.buckets@[b]).0@ by {
                        let a0 = if a < i {
                            a
                        } else {
                            a + 1
                        };
                        let b0 = if b < i {
                            b
                        } else {
                            b + 1
                        };
                        assert(self.buckets@[a] == prev[a0]);
                        assert(self.buckets@[b] == prev[b0]);
                        assert(prev[a0].0@ != prev[b0].0@);
                    }
                    assert forall|a: int|
                        0 <= a < self.buckets@.len() implies (#[trigger] self.buckets@[a]).1.credits
                        <= self.capacity by {
                        if a < i {
                            assert(self.buckets@[a] == prev[a]);
                        } else {
                            assert(self.buckets@[a] == prev[a + 1]);
                        }
                    }
                }
            }
        }
    }
}

/// Milliseconds since the Unix epoch, as the system clock reads them.
#[verifier::external_body]
fn unix_millis() -> (r: u64) {
    std::time::SystemTime::now().duration_since(std::time::UNIX_EPOCH).map(
        |d| d.as_millis() as u64,
    ).unwrap_or(0)
}

proof fn lemma_other_user(
    old: Seq<(String, TokenBucket)>,
    fin: Seq<(String, TokenBucket)>,
    i: int,
    u: Seq<char>,
    v: Seq<char>,
)
    requires
        forall|a: int, b: int| 0 <= a < b < old.len() ==> (#[trigger] old[a]).0@ != (#[trigger] old[b]).0@,
        forall|a: int, b: int| 0 <= a < b < fin.len() ==> (#[trigger] fin[a]).0@ != (#[trigger] fin[b]).0@,
        fin.len() == old.len() || (fin.len() == old.len() + 1 && i == old.len()),
        0 <= i < fin.len(),
        fin[i].0@ == u,
        i < old.len() ==> old[i].0@ == u,
        forall|j: int| 0 <= j < old.len() && j != i ==> fin[j] == old[j],
        v != u,
    ensures
        (bucket_index(fin, v) is Some) == (bucket_index(old, v) is Some),
        bucket_index(fin, v) is Some ==> fin[bucket_index(fin, v).unwrap()].1 == old[bucket_index(old, v).unwrap()].1,
{
    if exists|k: int| 0 <= k < old.len() && old[k].0@ == v {
        let k = choose|k: int| 0 <= k < old.len() && old[k].0@ == v;
        assert(k != i);
        assert(fin[k] == old[k]);
        assert(exists|m: int| 0 <= m < fin.len() && fin[m].0@ == v);
        let m = choose|m: int| 0 <= m < fin.len() && fin[m].0@ == v;
        if m != k {
            if m < k {
                assert(fin[m].0@ != fin[k].0@);
            } else {
                assert(fin[k].0@ != fin[m].0@);
            }
        }
    } else {
        if exists|m: int| 0 <= m < fin.len() && fin[m].0@ == v {
            let m = choose|m: int| 0 <= m < fin.len() && fin[m].0@ == v;
            assert(m != i);
            assert(m < old.len());
            assert(old[m] == fin[m]);
        }
    }
}

/// A bucket refilled at `now` holds, at `now`, just its credits: calls at
/// one instant see each other's spending and no refill.
pub proof fn lemma_same_instant(l: &RateLimiter, user_id: Seq<char>, now: u64)
    requires
        l.wf(),
        l.refill_time_of(user_id) == Some(now),
    ensures
        l.level_at(user_id, now) == l.credits_of(user_id),
{
    let i = bucket_index(l.spec_buckets(), user_id).unwrap();
    assert(buckets_ok(l.spec_buckets(), l.spec_capacity()));
    assert(l.spec_buckets()[i].1.credits <= l.spec_capacity());
}

/// A bucket created at `now` admits exactly as many immediate requests as
/// the limiter's per-minute rate: after `k < rate` admissions the bucket still
/// holds a token, after `rate` it holds none.
pub proof fn lemma_burst_capacity(rate: nat, k: nat)
    requires
        rate > 0,
        k <= rate,
    ensures
        (rate - k) * TOKEN >= TOKEN <==> k < rate,
        k < rate ==> (rate - k) * TOKEN - TOKEN == (rate - (k + 1)) * TOKEN,
        refilled(((rate - k) * TOKEN) as nat, 0, 0, rate, (rate * TOKEN) as nat) == (rate - k) * TOKEN,
{
    assert((rate - k) * TOKEN >= TOKEN <==> k < rate) by (nonlinear_arith)
        requires
            k <= rate,
    ;
    assert(k < rate ==> (rate - k) * TOKEN - TOKEN == (rate - (k + 1)) * TOKEN) by (nonlinear_arith);
    assert((rate - k) * TOKEN <= rate * TOKEN) by (nonlinear_arith)
        requires
            k <= rate,
    ;
}

} // verus!
