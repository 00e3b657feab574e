//! Recent executions kept for replay, bounded in number: when full, the
//! record with the oldest timestamp makes room for the new one.
use vstd::prelude::*;

use crate::config::same_text;
use crate::text::{chars_of, string_from_chars, strings_view};
use crate::models::{ExecuteRequest, ExecuteResponse};

verus! {

/// A stored execution.
#[derive(Clone, Debug)]
pub struct StoredExecution {
    pub execution_id: String,
    pub user_id: String,
    /// Storage time, milliseconds since the Unix epoch.
    pub timestamp_ms: u64,
    pub request: ExecuteRequest,
    pub response: ExecuteResponse,
    pub code: String,
}

/// Index of the record with the given execution id.
pub open spec fn index_of(records: Seq<StoredExecution>, id: Seq<char>) -> Option<int> {
    if exists|i: int| 0 <= i < records.len() && records[i].execution_id@ == id {
        Some(choose|i: int| 0 <= i < records.len() && records[i].execution_id@ == id)
    } else {
        None
    }
}

/// The record with the given execution id.
pub open spec fn lookup(records: Seq<StoredExecution>, id: Seq<char>) -> Option<StoredExecution> {
    match index_of(records, id) {
        Some(i) => Some(records[i]),
        None => None,
    }
}

/// Execution ids are unique.
pub open spec fn distinct_ids(records: Seq<StoredExecution>) -> bool {
    forall|i: int, j: int|
        0 <= i < j < records.len() ==> (#[trigger] records[i]).execution_id@ != (
        #[trigger] records[j]).execution_id@
}

/// `k` holds a record with the oldest timestamp.
pub open spec fn oldest_at(records: Seq<StoredExecution>, k: int) -> bool {
    &&& 0 <= k < records.len()
    &&& forall|j: int|
        0 <= j < records.len() ==> records[k].timestamp_ms <= #[trigger] records[j].timestamp_ms
}

/// Every record of `orig` but the one at `k` and one with the id `id` is
/// still in `fin`.
pub open spec fn keeps_others(fin: Seq<StoredExecution>, orig: Seq<StoredExecution>, k: int, id: Seq<char>) -> bool {
    forall|j: int|
        0 <= j < orig.len() && j != k && (#[trigger] orig[j]).execution_id@ != id ==> fin.contains(orig[j])
}

/// Every record of `fin` is `extra` or was in `orig`.
pub open spec fn from_old_or(fin: Seq<StoredExecution>, orig: Seq<StoredExecution>, extra: StoredExecution) -> bool {
    forall|i: int| 0 <= i < fin.len() ==> #[trigger] fin[i] == extra || orig.contains(fin[i])
}

/// The id a storage file name `<id>.json` stands for.
pub open spec fn json_stem(name: Seq<char>) -> Option<Seq<char>> {
    if name.len() >= 5 && name.skip(name.len() - 5) == ".json"@ {
        Some(name.take(name.len() - 5))
    } else {
        None
    }
}

/// The names, in order, of files whose record is not stored.
pub open spec fn stale_names(records: Seq<StoredExecution>, names: Seq<Seq<char>>) -> Seq<Seq<char>>
    decreases names.len(),
{
    if names.len() == 0 {
        Seq::empty()
    } else {
        let rest = stale_names(records, names.drop_last());
        match json_stem(names.last()) {
            Some(id) => if lookup(records, id) is None {
                rest.push(names.last())
            } else {
                rest
            },
            None => rest,
        }
    }
}

/// Newest first.
pub open spec fn newest_first(v: Seq<&StoredExecution>) -> bool {
    forall|i: int, j: int| 0 <= i < j < v.len() ==> v[i].timestamp_ms >= v[j].timestamp_ms
}

/// Store of executions for replay.
pub struct ReplayManager {
    executions: Vec<StoredExecution>,
    max_stored: usize,
}

impl ReplayManager {
    pub closed spec fn records(&self) -> Seq<StoredExecution> {
        self.executions@
    }

    pub closed spec fn capacity(&self) -> usize {
        self.max_stored
    }

    /// Never more than `max_stored` records, one per execution id.
    pub open spec fn wf(&self) -> bool {
        &&& self.capacity() > 0
        &&& self.records().len() <= self.capacity()
        &&& distinct_ids(self.records())
    }

    pub fn new(max_stored: usize) -> (r: ReplayManager)
        requires
            max_stored > 0,
        ensures
            r.wf(),
            r.capacity() == max_stored,
            r.records().len() == 0,
    {
        ReplayManager { executions: Vec::new(), max_stored }
    }

    fn position(&self, id: &str) -> (r: Option<usize>)
        requires
            distinct_ids(self.records()),
        ensures
            match index_of(self.records(), id@) {
                Some(i) => r is Some && r.unwrap() as int == i,
                None => r is None,
            },
            r is Some ==> r.unwrap() < self.records().len(),
    {
        let mut i: usize = 0;
        while i < self.executions.len()
            invariant
                distinct_ids(self.executions@),
                i <= self.executions@.len(),
                forall|j: int| 0 <= j < i ==> self.executions@[j].execution_id@ != id@,
            decreases self.executions@.len() - i,
        {
            if same_text(self.executions[i].execution_id.as_str(), id) {
                proof {
                    let k = choose|k: int|
                        0 <= k < self.executions@.len() && self.executions@[k].execution_id@ == id@;
                    if k != i {
                        if k > i {
                            assert(self.executions@[i as int].execution_id@
                                != self.executions@[k].execution_id@);
                        }
                    }
                }
                return Some(i);
            }
            i = i + 1;
        }
        None
    }

    fn oldest(&self) -> (r: usize)
        requires
            self.records().len() > 0,
        ensures
            r < self.records().len(),
            forall|j: int|
                0 <= j < self.records().len() ==> self.records()[r as int].timestamp_ms
                    <= #[trigger] self.records()[j].timestamp_ms,
    {
        let mut best: usize = 0;
        let mut i: usize = 1;
        while i < self.executions.len()
            invariant
                1 <= i <= self.executions@.len(),
                best < i,
                forall|j: int|
                    0 <= j < i ==> self.executions@[best as int].timestamp_ms
                        <= #[trigger] self.executions@[j].timestamp_ms,
            decreases self.executions@.len() - i,
        {
            if self.executions[i].timestamp_ms < self.executions[best].timestamp_ms {
                best = i;
            }
            i = i + 1;
        }
        best
    }

    /// Adds a record loaded from storage, under the same bound as `store`.
    pub fn insert(&mut self, record: StoredExecution)
        requires
            old(self).wf(),
        ensures
            final(self).wf(),
            final(self).capacity() == old(self).capacity(),
            lookup(final(self).records(), record.execution_id@) == Some(record),
            old(self).records().len() < old(self).capacity() && index_of(
                old(self).records(),
                record.execution_id@,
            ) is None ==> final(self).records() == old(self).records().push(record),
            from_old_or(final(self).records(), old(self).records(), record),
            old(self).records().len() < old(self).capacity() ==> keeps_others(
                final(self).records(),
                old(self).records(),
                -1,
                record.execution_id@,
            ),
            old(self).records().len() >= old(self).capacity() ==> exists|k: int|
                oldest_at(old(self).records(), k) && keeps_others(
                    final(self).records(),
                    old(self).records(),
                    k,
                    record.execution_id@,
                ),
    {
        let ghost orig = self.executions@;
        let ghost mut evict: int = -1;
        if self.executions.len() >= self.max_stored {
            let k = self.oldest();
            let ghost prev = self.executions@;
            proof {
                evict = k as int;
            }
            self.executions.remove(k);
            assert forall|a: int, b: int|
                0 <= a < b < self.executions@.len() implies (#[trigger] self.executions@[a]).execution_id@
                != (#[trigger] self.executions@[b]).execution_id@ by {
                let a0 = if a < k {
                    a
                } else {
                    a + 1
                };
                let b0 = if b < k {
                    b
                } else {
                    b + 1
                };
                assert(self.executions@[a] == prev[a0]);
                assert(self.executions@[b] == prev[b0]);
                assert(prev[a0].execution_id@ != prev[b0].execution_id@);
            }
        }
        let ghost before = self.executions@;
        match self.position(record.execution_id.as_str()) {
            Some(i) => {
                let ghost id = record.execution_id@;
                self.executions.set(i, record);
                proof {
                    assert forall|a: int, b: int|
                        0 <= a < b < self.executions@.len() implies (
                        #[trigger] self.executions@[a]).execution_id@ != (
                        #[trigger] self.executions@[b]).execution_id@ by {
                        assert(before[a].execution_id@ != before[b].execution_id@);
                        if a == i {
                            assert(before[i as int].execution_id@ == id);
                        }
                        if b == i {
                            assert(before[i as int].execution_id@ == id);
                        }
                    }
                    lemma_store_then_get(self.executions@, i as int);
                }
            },
            None => {
                let n = self.executions.len();
                self.executions.push(record);
                proof {
                    assert forall|a: int, b: int|
                        0 <= a < b < self.executions@.len() implies (
                        #[trigger] self.executions@[a]).execution_id@ != (
                        #[trigger] self.executions@[b]).execution_id@ by {
                        assert(self.executions@[a] == before[a]);
                        if b < n {
                            assert(self.executions@[b] == before[b]);
                        }
                    }
                    lemma_store_then_get(self.executions@, n as int);
                }
            },
        }
        proof {
            let fin = self.executions@;
            let mid = if evict >= 0 {
                orig.remove(evict)
            } else {
                orig
            };
            assert(before == mid);
            assert forall|j: int|
                0 <= j < orig.len() && j != evict && (#[trigger] orig[j]).execution_id@
                    != record.execution_id@ implies fin.contains(orig[j]) by {
                let m = if evict >= 0 && j > evict {
                    j - 1
                } else {
                    j
                };
                assert(mid[m] == orig[j]);
                if fin.len() == mid.len() {
                    assert(fin[m] == orig[j]);
                } else {
                    assert(fin[m] == orig[j]);
                }
            }
            assert forall|i: int| 0 <= i < fin.len() implies #[trigger] fin[i] == record
                || orig.contains(fin[i]) by {
                if fin[i] != record {
                    let m = i;
                    assert(fin[m] == mid[m]);
                    let o = if evict >= 0 && m >= evict {
                        m + 1
                    } else {
                        m
                    };
                    assert(mid[m] == orig[o]);
                }
            }
            if orig.len() >= self.max_stored {
                assert(oldest_at(orig, evict));
                assert(keeps_others(fin, orig, evict, record.execution_id@));
            } else {
                assert(keeps_others(fin, orig, -1, record.execution_id@));
            }
        }
    }


    /// Adds a record read from storage. When the store is full a record older
    /// than every stored one is left out, so loading keeps the newest records
    /// whatever order they are read in. Reports whether it was added.
    pub fn load(&mut self, record: StoredExecution) -> (r: bool)
        requires
            old(self).wf(),
        ensures
            final(self).wf(),
            final(self).capacity() == old(self).capacity(),
            r == !(old(self).records().len() >= old(self).capacity() && index_of(
                old(self).records(),
                record.execution_id@,
            ) is None && forall|j: int|
                0 <= j < old(self).records().len() ==> record.timestamp_ms
                    < #[trigger] old(self).records()[j].timestamp_ms),
            !r ==> final(self).records() == old(self).records(),
            r ==> lookup(final(self).records(), record.execution_id@) == Some(record),
            r && old(self).records().len() >= old(self).capacity() ==> exists|k: int|
                oldest_at(old(self).records(), k) && keeps_others(
                    final(self).records(),
                    old(self).records(),
                    k,
                    record.execution_id@,
                ),
    {
        if self.executions.len() >= self.max_stored {
            let k = self.oldest();
            if record.timestamp_ms < self.executions[k].timestamp_ms && self.position(
                record.execution_id.as_str(),
            ).is_none() {
                return false;
            }
            proof {
                if index_of(self.executions@, record.execution_id@) is None {
                    assert(record.timestamp_ms >= self.executions@[k as int].timestamp_ms);
                }
            }
        }
        self.insert(record);
        true
    }

    /// Stores an execution at `now_ms` and returns its id. When the store is
    /// full the record with the oldest timestamp is evicted first.
    pub fn store(
        &mut self,
        user_id: String,
        request: ExecuteRequest,
        response: ExecuteResponse,
        now_ms: u64,
    ) -> (r: String)
        requires
            old(self).wf(),
        ensures
            final(self).wf(),
            final(self).capacity() == old(self).capacity(),
            r@ == response.execution_id@,
            lookup(final(self).records(), response.execution_id@) matches Some(s) && s.user_id
                == user_id && s.timestamp_ms == now_ms && s.response == response && s.request
                == request && s.code@ == request.code@,
            forall|i: int|
                0 <= i < final(self).records().len() ==> (#[trigger] final(self).records()[i]).execution_id@
                    == response.execution_id@ || old(self).records().contains(final(self).records()[i]),
            old(self).records().len() < old(self).capacity() ==> keeps_others(
                final(self).records(),
                old(self).records(),
                -1,
                response.execution_id@,
            ),
            old(self).records().len() >= old(self).capacity() ==> exists|k: int|
                oldest_at(old(self).records(), k) && keeps_others(
                    final(self).records(),
                    old(self).records(),
                    k,
                    response.execution_id@,
                ),
    {
        let execution_id = response.execution_id.clone();
        let code = request.code.clone();
        let record = StoredExecution {
            execution_id: response.execution_id.clone(),
            user_id,
            timestamp_ms: now_ms,
            request,
            response,
            code,
        };
        let ghost rec = record;
        self.insert(record);
        assert forall|i: int|
            0 <= i < self.executions@.len() implies (#[trigger] self.executions@[i]).execution_id@
            == response.execution_id@ || old(self).records().contains(self.executions@[i]) by {
            assert(self.executions@[i] == rec || old(self).records().contains(self.executions@[i]));
        }
        execution_id
    }

    /// The stored execution with the given id.
    pub fn get(&self, execution_id: &str) -> (r: Option<&StoredExecution>)
        requires
            self.wf(),
        ensures
            match lookup(self.records(), execution_id@) {
                Some(s) => r is Some && *r.unwrap() == s,
                None => r is None,
            },
    {
        match self.position(execution_id) {
            Some(i) => Some(&self.executions[i]),
            None => None,
        }
    }

    /// The request of a stored execution, to run again.
    pub fn replay(&self, execution_id: &str) -> (r: Option<&ExecuteRequest>)
        requires
            self.wf(),
        ensures
            match lookup(self.records(), execution_id@) {
                Some(s) => r is Some && *r.unwrap() == s.request,
                None => r is None,
            },
    {
        match self.get(execution_id) {
            Some(s) => Some(&s.request),
            None => None,
        }
    }

    /// The files among `names` (entries of the storage directory) that hold
    /// a record no longer stored: `<id>.json` with no record `<id>`.
    pub fn stale_files(&self, names: &Vec<String>) -> (r: Vec<String>)
        requires
            self.wf(),
        ensures
            strings_view(r@) == stale_names(self.records(), strings_view(names@)),
    {
        let ghost all = strings_view(names@);
        let mut out: Vec<String> = Vec::new();
        let mut i: usize = 0;
        assert(all.take(0) =~= Seq::<Seq<char>>::empty());
        assert(strings_view(out@) =~= Seq::empty());
        while i < names.len()
            invariant
                self.wf(),
                all == strings_view(names@),
                i <= names@.len(),
                strings_view(out@) == stale_names(self.records(), all.take(i as int)),
            decreases names@.len() - i,
        {
            proof {
                assert(all.take(i + 1).drop_last() =~= all.take(i as int));
                assert(all.take(i + 1).last() == names@[i as int]@);
            }
            let chars = chars_of(names[i].as_str());
            let n = chars.len();
            if n >= 5 && chars[n - 5] == '.' && chars[n - 4] == 'j' && chars[n - 3] == 's'
                && chars[n - 2] == 'o' && chars[n - 1] == 'n' {
                proof {
                    reveal_strlit(".json");
                    assert(chars@.skip(n - 5) =~= ".json"@);
                }
                let mut stem_chars: Vec<char> = Vec::new();
                let mut k: usize = 0;
                while k < n - 5
                    invariant
                        n == chars@.len(),
                        n >= 5,
                        k <= n - 5,
                        stem_chars@ == chars@.take(k as int),
                    decreases n - 5 - k,
                {
                    stem_chars.push(chars[k]);
                    assert(stem_chars@ =~= chars@.take(k + 1));
                    k = k + 1;
                }
                let stem = string_from_chars(&stem_chars);
                if self.get(stem.as_str()).is_none() {
                    let ghost before = out@;
                    out.push(names[i].clone());
                    assert(strings_view(out@) =~= strings_view(before).push(names@[i as int]@));
                }
            } else {
                proof {
                    reveal_strlit(".json");
                    if n >= 5 {
                        assert(chars@.skip(n - 5) != ".json"@ ) by {
                            if chars@.skip(n - 5) == ".json"@ {
                                assert(chars@.skip(n - 5)[0] == chars@[n - 5]);
                                assert(chars@.skip(n - 5)[1] == chars@[n - 4]);
                                assert(chars@.skip(n - 5)[2] == chars@[n - 3]);
                                assert(chars@.skip(n - 5)[3] == chars@[n - 2]);
                                assert(chars@.skip(n - 5)[4] == chars@[n - 1]);
                            }
                        }
                    }
                }
            }
            i = i + 1;
        }
        assert(all.take(names@.len() as int) =~= all);
        out
    }

    /// All stored executions, newest first.
    pub fn list_all(&self) -> (r: Vec<&StoredExecution>)
        ensures
            r@.len() == self.records().len(),
            newest_first(r@),
            forall|i: int| 0 <= i < r@.len() ==> self.records().contains(*#[trigger] r@[i]),
    {
        let mut out: Vec<&StoredExecution> = Vec::new();
        let mut i: usize = 0;
        while i < self.executions.len()
            invariant
                i <= self.executions@.len(),
                out@.len() == i,
                newest_first(out@),
                forall|k: int| 0 <= k < out@.len() ==> self.executions@.contains(*#[trigger] out@[k]),
            decreases self.executions@.len() - i,
        {
            let ghost prev = out@;
            insert_by_time(&mut out, &self.executions[i]);
            proof {
                assert(self.executions@.contains(self.executions@[i as int]));
                assert forall|k: int| 0 <= k < out@.len() implies self.executions@.contains(
                    *#[trigger] out@[k],
                ) by {
                    assert(out@.contains(out@[k]));
                    if prev.contains(out@[k]) {
                        let j = choose|j: int| 0 <= j < prev.len() && prev[j] == out@[k];
                        assert(self.executions@.contains(*prev[j]));
                    }
                }
            }
            i = i + 1;
        }
        out
    }

    /// The user's stored executions, newest first.
    pub fn list_user_executions(&self, user_id: &str) -> (r: Vec<&StoredExecution>)
        requires
            self.wf(),
        ensures
            newest_first(r@),
            forall|i: int|
                0 <= i < r@.len() ==> self.records().contains(*#[trigger] r@[i]) && r@[i].user_id@
                    == user_id@,
            forall|j: int|
                0 <= j < self.records().len() && (#[trigger] self.records()[j]).user_id@ == user_id@
                    ==> r@.contains(&self.records()[j]),
            forall|a: int, b: int|
                0 <= a < b < r@.len() ==> (#[trigger] r@[a]).execution_id@ != (#[trigger] r@[b]).execution_id@,
    {
        let mut out: Vec<&StoredExecution> = Vec::new();
        let mut i: usize = 0;
        while i < self.executions.len()
            invariant
                i <= self.executions@.len(),
                newest_first(out@),
                distinct_ids(self.executions@),
                forall|k: int|
                    0 <= k < out@.len() ==> self.executions@.contains(*#[trigger] out@[k])
                        && out@[k].user_id@ == user_id@,
                forall|k: int| 0 <= k < out@.len() ==> exists|j: int| 0 <= j < i && *(#[trigger] out@[k]) == self.executions@[j],
                forall|j: int|
                    0 <= j < i && (#[trigger] self.executions@[j]).user_id@ == user_id@
                        ==> out@.contains(&self.executions@[j]),
                forall|a: int, b: int|
                    0 <= a < b < out@.len() ==> (#[trigger] out@[a]).execution_id@ != (#[trigger] out@[b]).execution_id@,
            decreases self.executions@.len() - i,
        {
            if same_text(self.executions[i].user_id.as_str(), user_id) {
                let ghost prev = out@;
                insert_by_time(&mut out, &self.executions[i]);
                proof {
                    let e = &self.executions@[i as int];
                    let p = choose|p: int| 0 <= p <= prev.len() && out@ == prev.insert(p, e);
                    assert(self.executions@.contains(self.executions@[i as int]));
                    assert forall|k: int| 0 <= k < prev.len() implies (#[trigger] prev[k]).execution_id@
                        != e.execution_id@ by {
                        let j = choose|j: int| 0 <= j < i && *prev[k] == self.executions@[j];
                        assert(self.executions@[j].execution_id@ != self.executions@[i as int].execution_id@);
                    }
                    assert forall|k: int| 0 <= k < out@.len() implies self.executions@.contains(
                        *#[trigger] out@[k],
                    ) && out@[k].user_id@ == user_id@ by {
                        if k < p {
                            assert(out@[k] == prev[k]);
                        } else if k > p {
                            assert(out@[k] == prev[k - 1]);
                        }
                    }
                    assert forall|k: int| 0 <= k < out@.len() implies exists|j: int| 0 <= j < i + 1 && *(#[trigger] out@[k]) == self.executions@[j] by {
                        if k < p {
                            assert(out@[k] == prev[k]);
                        } else if k > p {
                            assert(out@[k] == prev[k - 1]);
                        } else {
                            assert(*out@[k] == self.executions@[i as int]);
                        }
                    }
                    assert forall|j: int|
                        0 <= j < i + 1 && (#[trigger] self.executions@[j]).user_id@ == user_id@
                            implies out@.contains(&self.executions@[j]) by {
                        if j < i {
                            assert(prev.contains(&self.executions@[j]));
                        } else {
                            assert(out@[p] == e);
                        }
                    }
                    assert forall|a: int, b: int|
                        0 <= a < b < out@.len() implies (#[trigger] out@[a]).execution_id@ != (#[trigger] out@[b]).execution_id@ by {
                        if a < p && b < p {
                            assert(out@[a] == prev[a] && out@[b] == prev[b]);
                        } else if a < p && b == p {
                            assert(out@[a] == prev[a]);
                        } else if a < p {
                            assert(out@[a] == prev[a] && out@[b] == prev[b - 1]);
                        } else if a == p {
                            assert(out@[b] == prev[b - 1]);
                        } else {
                            assert(out@[a] == prev[a - 1] && out@[b] == prev[b - 1]);
                        }
                    }
                }
            } else {
                proof {
                    assert forall|k: int| 0 <= k < out@.len() implies exists|j: int| 0 <= j < i + 1 && *(#[trigger] out@[k]) == self.executions@[j] by {
                        let j = choose|j: int| 0 <= j < i && *out@[k] == self.executions@[j];
                    }
                }
            }
            i = i + 1;
        }
        out
    }
}

/// In a store with distinct ids, looking up a record's id finds that
/// record: what was stored is what is got back.
pub proof fn lemma_store_then_get(records: Seq<StoredExecution>, i: int)
    requires
        distinct_ids(records),
        0 <= i < records.len(),
    ensures
        lookup(records, records[i].execution_id@) == Some(records[i]),
{
    let id = records[i].execution_id@;
    assert(exists|k: int| 0 <= k < records.len() && records[k].execution_id@ == id);
    let k = choose|k: int| 0 <= k < records.len() && records[k].execution_id@ == id;
    if k != i {
        if k < i {
            assert(records[k].execution_id@ != records[i].execution_id@);
        } else {
            assert(records[i].execution_id@ != records[k].execution_id@);
        }
    }
}

proof fn lemma_insert_contains<T>(s: Seq<T>, k: int, e: T)
    requires
        0 <= k <= s.len(),
    ensures
        forall|x: T| #[trigger] s.insert(k, e).contains(x) <==> (s.contains(x) || x == e),
{
    let t = s.insert(k, e);
    assert forall|x: T| #[trigger] t.contains(x) <==> (s.contains(x) || x == e) by {
        if t.contains(x) {
            let j = choose|j: int| 0 <= j < t.len() && t[j] == x;
            if j < k {
                assert(s[j] == x);
            } else if j > k {
                assert(s[j - 1] == x);
            }
        }
        if s.contains(x) {
            let j = choose|j: int| 0 <= j < s.len() && s[j] == x;
            if j < k {
                assert(t[j] == x);
            } else {
                assert(t[j + 1] == x);
            }
        }
        if x == e {
            assert(t[k] == x);
        }
    }
}

/// Inserts `e` into a newest-first list, keeping it newest first.
fn insert_by_time<'a>(v: &mut Vec<&'a StoredExecution>, e: &'a StoredExecution)
    requires
        newest_first(old(v)@),
    ensures
        newest_first(final(v)@),
        final(v)@.len() == old(v)@.len() + 1,
        forall|x: &StoredExecution| final(v)@.contains(x) <==> (old(v)@.contains(x) || x == e),
        exists|k: int| 0 <= k <= old(v)@.len() && final(v)@ == old(v)@.insert(k, e),
{
    let mut k: usize = 0;
    while k < v.len() && v[k].timestamp_ms >= e.timestamp_ms
        invariant
            v@ == old(v)@,
            k <= v@.len(),
            forall|j: int| 0 <= j < k ==> v@[j].timestamp_ms >= e.timestamp_ms,
        decreases v@.len() - k,
    {
        k = k + 1;
    }
    let ghost before = v@;
    v.insert(k, e);
    assert(v@ =~= before.insert(k as int, e));
    proof {
        lemma_insert_contains(before, k as int, e);
        assert(0 <= k <= before.len() && v@ == before.insert(k as int, e));
    }
}

} // verus!
