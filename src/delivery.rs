//! The retry state of one batch: which records are delivered, which are given
//! up, and which form the next sub-batch to send.
use vstd::prelude::*;
use crate::batch::{same_record, EncodedRecord};
use crate::classify::{verdict_at, verdict_of, strictly_increasing, DispatchOutcome, FailureReason, Verdict};

verus! {

/// Where one record of a batch stands.
#[derive(Clone, Copy, Debug, PartialEq, Eq, Structural)]
pub enum RecordState {
    Pending,
    Delivered,
    Failed(FailureReason),
}

/// Delivery of one batch of records, attempt after attempt.
pub struct BatchDelivery {
    states: Vec<RecordState>,
    in_flight: Vec<usize>,
    retries: u64,
    retry_attempts: u64,
}

/// The state that a record at position `k` of the sub-batch takes after an
/// attempt whose outcome is `outcome`; `exhausted` says that no retry is left.
pub open spec fn next_state(outcome: DispatchOutcome, k: int, exhausted: bool) -> RecordState {
    match verdict_of(outcome, k) {
        Verdict::Delivered => RecordState::Delivered,
        Verdict::Terminal(r) => RecordState::Failed(r),
        Verdict::Retry => if exhausted {
            RecordState::Failed(FailureReason::RetriesExhausted)
        } else {
            RecordState::Pending
        },
    }
}

/// The records of `batch` at `indices`, in the order of `indices`: the
/// sub-batch to send in an attempt.
pub fn sub_batch(batch: &Vec<EncodedRecord>, indices: &Vec<usize>) -> (r: Vec<EncodedRecord>)
    requires
        forall|k: int| 0 <= k < indices@.len() ==> indices@[k] < batch@.len(),
    ensures
        r@.len() == indices@.len(),
        forall|k: int| 0 <= k < indices@.len() ==> same_record(#[trigger] r@[k], batch@[indices@[k] as int]),
{
    let mut r: Vec<EncodedRecord> = Vec::new();
    let mut k: usize = 0;
    while k < indices.len()
        invariant
            k <= indices@.len(),
            r@.len() == k,
            forall|k: int| 0 <= k < indices@.len() ==> indices@[k] < batch@.len(),
            forall|q: int| 0 <= q < k ==> same_record(#[trigger] r@[q], batch@[indices@[q] as int]),
        decreases indices@.len() - k,
    {
        r.push(batch[indices[k]].copy());
        k = k + 1;
    }
    r
}

/// How one attempt changes a delivery: the effect of `record_attempt`.
pub open spec fn attempt_step(before: BatchDelivery, after: BatchDelivery, outcome: DispatchOutcome) -> bool {
    &&& after.wf()
    &&& after.states_view().len() == before.states_view().len()
    &&& after.retry_attempts_view() == before.retry_attempts_view()
    &&& forall|k: int| 0 <= k < before.in_flight_view().len() ==>
            after.states_view()[before.in_flight_view()[k] as int] == next_state(
                outcome,
                k,
                before.retries_view() >= before.retry_attempts_view(),
            )
    &&& forall|i: usize| i < before.states_view().len() && !before.in_flight_view().contains(i) ==>
            after.states_view()[i as int] == before.states_view()[i as int]
    &&& forall|i: usize| i < before.states_view().len() && before.states_view()[i as int] == RecordState::Delivered
            ==> after.states_view()[i as int] == RecordState::Delivered
    &&& forall|p: int| 0 <= p < after.in_flight_view().len() ==>
            before.in_flight_view().contains(#[trigger] after.in_flight_view()[p])
    &&& before.retries_view() >= before.retry_attempts_view() ==> after.in_flight_view().len() == 0
    &&& after.retries_view() == before.retries_view() + if after.in_flight_view().len() > 0 {
            1int
        } else {
            0int
        }
}

/// Over a whole delivery that starts afresh and makes one call per step
/// while records are pending: at most `retry_attempts + 1` calls are made,
/// and a record delivered at some step is still delivered at every later
/// step.
pub proof fn lemma_whole_delivery(ds: Seq<BatchDelivery>, os: Seq<DispatchOutcome>)
    requires
        ds.len() >= 1,
        os.len() == ds.len() - 1,
        ds[0].wf(),
        ds[0].retries_view() == 0,
        forall|k: int| 0 <= k < os.len() ==> attempt_step(ds[k], ds[k + 1], #[trigger] os[k]),
        forall|k: int| 0 <= k < os.len() ==> (#[trigger] ds[k]).in_flight_view().len() > 0,
    ensures
        os.len() <= ds[0].retry_attempts_view() + 1,
        forall|k: int, j: int, i: usize|
            0 <= k <= j < ds.len() && i < ds[k].states_view().len()
                && (#[trigger] ds[k].states_view()[i as int]) == RecordState::Delivered ==>
                (#[trigger] ds[j].states_view()[i as int]) == RecordState::Delivered,
{
    if os.len() > 0 {
        lemma_retries_count(ds, os, os.len() - 1);
    }
    assert forall|k: int, j: int, i: usize|
        0 <= k <= j < ds.len() && i < ds[k].states_view().len()
            && (#[trigger] ds[k].states_view()[i as int]) == RecordState::Delivered implies
            (#[trigger] ds[j].states_view()[i as int]) == RecordState::Delivered by {
        lemma_delivered_persists(ds, os, k, j, i);
    }
}

/// Where `x` stands in `s`.
pub open spec fn position_of(s: Seq<usize>, x: usize) -> int {
    choose|q: int| 0 <= q < s.len() && s[q] == x
}

/// The records sent in a retry are a subsequence of those sent in the
/// attempt before: each stands at some position of the earlier sub-batch,
/// and those positions increase, so the records keep their relative order.
pub proof fn lemma_retry_keeps_order(before: BatchDelivery, after: BatchDelivery, outcome: DispatchOutcome)
    requires
        before.wf(),
        attempt_step(before, after, outcome),
    ensures
        forall|p: int| 0 <= p < after.in_flight_view().len() ==> {
            let q = position_of(before.in_flight_view(), #[trigger] after.in_flight_view()[p]);
            0 <= q < before.in_flight_view().len() && before.in_flight_view()[q] == after.in_flight_view()[p]
        },
        forall|p1: int, p2: int| 0 <= p1 < p2 < after.in_flight_view().len() ==>
            position_of(before.in_flight_view(), #[trigger] after.in_flight_view()[p1])
                < position_of(before.in_flight_view(), #[trigger] after.in_flight_view()[p2]),
{
    let b = before.in_flight_view();
    let a = after.in_flight_view();
    assert forall|p: int| 0 <= p < a.len() implies {
        let q = position_of(b, #[trigger] a[p]);
        0 <= q < b.len() && b[q] == a[p]
    } by {
        assert(b.contains(a[p]));
    }
    assert forall|p1: int, p2: int| 0 <= p1 < p2 < a.len() implies
        position_of(b, #[trigger] a[p1]) < position_of(b, #[trigger] a[p2]) by {
        assert(b.contains(a[p1]));
        assert(b.contains(a[p2]));
        let q1 = position_of(b, a[p1]);
        let q2 = position_of(b, a[p2]);
        assert(a[p1] < a[p2]);
        if q1 >= q2 {
            assert(b[q2] <= b[q1]);
        }
    }
}

proof fn lemma_delivered_persists(ds: Seq<BatchDelivery>, os: Seq<DispatchOutcome>, k: int, j: int, i: usize)
    requires
        0 <= k <= j < ds.len(),
        os.len() == ds.len() - 1,
        forall|q: int| 0 <= q < os.len() ==> attempt_step(ds[q], ds[q + 1], #[trigger] os[q]),
        i < ds[k].states_view().len(),
        ds[k].states_view()[i as int] == RecordState::Delivered,
    ensures
        i < ds[j].states_view().len(),
        ds[j].states_view()[i as int] == RecordState::Delivered,
    decreases j - k,
{
    if k < j {
        lemma_delivered_persists(ds, os, k, j - 1, i);
        let q = j - 1;
        assert(attempt_step(ds[q], ds[q + 1], os[q]));
    }
}

proof fn lemma_retries_count(ds: Seq<BatchDelivery>, os: Seq<DispatchOutcome>, k: int)
    requires
        0 <= k < ds.len(),
        k < os.len() || k == 0,
        os.len() == ds.len() - 1,
        ds[0].wf(),
        ds[0].retries_view() == 0,
        forall|q: int| 0 <= q < os.len() ==> attempt_step(ds[q], ds[q + 1], #[trigger] os[q]),
        forall|q: int| 0 <= q < os.len() ==> (#[trigger] ds[q]).in_flight_view().len() > 0,
    ensures
        ds[k].retries_view() == k,
        ds[k].retry_attempts_view() == ds[0].retry_attempts_view(),
        ds[k].wf(),
    decreases k,
{
    if k > 0 {
        lemma_retries_count(ds, os, k - 1);
        let q = k - 1;
        assert(attempt_step(ds[q], ds[q + 1], os[q]));
        assert(ds[k].in_flight_view().len() > 0);
    }
}

impl BatchDelivery {
    pub closed spec fn states_view(&self) -> Seq<RecordState> {
        self.states@
    }

    /// Indices of the records to send next, in their order in the batch.
    pub closed spec fn in_flight_view(&self) -> Seq<usize> {
        self.in_flight@
    }

    pub closed spec fn retries_view(&self) -> u64 {
        self.retries
    }

    pub closed spec fn retry_attempts_view(&self) -> u64 {
        self.retry_attempts
    }

    /// The sub-batch to send lists exactly the pending records, in increasing
    /// order of index, so the records keep their relative order in the batch;
    /// never more retries than allowed.
    pub open spec fn wf(&self) -> bool {
        &&& strictly_increasing(self.in_flight_view())
        &&& self.retries_view() <= self.retry_attempts_view()
        &&& forall|k: int| 0 <= k < self.in_flight_view().len() ==>
                self.in_flight_view()[k] < self.states_view().len()
        &&& forall|i: usize| i < self.states_view().len() ==>
                (self.states_view()[i as int] == RecordState::Pending <==> self.in_flight_view().contains(i))
    }

    /// Starts the delivery of a batch of `n` records, all pending, allowing
    /// `retry_attempts` retries after the first attempt.
    pub fn new(n: usize, retry_attempts: u64) -> (d: Self)
        ensures
            d.wf(),
            d.states_view() == Seq::new(n as nat, |i: int| RecordState::Pending),
            d.in_flight_view() == Seq::new(n as nat, |i: int| i as usize),
            d.retries_view() == 0,
            d.retry_attempts_view() == retry_attempts,
    {
        let mut states: Vec<RecordState> = Vec::new();
        let mut in_flight: Vec<usize> = Vec::new();
        let mut i: usize = 0;
        while i < n
            invariant
                i <= n,
                states@ == Seq::new(i as nat, |j: int| RecordState::Pending),
                in_flight@ == Seq::new(i as nat, |j: int| j as usize),
            decreases n - i,
        {
            states.push(RecordState::Pending);
            in_flight.push(i);
            i = i + 1;
        }
        let d = BatchDelivery { states, in_flight, retries: 0, retry_attempts };
        assert forall|j: usize| j < n implies d.in_flight@.contains(j) by {
            assert(d.in_flight@[j as int] == j);
        }
        d
    }

    /// Indices, within the batch, of the records to send in the next attempt.
    pub fn in_flight(&self) -> (r: &Vec<usize>)
        ensures
            r@ == self.in_flight_view(),
    {
        &self.in_flight
    }

    /// The records to send in the next attempt, taken from the whole batch;
    /// they keep their relative order in the batch.
    pub fn next_records(&self, batch: &Vec<EncodedRecord>) -> (r: Vec<EncodedRecord>)
        requires
            self.wf(),
            batch@.len() == self.states_view().len(),
        ensures
            r@.len() == self.in_flight_view().len(),
            forall|k: int| 0 <= k < r@.len() ==> same_record(#[trigger] r@[k], batch@[self.in_flight_view()[k] as int]),
    {
        sub_batch(batch, &self.in_flight)
    }

    /// Whether no record is pending any more.
    pub fn is_done(&self) -> (r: bool)
        ensures
            r == (self.in_flight_view().len() == 0),
    {
        self.in_flight.len() == 0
    }

    /// Number of retries made so far.
    pub fn retries(&self) -> (r: u64)
        ensures
            r == self.retries_view(),
    {
        self.retries
    }

    /// The state of record `i` of the batch.
    pub fn record_state(&self, i: usize) -> (r: RecordState)
        requires
            i < self.states_view().len(),
        ensures
            r == self.states_view()[i as int],
    {
        self.states[i]
    }

    /// Takes the outcome of the call that sent the current sub-batch. Delivered
    /// records are marked so, records with a terminal verdict are given up,
    /// and the records to retry form the next sub-batch, in their order; when
    /// no retry is left they are given up as exhausted instead. Records that
    /// were not in the sub-batch, delivered ones among them, keep their state.
    pub fn record_attempt(&mut self, outcome: &DispatchOutcome)
        requires
            old(self).wf(),
        ensures
            final(self).wf(),
            final(self).states_view().len() == old(self).states_view().len(),
            final(self).retry_attempts_view() == old(self).retry_attempts_view(),
            forall|k: int| 0 <= k < old(self).in_flight_view().len() ==>
                final(self).states_view()[old(self).in_flight_view()[k] as int] == next_state(
                    *outcome,
                    k,
                    old(self).retries_view() >= old(self).retry_attempts_view(),
                ),
            forall|i: usize| i < old(self).states_view().len() && !old(self).in_flight_view().contains(i) ==>
                final(self).states_view()[i as int] == old(self).states_view()[i as int],
            forall|i: usize| i < old(self).states_view().len() && old(self).states_view()[i as int]
                == RecordState::Delivered ==> final(self).states_view()[i as int] == RecordState::Delivered,
            forall|p: int| 0 <= p < final(self).in_flight_view().len() ==>
                old(self).in_flight_view().contains(#[trigger] final(self).in_flight_view()[p]),
            old(self).retries_view() >= old(self).retry_attempts_view() ==> final(self).in_flight_view().len() == 0,
            attempt_step(*old(self), *final(self), *outcome),
            final(self).retries_view() == old(self).retries_view() + if final(self).in_flight_view().len() > 0 {
                1int
            } else {
                0int
            },
    {
        let exhausted = self.retries >= self.retry_attempts;
        let ghost old_states = self.states@;
        let ghost old_flight = self.in_flight@;
        let m = self.in_flight.len();
        let mut next: Vec<usize> = Vec::new();
        let mut k: usize = 0;
        while k < m
            invariant
                0 <= k <= m,
                m == old_flight.len(),
                self.in_flight@ == old_flight,
                self.retries == old(self).retries,
                self.retry_attempts == old(self).retry_attempts,
                exhausted == (old(self).retries >= old(self).retry_attempts),
                self.states@.len() == old_states.len(),
                strictly_increasing(old_flight),
                forall|q: int| 0 <= q < old_flight.len() ==> old_flight[q] < old_states.len(),
                forall|i: usize| i < old_states.len() ==>
                    (old_states[i as int] == RecordState::Pending <==> old_flight.contains(i)),
                forall|q: int| 0 <= q < k ==> self.states@[old_flight[q] as int] == next_state(*outcome, q, exhausted),
                forall|q: int| k <= q < m ==> self.states@[old_flight[q] as int] == old_states[old_flight[q] as int],
                forall|i: usize| i < old_states.len() && !old_flight.contains(i) ==>
                    self.states@[i as int] == old_states[i as int],
                strictly_increasing(next@),
                forall|p: int| #![trigger next@[p]] 0 <= p < next@.len() ==> exists|q: int| 0 <= q < k && #[trigger] old_flight[q] == next@[p],
                forall|q: int| 0 <= q < k ==> (next@.contains(old_flight[q]) <==> next_state(*outcome, q, exhausted) == RecordState::Pending),
                exhausted ==> next@.len() == 0,
                k > 0 ==> forall|p: int| 0 <= p < next@.len() ==> next@[p] <= old_flight[k - 1],
            decreases m - k,
        {
            let i = self.in_flight[k];
            let v = verdict_at(outcome, k);
            let s = match v {
                Verdict::Delivered => RecordState::Delivered,
                Verdict::Terminal(r) => RecordState::Failed(r),
                Verdict::Retry => if exhausted {
                    RecordState::Failed(FailureReason::RetriesExhausted)
                } else {
                    RecordState::Pending
                },
            };
            let ghost prev_states = self.states@;
            let ghost prev_next = next@;
            self.states.set(i, s);
            if s == RecordState::Pending {
                next.push(i);
                assert(next@ == prev_next.push(i));
            }
            proof {
                assert forall|q: int| 0 <= q < m && q != k implies old_flight[q] != i by {
                    if q < k {
                        assert(old_flight[q] < old_flight[k as int]);
                    } else {
                        assert(old_flight[k as int] < old_flight[q]);
                    }
                }
                assert forall|q: int| 0 <= q < k + 1 implies (next@.contains(old_flight[q]) <==> next_state(*outcome, q, exhausted) == RecordState::Pending) by {
                    if q < k {
                        assert(old_flight[q] < i);
                        if next@.contains(old_flight[q]) {
                            let p = choose|p: int| 0 <= p < next@.len() && next@[p] == old_flight[q];
                            if p < prev_next.len() {
                                assert(prev_next[p] == old_flight[q]);
                            }
                        }
                        if prev_next.contains(old_flight[q]) {
                            let p = choose|p: int| 0 <= p < prev_next.len() && prev_next[p] == old_flight[q];
                            assert(next@[p] == old_flight[q]);
                        }
                    } else {
                        if next@.contains(i) && s != RecordState::Pending {
                            let p = choose|p: int| 0 <= p < next@.len() && next@[p] == i;
                            assert(next@[p] <= old_flight[k - 1]);
                        }
                        if s == RecordState::Pending {
                            assert(next@[prev_next.len() as int] == i);
                        }
                    }
                }
                assert forall|p: int| #![trigger next@[p]] 0 <= p < next@.len() implies exists|q: int| 0 <= q < k + 1 && #[trigger] old_flight[q] == next@[p] by {
                    if p < prev_next.len() {
                        assert(next@[p] == prev_next[p]);
                    } else {
                        assert(old_flight[k as int] == next@[p]);
                    }
                }
                assert forall|i2: usize| i2 < old_states.len() && !old_flight.contains(i2) implies
                    self.states@[i2 as int] == old_states[i2 as int] by {
                    if i2 == i {
                        assert(old_flight[k as int] == i);
                    }
                }
            }
            k = k + 1;
        }
        let ghost nx = next@;
        self.in_flight = next;
        if self.in_flight.len() > 0 {
            self.retries = self.retries + 1;
        }
        proof {
            assert forall|i: usize| i < self.states@.len() implies
                (self.states@[i as int] == RecordState::Pending <==> self.in_flight@.contains(i)) by {
                if old_flight.contains(i) {
                    let q = choose|q: int| 0 <= q < old_flight.len() && old_flight[q] == i;
                    assert(self.states@[old_flight[q] as int] == next_state(*outcome, q, exhausted));
                    assert(nx.contains(old_flight[q]) <==> next_state(*outcome, q, exhausted) == RecordState::Pending);
                } else {
                    assert(self.states@[i as int] == old_states[i as int]);
                    if nx.contains(i) {
                        let p = choose|p: int| 0 <= p < nx.len() && nx[p] == i;
                        let q = choose|q: int| 0 <= q < m && old_flight[q] == nx[p];
                        assert(old_flight.contains(i));
                    }
                }
            }
            assert forall|p: int| 0 <= p < self.in_flight@.len() implies self.in_flight@[p] < self.states@.len()
                && old_flight.contains(self.in_flight@[p]) by {
                let q = choose|q: int| 0 <= q < m && old_flight[q] == nx[p];
            }
            assert forall|i: usize| i < old_states.len() && old_states[i as int] == RecordState::Delivered
                implies self.states@[i as int] == RecordState::Delivered by {
                assert(!old_flight.contains(i));
            }
        }
    }
}

} // verus!
