//! The assembled sink: a batcher, an in-flight gate and a rate limiter, each
//! running with the settings of one validated plan.
use vstd::prelude::*;
use crate::batch::{partition_key_for, record_size, total_size, within_bounds, Admission, Batcher, EncodedRecord};
use crate::config::{batch_settings_spec, request_settings_spec, ConfigError, KinesisSinkConfig, SinkPlan};
use crate::delivery::BatchDelivery;
use crate::request::{rate_admits, rate_step, InFlightGate, RateLimiter};

verus! {

/// The running state of one sink.
pub struct Sink {
    plan: SinkPlan,
    batcher: Batcher,
    gate: InFlightGate,
    limiter: RateLimiter,
}

impl Sink {
    pub closed spec fn plan_view(&self) -> SinkPlan {
        self.plan
    }

    pub closed spec fn batcher_view(&self) -> Batcher {
        self.batcher
    }

    pub closed spec fn gate_view(&self) -> InFlightGate {
        self.gate
    }

    pub closed spec fn limiter_view(&self) -> RateLimiter {
        self.limiter
    }

    /// Every component runs with the plan's settings; in particular no more
    /// batches are in flight than the plan's concurrency.
    pub open spec fn wf(&self) -> bool {
        &&& self.batcher_view().wf()
        &&& self.batcher_view().settings_view() == self.plan_view().batch
        &&& self.gate_view().wf()
        &&& self.gate_view().limit_view() == self.plan_view().request.concurrency
        &&& self.limiter_view().wf()
        &&& self.limiter_view().num_view() == self.plan_view().request.rate_limit_num
        &&& self.limiter_view().window_ms_view() == self.plan_view().request.rate_limit_duration_ms
    }

    /// Assembles a sink from a plan; `build` gives plans whose batches hold at
    /// least one record.
    pub fn new(plan: SinkPlan) -> (s: Self)
        requires
            plan.batch.max_events > 0,
        ensures
            s.wf(),
            s.plan_view() == plan,
            s.batcher_view().records_view() == Seq::<EncodedRecord>::empty(),
            s.gate_view().active_view() == 0,
    {
        let batcher = Batcher::new(plan.batch);
        let gate = InFlightGate::new(plan.request.concurrency);
        let limiter = RateLimiter::new(plan.request.rate_limit_num, plan.request.rate_limit_duration_ms);
        Sink { plan, batcher, gate, limiter }
    }

    /// The plan this sink runs with.
    pub fn plan(&self) -> (p: &SinkPlan)
        ensures
            *p == self.plan_view(),
    {
        &self.plan
    }

    /// Hands a record to the batcher. A record larger than the byte bound
    /// comes back, changing nothing. One that does not fit beside the open
    /// batch closes it and opens the next, at `now`. One that brings the open
    /// batch to `max_events` closes it with itself inside. Otherwise it joins
    /// the open batch, which opens at `now` if it was empty. Batches keep the
    /// records in arrival order and within the plan's bounds.
    pub fn push(&mut self, record: EncodedRecord, now: u64) -> (a: Admission)
        requires
            old(self).wf(),
        ensures
            final(self).wf(),
            final(self).plan_view() == old(self).plan_view(),
            final(self).gate_view() == old(self).gate_view(),
            final(self).limiter_view() == old(self).limiter_view(),
            a matches Admission::Closed(b) ==> within_bounds(old(self).plan_view().batch, b@) && b@.len() > 0,
            record_size(record) > old(self).plan_view().batch.max_bytes ==> a == Admission::Oversized(record)
                && final(self).batcher_view().records_view() == old(self).batcher_view().records_view()
                && final(self).batcher_view().opened_at_view() == old(self).batcher_view().opened_at_view(),
            record_size(record) <= old(self).plan_view().batch.max_bytes && total_size(
                old(self).batcher_view().records_view(),
            ) + record_size(record) > old(self).plan_view().batch.max_bytes ==> (a matches Admission::Closed(b)
                && b@ == old(self).batcher_view().records_view()) && final(self).batcher_view().records_view()
                == seq![record] && final(self).batcher_view().opened_at_view() == now,
            total_size(old(self).batcher_view().records_view()) + record_size(record)
                <= old(self).plan_view().batch.max_bytes ==> if old(self).batcher_view().records_view().len() + 1
                == old(self).plan_view().batch.max_events {
                (a matches Admission::Closed(b) && b@ == old(self).batcher_view().records_view().push(record))
                    && final(self).batcher_view().records_view() == Seq::<EncodedRecord>::empty()
            } else {
                a == Admission::Held && final(self).batcher_view().records_view()
                    == old(self).batcher_view().records_view().push(record)
                    && final(self).batcher_view().opened_at_view() == if old(self).batcher_view().records_view().len()
                    == 0 {
                    now
                } else {
                    old(self).batcher_view().opened_at_view()
                }
            },
    {
        self.batcher.push(record, now)
    }

    /// Closes the open batch if it is not empty and the plan's timeout has
    /// passed since its first record; otherwise changes nothing.
    pub fn poll(&mut self, now: u64) -> (r: Option<Vec<EncodedRecord>>)
        requires
            old(self).wf(),
        ensures
            final(self).wf(),
            final(self).plan_view() == old(self).plan_view(),
            final(self).gate_view() == old(self).gate_view(),
            final(self).limiter_view() == old(self).limiter_view(),
            old(self).batcher_view().records_view().len() > 0 && now >= old(self).batcher_view().opened_at_view()
                + old(self).plan_view().batch.timeout_ms ==> (r matches Some(b) && b@
                == old(self).batcher_view().records_view() && b@.len() > 0)
                && final(self).batcher_view().records_view() == Seq::<EncodedRecord>::empty(),
            !(old(self).batcher_view().records_view().len() > 0 && now >= old(self).batcher_view().opened_at_view()
                + old(self).plan_view().batch.timeout_ms) ==> r is None && final(self).batcher_view()
                == old(self).batcher_view(),
            r matches Some(b) ==> within_bounds(old(self).plan_view().batch, b@),
    {
        self.batcher.poll(now)
    }

    /// When the open batch is due, if any (see `Batcher::deadline`).
    pub fn deadline(&self) -> (r: Option<u64>)
        requires
            self.wf(),
        ensures
            r == (if self.batcher_view().records_view().len() == 0 {
                None
            } else if self.batcher_view().opened_at_view() + self.plan_view().batch.timeout_ms > u64::MAX {
                Some(u64::MAX)
            } else {
                Some((self.batcher_view().opened_at_view() + self.plan_view().batch.timeout_ms) as u64)
            }),
    {
        self.batcher.deadline()
    }

    /// Hands out the open batch at shutdown, if it holds any record, and
    /// leaves it empty.
    pub fn flush(&mut self) -> (r: Option<Vec<EncodedRecord>>)
        requires
            old(self).wf(),
        ensures
            final(self).wf(),
            final(self).plan_view() == old(self).plan_view(),
            final(self).gate_view() == old(self).gate_view(),
            final(self).limiter_view() == old(self).limiter_view(),
            final(self).batcher_view().records_view() == Seq::<EncodedRecord>::empty(),
            old(self).batcher_view().records_view().len() == 0 ==> r is None,
            old(self).batcher_view().records_view().len() > 0 ==> (r matches Some(b) && b@
                == old(self).batcher_view().records_view() && b@.len() > 0),
            r matches Some(b) ==> within_bounds(old(self).plan_view().batch, b@),
    {
        self.batcher.flush()
    }

    /// Lets one call go at time `now` exactly when fewer than the plan's
    /// concurrency are in flight and the rate limit admits it; otherwise the
    /// caller waits and asks again, so a batch is held back, never dropped.
    /// The rate limit is only consulted when a slot is free.
    pub fn try_start_call(&mut self, now: u64) -> (started: bool)
        requires
            old(self).wf(),
        ensures
            final(self).wf(),
            final(self).plan_view() == old(self).plan_view(),
            final(self).batcher_view() == old(self).batcher_view(),
            started == (old(self).gate_view().active_view() < old(self).plan_view().request.concurrency
                && rate_admits(old(self).limiter_view(), now)),
            old(self).gate_view().active_view() >= old(self).plan_view().request.concurrency
                ==> final(self).limiter_view() == old(self).limiter_view(),
            old(self).gate_view().active_view() < old(self).plan_view().request.concurrency ==> rate_step(
                old(self).limiter_view(),
                final(self).limiter_view(),
                now,
                started,
            ),
            final(self).gate_view().limit_view() == old(self).gate_view().limit_view(),
            final(self).gate_view().active_view() == old(self).gate_view().active_view() + if started {
                1int
            } else {
                0int
            },
            final(self).gate_view().active_view() <= final(self).plan_view().request.concurrency,
    {
        if self.gate.active() >= self.plan.request.concurrency {
            return false;
        }
        if !self.limiter.try_acquire(now) {
            return false;
        }
        self.gate.try_acquire()
    }

    /// A call in flight completed; false, with nothing changed, if none was.
    pub fn finish_call(&mut self) -> (released: bool)
        requires
            old(self).wf(),
        ensures
            final(self).wf(),
            final(self).plan_view() == old(self).plan_view(),
            final(self).batcher_view() == old(self).batcher_view(),
            final(self).limiter_view() == old(self).limiter_view(),
            final(self).gate_view().limit_view() == old(self).gate_view().limit_view(),
            released == (old(self).gate_view().active_view() > 0),
            final(self).gate_view().active_view() == old(self).gate_view().active_view() - if released {
                1int
            } else {
                0int
            },
    {
        self.gate.release()
    }

    /// The partition key of a record: the event's value of the configured
    /// field, when a field is configured and the event has it as a scalar
    /// (`field_value` is then `Some`); else the freshly drawn random key.
    pub fn partition_key(&self, field_value: Option<String>, random_key: String) -> (k: String)
        ensures
            k == if self.plan_view().partition_key_field is None {
                random_key
            } else {
                match field_value {
                    Some(v) => v,
                    None => random_key,
                }
            },
    {
        if self.plan.partition_key_field.is_none() {
            random_key
        } else {
            partition_key_for(field_value, random_key)
        }
    }

    /// Calls in flight now.
    pub fn calls_in_flight(&self) -> (n: usize)
        ensures
            n == self.gate_view().active_view(),
    {
        self.gate.active()
    }

    /// Starts the delivery of a batch of `n` records with the plan's retry
    /// allowance.
    pub fn start_delivery(&self, n: usize) -> (d: BatchDelivery)
        ensures
            d.wf(),
            d.states_view().len() == n,
            d.in_flight_view() == Seq::new(n as nat, |i: int| i as usize),
            d.retries_view() == 0,
            d.retry_attempts_view() == self.plan_view().request.retry_attempts,
    {
        BatchDelivery::new(n, self.plan.request.retry_attempts)
    }
}

/// In every state of a sink, which each of its methods keeps valid, no more
/// calls are in flight than the plan's concurrency.
pub proof fn lemma_calls_in_flight_bounded(s: Sink)
    requires
        s.wf(),
    ensures
        s.gate_view().active_view() <= s.plan_view().request.concurrency,
{
}

impl KinesisSinkConfig {
    /// Validates the configuration (see `build`) and assembles the sink.
    pub fn build_sink(&self) -> (r: Result<Sink, ConfigError>)
        ensures
            batch_settings_spec(self.batch) matches Err(e) ==> r == Err::<Sink, ConfigError>(e),
            batch_settings_spec(self.batch) is Ok ==> (request_settings_spec(self.request) matches Err(e) ==> r
                == Err::<Sink, ConfigError>(e)),
            r matches Ok(s) ==> s.wf() && Ok::<_, ConfigError>(s.plan_view().batch) == batch_settings_spec(self.batch)
                && Ok::<_, ConfigError>(s.plan_view().request) == request_settings_spec(self.request)
                && s.plan_view().stream_name == self.stream_name
                && s.batcher_view().records_view() == Seq::<EncodedRecord>::empty()
                && s.gate_view().active_view() == 0,
            batch_settings_spec(self.batch) is Ok && request_settings_spec(self.request) is Ok ==> r is Ok,
    {
        match self.build() {
            Ok(plan) => Ok(Sink::new(plan)),
            Err(e) => Err(e),
        }
    }
}

} // verus!
