//! Request control: the in-flight gate, the rate limiter and the backoff
//! between retries.
use vstd::prelude::*;

verus! {

/// Counts the batches in flight and admits a new one only below the limit.
pub struct InFlightGate {
    limit: usize,
    active: usize,
}

impl InFlightGate {
    pub closed spec fn limit_view(&self) -> usize {
        self.limit
    }

    /// Batches in flight now.
    pub closed spec fn active_view(&self) -> usize {
        self.active
    }

    /// Never more batches in flight than the limit.
    pub open spec fn wf(&self) -> bool {
        self.active_view() <= self.limit_view()
    }

    pub fn new(limit: usize) -> (g: Self)
        ensures
            g.wf(),
            g.limit_view() == limit,
            g.active_view() == 0,
    {
        InFlightGate { limit, active: 0 }
    }

    /// Admits one more batch if fewer than `limit` are in flight; otherwise
    /// the caller waits for a release.
    pub fn try_acquire(&mut self) -> (admitted: bool)
        requires
            old(self).wf(),
        ensures
            final(self).wf(),
            final(self).limit_view() == old(self).limit_view(),
            admitted == (old(self).active_view() < old(self).limit_view()),
            final(self).active_view() == old(self).active_view() + if admitted { 1int } else { 0int },
    {
        if self.active < self.limit {
            self.active = self.active + 1;
            true
        } else {
            false
        }
    }

    /// A batch in flight completed. Returns false, and changes nothing, when
    /// none was in flight.
    pub fn release(&mut self) -> (released: bool)
        requires
            old(self).wf(),
        ensures
            final(self).wf(),
            final(self).limit_view() == old(self).limit_view(),
            released == (old(self).active_view() > 0),
            final(self).active_view() == old(self).active_view() - if released { 1int } else { 0int },
    {
        if self.active > 0 {
            self.active = self.active - 1;
            true
        } else {
            false
        }
    }

    pub fn active(&self) -> (r: usize)
        ensures
            r == self.active_view(),
    {
        self.active
    }
}

/// Admits at most `num` requests in each window of `window_ms` milliseconds.
/// A window opens with the first request after the previous one ended.
pub struct RateLimiter {
    num: u64,
    window_ms: u64,
    window_start: u64,
    used: u64,
}

/// Whether the window of `l` has run out at `now`.
pub open spec fn rate_expired(l: RateLimiter, now: u64) -> bool {
    now >= l.window_start_view() + l.window_ms_view()
}

/// Requests already admitted in the window that applies at `now`.
pub open spec fn rate_used(l: RateLimiter, now: u64) -> int {
    if rate_expired(l, now) {
        0
    } else {
        l.used_view() as int
    }
}

/// Whether `l` admits a request at `now`.
pub open spec fn rate_admits(l: RateLimiter, now: u64) -> bool {
    rate_used(l, now) < l.num_view()
}

/// How one request at `now` changes the limiter.
pub open spec fn rate_step(before: RateLimiter, after: RateLimiter, now: u64, admitted: bool) -> bool {
    &&& after.num_view() == before.num_view()
    &&& after.window_ms_view() == before.window_ms_view()
    &&& after.window_start_view() == if rate_expired(before, now) {
        now
    } else {
        before.window_start_view()
    }
    &&& admitted == rate_admits(before, now)
    &&& after.used_view() == rate_used(before, now) + if admitted { 1int } else { 0int }
}

impl RateLimiter {
    pub closed spec fn num_view(&self) -> u64 {
        self.num
    }

    pub closed spec fn window_ms_view(&self) -> u64 {
        self.window_ms
    }

    pub closed spec fn window_start_view(&self) -> u64 {
        self.window_start
    }

    /// Requests admitted in the current window.
    pub closed spec fn used_view(&self) -> u64 {
        self.used
    }

    pub open spec fn wf(&self) -> bool {
        self.used_view() <= self.num_view()
    }

    pub fn new(num: u64, window_ms: u64) -> (l: Self)
        ensures
            l.wf(),
            l.num_view() == num,
            l.window_ms_view() == window_ms,
            l.used_view() == 0,
            l.window_start_view() == 0,
    {
        RateLimiter { num, window_ms, window_start: 0, used: 0 }
    }

    /// Whether a request at time `now` may go. A window that has run out is
    /// replaced by a fresh one starting at `now`.
    pub fn try_acquire(&mut self, now: u64) -> (admitted: bool)
        requires
            old(self).wf(),
        ensures
            final(self).wf(),
            final(self).num_view() == old(self).num_view(),
            final(self).window_ms_view() == old(self).window_ms_view(),
            rate_step(*old(self), *final(self), now, admitted),
    {
        if now >= self.window_start && now - self.window_start >= self.window_ms {
            self.window_start = now;
            self.used = 0;
        }
        if self.used < self.num {
            self.used = self.used + 1;
            true
        } else {
            false
        }
    }
}

pub open spec fn pow2(n: nat) -> nat
    decreases n,
{
    if n == 0 {
        1
    } else {
        2 * pow2((n - 1) as nat)
    }
}

/// Delay before retry number `retry` (from zero): `initial_ms` doubled at each
/// retry, never above `max_ms`.
pub open spec fn backoff_spec(initial_ms: nat, retry: nat, max_ms: nat) -> nat {
    if initial_ms * pow2(retry) < max_ms {
        initial_ms * pow2(retry)
    } else {
        max_ms
    }
}

proof fn lemma_pow2_monotone(a: nat, b: nat)
    requires
        a <= b,
    ensures
        pow2(a) <= pow2(b),
    decreases b,
{
    if a < b {
        lemma_pow2_monotone(a, (b - 1) as nat);
    }
}

proof fn lemma_backoff_capped(initial_ms: nat, a: nat, b: nat, max_ms: nat)
    requires
        a <= b,
        initial_ms * pow2(a) >= max_ms,
    ensures
        backoff_spec(initial_ms, b, max_ms) == max_ms,
{
    lemma_pow2_monotone(a, b);
    let pa = pow2(a);
    let pb = pow2(b);
    assert(initial_ms * pa <= initial_ms * pb) by (nonlinear_arith)
        requires
            pa <= pb,
    ;
}

/// Exponential backoff before retry number `retry`, capped at `max_ms`.
pub fn backoff_ms(initial_ms: u64, retry: u64, max_ms: u64) -> (d: u64)
    ensures
        d == backoff_spec(initial_ms as nat, retry as nat, max_ms as nat),
{
    proof {
        assert(pow2(0) == 1);
        assert(initial_ms * pow2(0) == initial_ms);
    }
    if initial_ms >= max_ms {
        proof {
            lemma_backoff_capped(initial_ms as nat, 0, retry as nat, max_ms as nat);
        }
        return max_ms;
    }
    let mut d: u64 = initial_ms;
    let mut i: u64 = 0;
    while i < retry
        invariant
            i <= retry,
            d == initial_ms * pow2(i as nat),
            d < max_ms,
        decreases retry - i,
    {
        if d >= max_ms - d {
            proof {
                assert(pow2((i + 1) as nat) == 2 * pow2(i as nat));
                assert(initial_ms * pow2((i + 1) as nat) == 2 * (initial_ms * pow2(i as nat))) by (nonlinear_arith);
                lemma_backoff_capped(initial_ms as nat, (i + 1) as nat, retry as nat, max_ms as nat);
            }
            return max_ms;
        }
        proof {
            assert(pow2((i + 1) as nat) == 2 * pow2(i as nat));
            assert(initial_ms * pow2((i + 1) as nat) == 2 * (initial_ms * pow2(i as nat))) by (nonlinear_arith);
        }
        d = d * 2;
        i = i + 1;
    }
    d
}

/// Takes a random share of up to half of `delay_ms` off it, so that retries
/// from many senders spread out: the result lies between half the delay and
/// the delay.
pub fn jittered_ms(delay_ms: u64, random: u64) -> (d: u64)
    ensures
        d as int == delay_ms as int - (random as int) % (delay_ms as int / 2 + 1),
        delay_ms / 2 <= d <= delay_ms,
{
    delay_ms - random % (delay_ms / 2 + 1)
}

} // verus!
