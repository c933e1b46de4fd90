//! Classification of the outcome of one `PutRecords` call.
use vstd::prelude::*;
use vstd::string::StringExecFns;

verus! {

/// What kind of service error a whole call failed with.
#[derive(Clone, Copy, Debug, PartialEq, Eq, Structural)]
pub enum ServiceErrorKind {
    /// The stream is over its provisioned throughput.
    ProvisionedThroughputExceeded,
    /// Any other service error code.
    Other,
}

/// Why a whole call failed.
#[derive(Clone, Copy, Debug, PartialEq, Eq, Structural)]
pub enum CallFailure {
    /// The request could not be built.
    Construction,
    /// The call timed out.
    Timeout,
    /// The request could not be dispatched (connection or I/O failure).
    Dispatch,
    /// A response arrived that could not be read; carries its HTTP status.
    Response { status: u16 },
    /// The service answered with an error; carries its kind and HTTP status.
    Service { kind: ServiceErrorKind, status: u16 },
}

/// Per-record error code reported in a partially successful call.
#[derive(Clone, Copy, Debug, PartialEq, Eq, Structural)]
pub enum RecordError {
    /// `ProvisionedThroughputExceededException` for this record.
    ThroughputExceeded,
    /// `InternalFailure` for this record.
    InternalFailure,
    /// Any other code: the record is rejected for good.
    Rejected,
}

/// Result for one record of a partially successful call.
#[derive(Clone, Copy, Debug, PartialEq, Eq, Structural)]
pub enum RecordOutcome {
    Delivered,
    Failed(RecordError),
}

/// Per-record error code for a record over the shard's throughput.
pub const THROUGHPUT_EXCEEDED_CODE: &'static str = "ProvisionedThroughputExceededException";

/// Per-record error code for a failure inside the service.
pub const INTERNAL_FAILURE_CODE: &'static str = "InternalFailure";

/// The outcome of one record from the error code the service reported for
/// it, if any.
pub open spec fn record_outcome_spec(code: Option<String>) -> RecordOutcome {
    match code {
        None => RecordOutcome::Delivered,
        Some(c) => if c@ == THROUGHPUT_EXCEEDED_CODE@ {
            RecordOutcome::Failed(RecordError::ThroughputExceeded)
        } else if c@ == INTERNAL_FAILURE_CODE@ {
            RecordOutcome::Failed(RecordError::InternalFailure)
        } else {
            RecordOutcome::Failed(RecordError::Rejected)
        },
    }
}

/// Reads the error code of one record of a put-records reply.
pub fn record_outcome_of(code: &Option<String>) -> (r: RecordOutcome)
    ensures
        r == record_outcome_spec(*code),
{
    match code {
        None => RecordOutcome::Delivered,
        Some(c) => {
            let throughput = String::from_str(THROUGHPUT_EXCEEDED_CODE);
            let internal = String::from_str(INTERNAL_FAILURE_CODE);
            if *c == throughput {
                RecordOutcome::Failed(RecordError::ThroughputExceeded)
            } else if *c == internal {
                RecordOutcome::Failed(RecordError::InternalFailure)
            } else {
                RecordOutcome::Failed(RecordError::Rejected)
            }
        },
    }
}

/// Result of one remote call on a batch.
#[derive(Debug)]
pub enum DispatchOutcome {
    FullSuccess,
    FullFailure(CallFailure),
    /// Per-record results, aligned by index with the records sent.
    Partial(Vec<RecordOutcome>),
}

/// The outcome of a put-records reply from its count of failed records and
/// the error code of each record, in the order sent: full success when none
/// failed, else each record's outcome from its code.
pub fn outcome_from_reply(failed_record_count: Option<i32>, codes: &Vec<Option<String>>) -> (r: DispatchOutcome)
    ensures
        (failed_record_count is None || failed_record_count == Some(0i32)) ==> r is FullSuccess,
        !(failed_record_count is None || failed_record_count == Some(0i32)) ==> (r matches DispatchOutcome::Partial(v)
            && v@.len() == codes@.len() && forall|k: int|
            0 <= k < codes@.len() ==> #[trigger] v@[k] == record_outcome_spec(codes@[k])),
{
    match failed_record_count {
        None => {
            return DispatchOutcome::FullSuccess;
        },
        Some(n) => if n == 0 {
            return DispatchOutcome::FullSuccess;
        },
    }
    let mut v: Vec<RecordOutcome> = Vec::new();
    let mut k: usize = 0;
    while k < codes.len()
        invariant
            k <= codes@.len(),
            v@.len() == k,
            forall|q: int| 0 <= q < k ==> #[trigger] v@[q] == record_outcome_spec(codes@[q]),
        decreases codes@.len() - k,
    {
        v.push(record_outcome_of(&codes[k]));
        k = k + 1;
    }
    DispatchOutcome::Partial(v)
}

/// Why a record was given up.
#[derive(Clone, Copy, Debug, PartialEq, Eq, Structural)]
pub enum FailureReason {
    Call(CallFailure),
    Record(RecordError),
    RetriesExhausted,
}

/// What becomes of one record after a call.
#[derive(Clone, Copy, Debug, PartialEq, Eq, Structural)]
pub enum Verdict {
    Delivered,
    Retry,
    Terminal(FailureReason),
}

/// Statuses on which a generic error is worth retrying: throttling (429) and
/// server errors (5xx).
pub open spec fn status_is_transient(status: u16) -> bool {
    status == 429 || (500 <= status && status < 600)
}

/// Whether a failed call may be retried. Throughput exceeded comes first and
/// is retriable whatever its status says.
pub open spec fn call_retriable(f: CallFailure) -> bool {
    match f {
        CallFailure::Construction => false,
        CallFailure::Timeout => true,
        CallFailure::Dispatch => true,
        CallFailure::Response { status } => status_is_transient(status),
        CallFailure::Service { kind, status } => kind == ServiceErrorKind::ProvisionedThroughputExceeded
            || status_is_transient(status),
    }
}

pub open spec fn record_error_transient(e: RecordError) -> bool {
    e == RecordError::ThroughputExceeded || e == RecordError::InternalFailure
}

/// The verdict for the record at position `k` of the batch that was sent.
/// A partial result that has no entry for `k` leaves the record to be retried,
/// so that nothing is lost.
pub open spec fn verdict_of(outcome: DispatchOutcome, k: int) -> Verdict {
    match outcome {
        DispatchOutcome::FullSuccess => Verdict::Delivered,
        DispatchOutcome::FullFailure(f) => if call_retriable(f) {
            Verdict::Retry
        } else {
            Verdict::Terminal(FailureReason::Call(f))
        },
        DispatchOutcome::Partial(v) => if 0 <= k < v@.len() {
            match v@[k] {
                RecordOutcome::Delivered => Verdict::Delivered,
                RecordOutcome::Failed(e) => if record_error_transient(e) {
                    Verdict::Retry
                } else {
                    Verdict::Terminal(FailureReason::Record(e))
                },
            }
        } else {
            Verdict::Retry
        },
    }
}

pub open spec fn strictly_increasing(s: Seq<usize>) -> bool {
    forall|a: int, b: int| 0 <= a < b < s.len() ==> s[a] < s[b]
}

pub open spec fn firsts(s: Seq<(usize, FailureReason)>) -> Seq<usize> {
    s.map_values(|p: (usize, FailureReason)| p.0)
}

/// The retry policy of the sink's put-records calls.
#[derive(Clone, Copy, Debug, Default)]
pub struct KinesisRetryLogic;

impl KinesisRetryLogic {
    /// Whether a whole-call failure may be retried.
    pub fn is_retriable_error(&self, f: &CallFailure) -> (r: bool)
        ensures
            r == call_retriable(*f),
    {
        match f {
            CallFailure::Construction => false,
            CallFailure::Timeout => true,
            CallFailure::Dispatch => true,
            CallFailure::Response { status } => *status == 429 || (500 <= *status && *status < 600),
            CallFailure::Service { kind, status } => {
                match kind {
                    ServiceErrorKind::ProvisionedThroughputExceeded => true,
                    ServiceErrorKind::Other => *status == 429 || (500 <= *status && *status < 600),
                }
            },
        }
    }
}

/// The verdict for the record at position `k` of the batch that was sent.
pub fn verdict_at(outcome: &DispatchOutcome, k: usize) -> (r: Verdict)
    ensures
        r == verdict_of(*outcome, k as int),
{
    match outcome {
        DispatchOutcome::FullSuccess => Verdict::Delivered,
        DispatchOutcome::FullFailure(f) => if KinesisRetryLogic.is_retriable_error(f) {
            Verdict::Retry
        } else {
            Verdict::Terminal(FailureReason::Call(*f))
        },
        DispatchOutcome::Partial(v) => if k < v.len() {
            match v[k] {
                RecordOutcome::Delivered => Verdict::Delivered,
                RecordOutcome::Failed(e) => match e {
                    RecordError::ThroughputExceeded => Verdict::Retry,
                    RecordError::InternalFailure => Verdict::Retry,
                    RecordError::Rejected => Verdict::Terminal(FailureReason::Record(e)),
                },
            }
        } else {
            Verdict::Retry
        },
    }
}

/// Which records of a batch are to be retried and which are given up; every
/// other record was delivered.
#[derive(Debug)]
pub struct RetryDecision {
    pub retry: Vec<usize>,
    pub terminal: Vec<(usize, FailureReason)>,
}

/// Splits a batch of `n` records by the outcome of its call. Each index below
/// `n` lands in exactly one of: `retry`, `terminal`, or neither (delivered).
/// Both lists are in increasing order of index.
pub fn classify(outcome: &DispatchOutcome, n: usize) -> (d: RetryDecision)
    ensures
        strictly_increasing(d.retry@),
        strictly_increasing(firsts(d.terminal@)),
        forall|k: int| 0 <= k < d.retry@.len() ==> d.retry@[k] < n,
        forall|k: int| 0 <= k < d.terminal@.len() ==> d.terminal@[k].0 < n,
        forall|i: usize| i < n ==> (d.retry@.contains(i) <==> verdict_of(*outcome, i as int) is Retry),
        forall|i: usize| i < n ==> (firsts(d.terminal@).contains(i) <==> verdict_of(*outcome, i as int) is Terminal),
        forall|k: int| 0 <= k < d.terminal@.len() ==>
            verdict_of(*outcome, d.terminal@[k].0 as int) == Verdict::Terminal(d.terminal@[k].1),
{
    let mut retry: Vec<usize> = Vec::new();
    let mut terminal: Vec<(usize, FailureReason)> = Vec::new();
    let mut i: usize = 0;
    while i < n
        invariant
            i <= n,
            strictly_increasing(retry@),
            strictly_increasing(firsts(terminal@)),
            forall|k: int| 0 <= k < retry@.len() ==> retry@[k] < i,
            forall|k: int| 0 <= k < terminal@.len() ==> terminal@[k].0 < i,
            forall|j: usize| j < i ==> (retry@.contains(j) <==> verdict_of(*outcome, j as int) is Retry),
            forall|j: usize| j < i ==> (firsts(terminal@).contains(j) <==> verdict_of(*outcome, j as int) is Terminal),
            forall|k: int| 0 <= k < terminal@.len() ==>
                verdict_of(*outcome, terminal@[k].0 as int) == Verdict::Terminal(terminal@[k].1),
        decreases n - i,
    {
        let v = verdict_at(outcome, i);
        let ghost old_retry = retry@;
        let ghost old_terminal = terminal@;
        match v {
            Verdict::Delivered => {},
            Verdict::Retry => {
                retry.push(i);
                assert(retry@ == old_retry.push(i));
                assert(retry@[old_retry.len() as int] == i);
            },
            Verdict::Terminal(r) => {
                terminal.push((i, r));
                assert(firsts(terminal@) == firsts(old_terminal).push(i));
                assert(firsts(terminal@)[old_terminal.len() as int] == i);
            },
        }
        proof {
            assert forall|j: usize| j < i + 1 implies (retry@.contains(j) <==> verdict_of(*outcome, j as int) is Retry) by {
                if retry@.contains(j) {
                    let k = choose|k: int| 0 <= k < retry@.len() && retry@[k] == j;
                    if k < old_retry.len() {
                        assert(old_retry[k] == j);
                    }
                }
                if j < i && old_retry.contains(j) {
                    let k = choose|k: int| 0 <= k < old_retry.len() && old_retry[k] == j;
                    assert(retry@[k] == j);
                }
            }
            assert forall|j: usize| j < i + 1 implies (firsts(terminal@).contains(j) <==> verdict_of(*outcome, j as int) is Terminal) by {
                let ft = firsts(terminal@);
                let fo = firsts(old_terminal);
                if ft.contains(j) {
                    let k = choose|k: int| 0 <= k < ft.len() && ft[k] == j;
                    if k < fo.len() {
                        assert(fo[k] == j);
                    }
                }
                if j < i && fo.contains(j) {
                    let k = choose|k: int| 0 <= k < fo.len() && fo[k] == j;
                    assert(ft[k] == j);
                }
            }
        }
        i = i + 1;
    }
    RetryDecision { retry, terminal }
}

} // verus!
