use kinesis_streams::classify::{
    classify, outcome_from_reply, record_outcome_of, verdict_at, CallFailure, KinesisRetryLogic, DispatchOutcome, FailureReason,
    RecordError, RecordOutcome, ServiceErrorKind, Verdict,
};
use kinesis_streams::delivery::{BatchDelivery, RecordState};

fn partial(flags: &[Option<RecordError>]) -> DispatchOutcome {
    DispatchOutcome::Partial(
        flags
            .iter()
            .map(|f| match f {
                None => RecordOutcome::Delivered,
                Some(e) => RecordOutcome::Failed(*e),
            })
            .collect(),
    )
}

#[test]
fn partial_success_splits_retry_and_terminal() {
    let outcome = partial(&[
        None,
        None,
        Some(RecordError::ThroughputExceeded),
        Some(RecordError::Rejected),
        None,
        Some(RecordError::InternalFailure),
        None,
    ]);
    let d = classify(&outcome, 7);
    assert_eq!(d.retry, vec![2, 5]);
    assert_eq!(d.terminal, vec![(3, FailureReason::Record(RecordError::Rejected))]);
}

#[test]
fn throughput_exceeded_is_retriable() {
    let throttled = CallFailure::Service {
        kind: ServiceErrorKind::ProvisionedThroughputExceeded,
        status: 400,
    };
    assert!(KinesisRetryLogic.is_retriable_error(&throttled));
    let other = CallFailure::Service { kind: ServiceErrorKind::Other, status: 400 };
    assert!(!KinesisRetryLogic.is_retriable_error(&other));
    let d = classify(&DispatchOutcome::FullFailure(throttled), 3);
    assert_eq!(d.retry, vec![0, 1, 2]);
    assert!(d.terminal.is_empty());
}

#[test]
fn generic_errors_by_status() {
    assert!(KinesisRetryLogic.is_retriable_error(&CallFailure::Timeout));
    assert!(KinesisRetryLogic.is_retriable_error(&CallFailure::Dispatch));
    assert!(!KinesisRetryLogic.is_retriable_error(&CallFailure::Construction));
    assert!(KinesisRetryLogic.is_retriable_error(&CallFailure::Response { status: 503 }));
    assert!(KinesisRetryLogic.is_retriable_error(&CallFailure::Response { status: 429 }));
    assert!(!KinesisRetryLogic.is_retriable_error(&CallFailure::Response { status: 404 }));
    let forbidden = CallFailure::Service { kind: ServiceErrorKind::Other, status: 403 };
    let d = classify(&DispatchOutcome::FullFailure(forbidden), 2);
    assert!(d.retry.is_empty());
    assert_eq!(
        d.terminal,
        vec![(0, FailureReason::Call(forbidden)), (1, FailureReason::Call(forbidden))]
    );
}

#[test]
fn full_success_and_missing_entries() {
    let d = classify(&DispatchOutcome::FullSuccess, 4);
    assert!(d.retry.is_empty() && d.terminal.is_empty());
    let short = partial(&[None]);
    assert_eq!(verdict_at(&short, 0), Verdict::Delivered);
    assert_eq!(verdict_at(&short, 1), Verdict::Retry);
}

#[test]
fn retries_resend_only_failing_records_in_order() {
    let mut d = BatchDelivery::new(4, 5);
    assert_eq!(*d.in_flight(), vec![0, 1, 2, 3]);
    d.record_attempt(&partial(&[
        Some(RecordError::InternalFailure),
        None,
        Some(RecordError::Rejected),
        Some(RecordError::ThroughputExceeded),
    ]));
    assert_eq!(*d.in_flight(), vec![0, 3]);
    assert_eq!(d.retries(), 1);
    assert_eq!(d.record_state(1), RecordState::Delivered);
    assert_eq!(d.record_state(2), RecordState::Failed(FailureReason::Record(RecordError::Rejected)));
    d.record_attempt(&DispatchOutcome::FullSuccess);
    assert!(d.is_done());
    assert_eq!(d.record_state(0), RecordState::Delivered);
    assert_eq!(d.record_state(3), RecordState::Delivered);
}

#[test]
fn exhausted_retries_fail_only_still_failing_records() {
    let mut d = BatchDelivery::new(4, 2);
    let attempts = [
        partial(&[None, Some(RecordError::InternalFailure), Some(RecordError::InternalFailure), None]),
        partial(&[Some(RecordError::InternalFailure), None]),
        partial(&[Some(RecordError::ThroughputExceeded)]),
    ];
    for outcome in attempts.iter() {
        assert!(!d.is_done());
        d.record_attempt(outcome);
    }
    assert!(d.is_done());
    assert_eq!(d.retries(), 2);
    assert_eq!(d.record_state(0), RecordState::Delivered);
    assert_eq!(d.record_state(2), RecordState::Delivered);
    assert_eq!(d.record_state(3), RecordState::Delivered);
    assert_eq!(d.record_state(1), RecordState::Failed(FailureReason::RetriesExhausted));
}

#[test]
fn zero_retries_fail_at_once() {
    let mut d = BatchDelivery::new(2, 0);
    d.record_attempt(&DispatchOutcome::FullFailure(CallFailure::Timeout));
    assert!(d.is_done());
    assert_eq!(d.record_state(0), RecordState::Failed(FailureReason::RetriesExhausted));
    assert_eq!(d.record_state(1), RecordState::Failed(FailureReason::RetriesExhausted));
}

#[test]
fn record_codes_are_read() {
    assert_eq!(record_outcome_of(&None), RecordOutcome::Delivered);
    assert_eq!(
        record_outcome_of(&Some("ProvisionedThroughputExceededException".to_string())),
        RecordOutcome::Failed(RecordError::ThroughputExceeded)
    );
    assert_eq!(
        record_outcome_of(&Some("InternalFailure".to_string())),
        RecordOutcome::Failed(RecordError::InternalFailure)
    );
    assert_eq!(
        record_outcome_of(&Some("KMSAccessDeniedException".to_string())),
        RecordOutcome::Failed(RecordError::Rejected)
    );
}

#[test]
fn reply_becomes_outcome() {
    let codes = vec![None, Some("InternalFailure".to_string()), Some("Other".to_string())];
    assert!(matches!(outcome_from_reply(Some(0), &codes), DispatchOutcome::FullSuccess));
    assert!(matches!(outcome_from_reply(None, &codes), DispatchOutcome::FullSuccess));
    match outcome_from_reply(Some(2), &codes) {
        DispatchOutcome::Partial(v) => assert_eq!(
            v,
            vec![
                RecordOutcome::Delivered,
                RecordOutcome::Failed(RecordError::InternalFailure),
                RecordOutcome::Failed(RecordError::Rejected)
            ]
        ),
        other => panic!("expected a partial outcome, got {:?}", other),
    }
}
