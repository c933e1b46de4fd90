use kinesis_streams::batch::{
    partition_key_for, Admission, BatchSettings, Batcher, EncodeError, EncodedRecord,
};
use kinesis_streams::delivery::sub_batch;

fn rec(payload_len: usize, key: &str) -> EncodedRecord {
    EncodedRecord { payload: vec![7u8; payload_len], partition_key: key.to_string() }
}

fn settings(max_events: usize, max_bytes: usize, timeout_ms: u64) -> BatchSettings {
    BatchSettings { max_events, max_bytes, timeout_ms }
}

#[test]
fn batch_closes_at_max_events() {
    let mut b = Batcher::new(settings(3, 1000, 1000));
    assert!(matches!(b.push(rec(1, "a"), 0), Admission::Held));
    assert!(matches!(b.push(rec(2, "b"), 1), Admission::Held));
    match b.push(rec(3, "c"), 2) {
        Admission::Closed(batch) => {
            assert_eq!(batch, vec![rec(1, "a"), rec(2, "b"), rec(3, "c")]);
        }
        other => panic!("expected a closed batch, got {:?}", other),
    }
    assert_eq!(b.flush(), None);
}

#[test]
fn batch_closes_before_exceeding_max_bytes() {
    let mut b = Batcher::new(settings(10, 10, 1000));
    assert!(matches!(b.push(rec(4, "a"), 0), Admission::Held));
    assert!(matches!(b.push(rec(3, "b"), 0), Admission::Held));
    match b.push(rec(2, "c"), 5) {
        Admission::Closed(batch) => assert_eq!(batch, vec![rec(4, "a"), rec(3, "b")]),
        other => panic!("expected a closed batch, got {:?}", other),
    }
    assert_eq!(b.deadline(), Some(1005));
    assert_eq!(b.flush(), Some(vec![rec(2, "c")]));
}

#[test]
fn oversized_record_is_handed_back() {
    let mut b = Batcher::new(settings(10, 10, 1000));
    match b.push(rec(10, "k"), 0) {
        Admission::Oversized(r) => assert_eq!(r, rec(10, "k")),
        other => panic!("expected the record back, got {:?}", other),
    }
    assert_eq!(b.flush(), None);
}

#[test]
fn no_batch_exceeds_bounds() {
    let mut b = Batcher::new(settings(4, 50, 100));
    let mut out: Vec<Vec<EncodedRecord>> = Vec::new();
    for i in 0..200usize {
        match b.push(rec(i % 23, "key"), i as u64) {
            Admission::Closed(batch) => out.push(batch),
            _ => {}
        }
        if let Some(batch) = b.poll(i as u64) {
            out.push(batch);
        }
    }
    if let Some(batch) = b.flush() {
        out.push(batch);
    }
    assert!(!out.is_empty());
    for batch in out.iter() {
        assert!(!batch.is_empty() && batch.len() <= 4);
        let size: usize = batch.iter().map(|r| r.payload.len() + r.partition_key.len()).sum();
        assert!(size <= 50);
    }
}

#[test]
fn linger_closes_batch() {
    let mut b = Batcher::new(settings(500, 5_000_000, 1000));
    assert!(matches!(b.push(rec(5, "a"), 100), Admission::Held));
    assert!(matches!(b.push(rec(5, "b"), 600), Admission::Held));
    assert_eq!(b.deadline(), Some(1100));
    assert_eq!(b.poll(1099), None);
    assert_eq!(b.poll(1100), Some(vec![rec(5, "a"), rec(5, "b")]));
    assert_eq!(b.poll(5000), None);
    assert_eq!(b.deadline(), None);
}

#[test]
fn record_size_limit() {
    let ok = EncodedRecord::new(vec![0u8; 1_048_575], "k".to_string());
    let expected = EncodedRecord { payload: vec![0u8; 1_048_575], partition_key: "k".to_string() };
    assert_eq!(ok, Ok(expected));
    let too_big = EncodedRecord::new(vec![0u8; 1_048_575], "kk".to_string());
    assert_eq!(too_big, Err(EncodeError::RecordTooLarge));
}

#[test]
fn partition_key_choice() {
    let random = "r4nd0m".to_string();
    assert_eq!(partition_key_for(Some("user-7".to_string()), random.clone()), "user-7");
    assert_eq!(partition_key_for(Some(String::new()), random.clone()), "");
    assert_eq!(partition_key_for(None, random), "r4nd0m");
}

#[test]
fn sub_batch_keeps_order() {
    let batch = vec![rec(1, "a"), rec(2, "b"), rec(3, "c"), rec(4, "d")];
    assert_eq!(sub_batch(&batch, &vec![1, 3]), vec![rec(2, "b"), rec(4, "d")]);
    assert_eq!(rec(3, "c").copy(), rec(3, "c"));
}

#[test]
fn partition_key_counts_utf8_bytes() {
    let key = "\u{e9}\u{e9}".to_string();
    assert_eq!(EncodedRecord { payload: vec![1u8; 3], partition_key: key.clone() }.size(), 7);
    let too_big = EncodedRecord::new(vec![0u8; 1_048_573], key.clone());
    assert_eq!(too_big, Err(EncodeError::RecordTooLarge));
    let mut b = Batcher::new(settings(10, 8, 1000));
    assert!(matches!(b.push(rec(2, "ab"), 0), Admission::Held));
    match b.push(EncodedRecord { payload: vec![1u8; 1], partition_key: key }, 0) {
        Admission::Closed(batch) => assert_eq!(batch, vec![rec(2, "ab")]),
        other => panic!("expected a closed batch, got {:?}", other),
    }
}
