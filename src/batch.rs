//! Encoded records and the batcher that groups them under count, size and
//! linger bounds.
use vstd::prelude::*;
use vstd::utf8::encode_utf8;

verus! {

/// Largest record the service takes: data and partition key together.
pub const MAX_RECORD_BYTES: usize = 1048576;

/// One record ready to be sent: its serialized payload and its partition key.
#[derive(Clone, Debug, PartialEq, Eq)]
pub struct EncodedRecord {
    pub payload: Vec<u8>,
    pub partition_key: String,
}

/// Bytes of a partition key in UTF-8.
pub open spec fn key_bytes(k: String) -> nat {
    encode_utf8(k@).len()
}

/// Size of a record as counted against the batch and record bounds: payload
/// bytes plus the UTF-8 bytes of the partition key.
pub open spec fn record_size(r: EncodedRecord) -> nat {
    r.payload@.len() + key_bytes(r.partition_key)
}

/// UTF-8 length of a key.
fn key_len(k: &String) -> (n: usize)
    ensures
        n == key_bytes(*k),
{
    k.as_str().as_bytes().len()
}

/// Total size of a sequence of records.
pub open spec fn total_size(s: Seq<EncodedRecord>) -> nat
    decreases s.len(),
{
    if s.len() == 0 {
        0
    } else {
        total_size(s.drop_last()) + record_size(s.last())
    }
}

proof fn lemma_total_size_push(s: Seq<EncodedRecord>, r: EncodedRecord)
    ensures
        total_size(s.push(r)) == total_size(s) + record_size(r),
{
    assert(s.push(r).drop_last() == s);
}

/// Two records hold the same payload and partition key.
pub open spec fn same_record(a: EncodedRecord, b: EncodedRecord) -> bool {
    a.payload@ == b.payload@ && a.partition_key@ == b.partition_key@
}

/// Why a record could not be made.
#[derive(Clone, Copy, Debug, PartialEq, Eq, Structural)]
pub enum EncodeError {
    /// Payload and key together exceed the service's record limit.
    RecordTooLarge,
}

impl EncodedRecord {
    /// Makes a record, refusing one larger than the service takes.
    pub fn new(payload: Vec<u8>, partition_key: String) -> (r: Result<EncodedRecord, EncodeError>)
        ensures
            payload@.len() + key_bytes(partition_key) <= MAX_RECORD_BYTES ==> r == Ok::<EncodedRecord, EncodeError>(
                EncodedRecord { payload, partition_key },
            ),
            payload@.len() + key_bytes(partition_key) > MAX_RECORD_BYTES ==> r == Err::<EncodedRecord, EncodeError>(
                EncodeError::RecordTooLarge,
            ),
    {
        let klen = key_len(&partition_key);
        if payload.len() > MAX_RECORD_BYTES || klen > MAX_RECORD_BYTES - payload.len() {
            Err(EncodeError::RecordTooLarge)
        } else {
            Ok(EncodedRecord { payload, partition_key })
        }
    }

    /// A copy of this record.
    pub fn copy(&self) -> (c: EncodedRecord)
        ensures
            same_record(c, *self),
    {
        let payload = self.payload.clone();
        assert(payload@ =~= self.payload@);
        EncodedRecord { payload, partition_key: self.partition_key.clone() }
    }

    /// Size of this record as counted against the bounds.
    pub fn size(&self) -> (n: usize)
        requires
            record_size(*self) <= usize::MAX,
        ensures
            n == record_size(*self),
    {
        self.payload.len() + key_len(&self.partition_key)
    }
}

/// The partition key of a record: the event's value of the configured field
/// where it has one as a scalar (`Some`), else the freshly drawn random key.
pub fn partition_key_for(field_value: Option<String>, random_key: String) -> (k: String)
    ensures
        k == match field_value {
            Some(v) => v,
            None => random_key,
        },
{
    match field_value {
        Some(v) => v,
        None => random_key,
    }
}

/// Bounds of a batch: records, total size, and milliseconds from the first
/// record until the batch is sent anyway.
#[derive(Clone, Copy, Debug, PartialEq, Eq, Structural)]
pub struct BatchSettings {
    pub max_events: usize,
    pub max_bytes: usize,
    pub timeout_ms: u64,
}

/// Whether a batch keeps within the bounds.
pub open spec fn within_bounds(settings: BatchSettings, b: Seq<EncodedRecord>) -> bool {
    b.len() <= settings.max_events && total_size(b) <= settings.max_bytes
}

/// What became of a record handed to the batcher.
#[derive(Debug)]
pub enum Admission {
    /// The record joined the open batch, which stays open.
    Held,
    /// A batch was closed and is handed out; the record is in it, or opens
    /// the next batch.
    Closed(Vec<EncodedRecord>),
    /// The record alone exceeds the byte bound; it is handed back.
    Oversized(EncodedRecord),
}

/// Groups records into batches, in the order they arrive.
pub struct Batcher {
    settings: BatchSettings,
    records: Vec<EncodedRecord>,
    bytes: usize,
    opened_at: u64,
}

impl Batcher {
    pub closed spec fn settings_view(&self) -> BatchSettings {
        self.settings
    }

    /// The records of the open batch.
    pub closed spec fn records_view(&self) -> Seq<EncodedRecord> {
        self.records@
    }

    /// When the first record of the open batch arrived.
    pub closed spec fn opened_at_view(&self) -> u64 {
        self.opened_at
    }

    pub closed spec fn wf(&self) -> bool {
        &&& self.settings.max_events > 0
        &&& self.records@.len() < self.settings.max_events
        &&& self.bytes == total_size(self.records@)
        &&& self.bytes <= self.settings.max_bytes
    }

    /// An empty batcher; `max_events` must be at least one.
    pub fn new(settings: BatchSettings) -> (b: Self)
        requires
            settings.max_events > 0,
        ensures
            b.wf(),
            b.settings_view() == settings,
            b.records_view() == Seq::<EncodedRecord>::empty(),
    {
        Batcher { settings, records: Vec::new(), bytes: 0, opened_at: 0 }
    }

    /// Adds a record that arrived at time `now` (milliseconds). A record
    /// larger than `max_bytes` is handed back. One that does not fit beside the
    /// open batch's bytes closes that batch and opens the next. One that
    /// brings the open batch to `max_events` closes it with itself inside.
    /// Every batch handed out keeps within the bounds.
    pub fn push(&mut self, record: EncodedRecord, now: u64) -> (a: Admission)
        requires
            old(self).wf(),
        ensures
            final(self).wf(),
            final(self).settings_view() == old(self).settings_view(),
            a matches Admission::Closed(b) ==> within_bounds(old(self).settings_view(), b@) && b@.len() > 0,
            record_size(record) > old(self).settings_view().max_bytes ==> a == Admission::Oversized(record)
                && final(self).records_view() == old(self).records_view()
                && final(self).opened_at_view() == old(self).opened_at_view(),
            record_size(record) <= old(self).settings_view().max_bytes && total_size(old(self).records_view())
                + record_size(record) > old(self).settings_view().max_bytes ==> (a matches Admission::Closed(b)
                && b@ == old(self).records_view()) && final(self).records_view() == seq![record]
                && final(self).opened_at_view() == now,
            total_size(old(self).records_view()) + record_size(record) <= old(self).settings_view().max_bytes
                ==> if old(self).records_view().len() + 1 == old(self).settings_view().max_events {
                (a matches Admission::Closed(b) && b@ == old(self).records_view().push(record))
                    && final(self).records_view() == Seq::<EncodedRecord>::empty()
            } else {
                a == Admission::Held && final(self).records_view() == old(self).records_view().push(record)
                    && final(self).opened_at_view() == if old(self).records_view().len() == 0 {
                    now
                } else {
                    old(self).opened_at_view()
                }
            },
    {
        let max_bytes = self.settings.max_bytes;
        if record.payload.len() > max_bytes || key_len(&record.partition_key) > max_bytes
            - record.payload.len() {
            return Admission::Oversized(record);
        }
        let size = record.size();
        let ghost old_records = self.records@;
        if size > max_bytes - self.bytes {
            let mut closed: Vec<EncodedRecord> = Vec::new();
            std::mem::swap(&mut closed, &mut self.records);
            proof {
                lemma_total_size_push(Seq::<EncodedRecord>::empty(), record);
                assert(Seq::<EncodedRecord>::empty().push(record) == seq![record]);
            }
            self.records.push(record);
            self.bytes = size;
            self.opened_at = now;
            Admission::Closed(closed)
        } else {
            proof {
                lemma_total_size_push(old_records, record);
            }
            if self.records.len() == 0 {
                self.opened_at = now;
            }
            self.records.push(record);
            self.bytes = self.bytes + size;
            if self.records.len() == self.settings.max_events {
                let mut closed: Vec<EncodedRecord> = Vec::new();
            std::mem::swap(&mut closed, &mut self.records);
                self.bytes = 0;
                Admission::Closed(closed)
            } else {
                Admission::Held
            }
        }
    }

    /// Closes the open batch if it is not empty and `timeout_ms` has passed
    /// since its first record arrived; `now` is in milliseconds.
    pub fn poll(&mut self, now: u64) -> (r: Option<Vec<EncodedRecord>>)
        requires
            old(self).wf(),
        ensures
            final(self).wf(),
            final(self).settings_view() == old(self).settings_view(),
            old(self).records_view().len() > 0 && now >= old(self).opened_at_view()
                + old(self).settings_view().timeout_ms ==> (r matches Some(b) && b@ == old(self).records_view())
                && final(self).records_view() == Seq::<EncodedRecord>::empty(),
            !(old(self).records_view().len() > 0 && now >= old(self).opened_at_view()
                + old(self).settings_view().timeout_ms) ==> r is None && final(self).records_view()
                == old(self).records_view() && final(self).opened_at_view() == old(self).opened_at_view(),
            r is None ==> *final(self) == *old(self),
            r matches Some(b) ==> within_bounds(old(self).settings_view(), b@) && b@.len() > 0,
    {
        if self.records.len() > 0 && now >= self.opened_at && now - self.opened_at >= self.settings.timeout_ms {
            let mut closed: Vec<EncodedRecord> = Vec::new();
            std::mem::swap(&mut closed, &mut self.records);
            self.bytes = 0;
            Some(closed)
        } else {
            None
        }
    }

    /// When the open batch is due (milliseconds), if it holds any record.
    pub fn deadline(&self) -> (r: Option<u64>)
        requires
            self.wf(),
        ensures
            self.records_view().len() == 0 ==> r is None,
            self.records_view().len() > 0 ==> r == Some(
                if self.opened_at_view() + self.settings_view().timeout_ms > u64::MAX {
                    u64::MAX
                } else {
                    (self.opened_at_view() + self.settings_view().timeout_ms) as u64
                },
            ),
    {
        if self.records.len() == 0 {
            None
        } else {
            Some(self.opened_at.saturating_add(self.settings.timeout_ms))
        }
    }

    /// Hands out the open batch whatever its age, if it holds any record.
    pub fn flush(&mut self) -> (r: Option<Vec<EncodedRecord>>)
        requires
            old(self).wf(),
        ensures
            final(self).wf(),
            final(self).settings_view() == old(self).settings_view(),
            final(self).records_view() == Seq::<EncodedRecord>::empty(),
            old(self).records_view().len() == 0 ==> r is None,
            old(self).records_view().len() > 0 ==> (r matches Some(b) && b@ == old(self).records_view()),
            r matches Some(b) ==> within_bounds(old(self).settings_view(), b@),
    {
        if self.records.len() == 0 {
            None
        } else {
            let mut closed: Vec<EncodedRecord> = Vec::new();
            std::mem::swap(&mut closed, &mut self.records);
            self.bytes = 0;
            Some(closed)
        }
    }
}

} // verus!
