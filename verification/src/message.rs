//! The message envelope: the uniform in-process representation of a
//! received or to-be-sent record — optional key bytes, optional timestamp
//! (milliseconds UTC), optional typed payload, partition index.  Absence of
//! a payload models a tombstone/empty record, not an error.
use vstd::prelude::*;

use crate::codec::{Decoder, Encoder};
use crate::codec::BytesCodec;
use crate::producer::OutgoingRecord;
use crate::KafkaMessage;

verus! {

/// A record as the underlying client hands it over, before the payload runs
/// through the codec layer.
#[derive(Debug, Clone, PartialEq)]
pub struct RawRecord {
    /// The record's key bytes, if any.
    pub key: Option<Vec<u8>>,
    /// The record's payload bytes, if any.
    pub payload: Option<Vec<u8>>,
    /// The record's timestamp in milliseconds UTC, if any.
    pub ts_ms_utc: Option<i64>,
    /// The partition the record came from.
    pub partition: i32,
}

/// The envelope: immutable once constructed.
#[derive(Debug, Clone, PartialEq)]
pub struct Message<M> {
    /// The key bytes, if any.
    pub key: Option<Vec<u8>>,
    /// The timestamp in milliseconds UTC, if any.
    pub ts_ms_utc: Option<i64>,
    /// The decoded payload, if any.
    pub payload: Option<M>,
    /// The partition index.
    pub partition: i32,
}

impl<M> Default for Message<M> {
    /// The empty envelope: no key, no timestamp, no payload, partition 0.
    fn default() -> (r: Self)
        ensures
            r.key is None,
            r.ts_ms_utc is None,
            r.payload is None,
            r.partition == 0,
    {
        Message { key: None, ts_ms_utc: None, payload: None, partition: 0 }
    }
}

impl<M> KafkaMessage for Message<M> {
    type Value = M;

    open spec fn spec_key(&self) -> Option<Seq<u8>> {
        self.key.deep_view()
    }

    open spec fn spec_value(&self) -> Option<M> {
        self.payload
    }

    open spec fn spec_ts_ms_utc(&self) -> Option<i64> {
        self.ts_ms_utc
    }

    fn key(&self) -> (r: Option<Vec<u8>>) {
        match &self.key {
            Some(k) => Some(vstd::slice::slice_to_vec(k.as_slice())),
            None => None,
        }
    }

    fn value(&self) -> (r: Option<&M>) {
        match &self.payload {
            Some(v) => Some(v),
            None => None,
        }
    }

    fn ts_ms_utc(&self) -> (r: Option<i64>) {
        self.ts_ms_utc
    }

    fn into_value(self) -> (r: Option<M>) {
        self.payload
    }
}

/// A message whose key, payload, partition and timestamp are all set
/// round-trips losslessly through the envelope and through encode/decode
/// with the identity codec: whatever record the producer prepares from it,
/// once received back as a raw record from the same partition and decoded,
/// is the same envelope, value for value.
///
/// The hypotheses are exactly what `KafkaProducer::prepare_record` ensures
/// of `rec`, what the driver preserves from `rec` to `raw`, and what
/// `KafkaConsumer::on_receive` ensures of `out`.
pub proof fn lemma_envelope_round_trip(
    msg: Message<Vec<u8>>,
    rec: OutgoingRecord,
    enc0: BytesCodec,
    enc1: BytesCodec,
    raw: RawRecord,
    dec0: BytesCodec,
    dec1: BytesCodec,
    out: Message<Vec<u8>>,
)
    requires
        msg.key is Some,
        msg.payload is Some,
        msg.ts_ms_utc is Some,
        rec.key.deep_view() == msg.spec_key(),
        rec.ts_ms_utc == msg.spec_ts_ms_utc(),
        msg.spec_value() matches Some(v) && rec.payload matches Some(p) && enc0.encode_post(
            v,
            enc1,
            p@,
            Ok(()),
        ),
        raw.key == rec.key,
        raw.payload == rec.payload,
        raw.ts_ms_utc == rec.ts_ms_utc,
        raw.partition == msg.partition,
        raw.payload matches Some(bytes) && out.payload matches Some(q) && dec0.decode_post(
            bytes@,
            dec1,
            Ok(q),
        ),
        out.key == raw.key,
        out.ts_ms_utc == raw.ts_ms_utc,
        out.partition == raw.partition,
    ensures
        out.key matches Some(k) && msg.key matches Some(k0) && k@ == k0@,
        out.payload matches Some(q) && msg.payload matches Some(v0) && q@ == v0@,
        out.ts_ms_utc == msg.ts_ms_utc,
        out.partition == msg.partition,
{
    match (out.key, msg.key) {
        (Some(k), Some(k0)) => {
            assert(k.deep_view() == k0.deep_view());
            assert(k@.len() == k0@.len());
            assert forall|i: int| 0 <= i < k@.len() implies k@[i] == k0@[i] by {
                assert(k.deep_view()[i] == k0.deep_view()[i]);
            }
            assert(k@ =~= k0@);
        },
        _ => {
            assert(rec.key.deep_view() is Some);
        },
    }
}

} // verus!
