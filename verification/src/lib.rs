//! A resilient adapter between an application and a partitioned message
//! broker: uniform "receive a stream of messages" and "send one message"
//! operations, each wrapped in a bounded reconnect/retry policy and a
//! pluggable byte-codec layer.
//!
//! The verified core consists of the configuration and its builder, the
//! mapping from a configuration to broker-client options, the message
//! envelope, the codec abstraction, and the retry-bounded connection state
//! machine that the consumer and producer adapters share.  The asynchronous
//! broker I/O itself is driven by an unverified shell around this crate.
use vstd::prelude::*;

pub mod builder;
pub mod codec;
pub mod config;
pub mod consumer;
pub mod error;
pub mod message;
pub mod producer;
pub mod retry;

verus! {

/// Capability interface of an outbound message: optional key bytes, optional
/// payload value, optional timestamp (milliseconds UTC).  The producer
/// adapter reads a message only through these accessors.
pub trait KafkaMessage: Sized {
    type Value;

    /// The key bytes carried by the message, if any.
    spec fn spec_key(&self) -> Option<Seq<u8>>;

    /// The payload value carried by the message, if any.
    spec fn spec_value(&self) -> Option<Self::Value>;

    /// The timestamp in milliseconds UTC carried by the message, if any.
    spec fn spec_ts_ms_utc(&self) -> Option<i64>;

    fn key(&self) -> (r: Option<Vec<u8>>)
        ensures
            r.deep_view() == self.spec_key(),
    ;

    fn value(&self) -> (r: Option<&Self::Value>)
        ensures
            match r {
                Some(v) => self.spec_value() == Some(*v),
                None => self.spec_value() is None,
            },
    ;

    fn ts_ms_utc(&self) -> (r: Option<i64>)
        ensures
            r == self.spec_ts_ms_utc(),
    ;

    fn into_value(self) -> (r: Option<Self::Value>)
        ensures
            r == self.spec_value(),
    ;
}

} // verus!
