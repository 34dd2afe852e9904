//! The producer adapter: applies the retry-bounded state machine to a
//! single "connect, then send" attempt sequence per outbound message.
//!
//! The unverified I/O shell drives the sequence: it asks
//! [`KafkaProducer::next_action`] what to do, performs the connect or the
//! send of the prepared record against the underlying client, and hands the
//! classified outcome back through [`KafkaProducer::on_connect_result`] and
//! [`KafkaProducer::on_send_result`].  A successful send, a non-fatal
//! failure, and exhaustion are terminal for the call; only a fatal transport
//! failure loops back to reconnect while budget remains.
use vstd::prelude::*;

use core::marker::PhantomData;

use crate::builder::{options_match, KafkaBuilder};
use crate::codec::Encoder;
use crate::config::Config;
use crate::error::{Error, TransportError};
use crate::retry::{init_model, spec_next_action, step, NextAction, RetryEvent, RetryState};
use crate::KafkaMessage;

verus! {

/// A record ready for submission to the underlying client: key, encoded
/// payload and timestamp, each omitted when the message carries none.
#[derive(Debug, Clone, PartialEq)]
pub struct OutgoingRecord {
    /// The message's key bytes, if any.
    pub key: Option<Vec<u8>>,
    /// The encoded payload bytes, if the message carries a value.
    pub payload: Option<Vec<u8>>,
    /// The message's timestamp in milliseconds UTC, if any.
    pub ts_ms_utc: Option<i64>,
}

/// What the driver should do after one send outcome was recorded.
#[derive(Debug)]
pub enum SendOutcome<E> {
    /// The send failed fatally and budget remains: reconnect and try again.
    Retry,
    /// The attempt sequence is over, with this overall result.
    Done(Result<(), Error<E>>),
}

/// The producer-side flow state: the computed client options, the topic sent
/// to, the pluggable encoder with its reusable buffer, and the shared retry
/// machine.
#[derive(Debug)]
pub struct KafkaProducer<M, E> {
    /// Encodes each outbound payload.
    pub encoder: E,
    /// The reusable encode buffer: cleared, not reallocated, before each
    /// encode, to bound memory growth across repeated sends.
    pub buffer: Vec<u8>,
    /// The client options the connection handle is (re)built from.
    pub builder: KafkaBuilder,
    /// The topic every message of this producer is sent to.
    pub topic: String,
    /// The retry-bounded connection state machine.
    pub retry: RetryState,
    /// The configured reconnect budget, kept to start each new sequence.
    pub reconnect_count: u32,
    /// Marks the message type the encoder accepts.
    pub _m: PhantomData<M>,
}

impl<M, E> KafkaProducer<M, E> where M: KafkaMessage, E: Encoder<M::Value> {
    /// A producer for `topic` whose payloads run through `encoder`.  The
    /// retry machine starts with `config.reconnect_count + 1` attempts.
    pub fn new(encoder: E, config: Config, topic: String) -> (r: Self)
        requires
            config.reconnect_count < u32::MAX,
        ensures
            options_match(r.builder.options, config),
            r.retry.model() == init_model(config.reconnect_count),
            r.encoder == encoder,
            r.topic == topic,
            r.buffer@ == Seq::<u8>::empty(),
            r.reconnect_count == config.reconnect_count,
    {
        let budget = config.reconnect_count;
        KafkaProducer {
            encoder,
            buffer: Vec::new(),
            builder: KafkaBuilder::new(config),
            topic,
            retry: RetryState::new(budget),
            reconnect_count: budget,
            _m: PhantomData,
        }
    }

    /// Starts a fresh bounded attempt sequence: the machine returns to its
    /// initial state, with the full budget and no connection.  Each
    /// outbound message begins here.
    pub fn reset_attempts(&mut self)
        requires
            old(self).reconnect_count < u32::MAX,
        ensures
            final(self).builder == old(self).builder,
            final(self).encoder == old(self).encoder,
            final(self).buffer == old(self).buffer,
            final(self).topic == old(self).topic,
            final(self).reconnect_count == old(self).reconnect_count,
            final(self).retry.model() == init_model(old(self).reconnect_count),
    {
        self.retry = RetryState::new(self.reconnect_count);
    }

    /// Whether a live connection is held.
    pub fn is_connected(&self) -> (r: bool)
        ensures
            r == self.retry.model().connected,
    {
        self.retry.is_connected()
    }

    /// What the driver should do next: connect, send, or give up.
    pub fn next_action(&self) -> (a: NextAction)
        ensures
            a == spec_next_action(self.retry.model()),
    {
        self.retry.next_action()
    }

    /// Records the outcome of a connect attempt: success makes the machine
    /// connected; failure consumes one attempt and records the failure.
    pub fn on_connect_result(&mut self, result: Result<(), TransportError>)
        requires
            !old(self).retry.model().connected,
            old(self).retry.model().remaining > 0,
        ensures
            final(self).builder == old(self).builder,
            final(self).encoder == old(self).encoder,
            final(self).buffer == old(self).buffer,
            final(self).topic == old(self).topic,
            final(self).retry.model() == step(
                old(self).retry.model(),
                match result {
                    Ok(_) => RetryEvent::ConnectOk,
                    Err(e) => RetryEvent::ConnectFailed(e),
                },
            ),
    {
        match result {
            Ok(_) => self.retry.record_connect_ok(),
            Err(e) => self.retry.record_connect_failed(e),
        }
    }

    /// Serializes a message into a record ready for submission: key and
    /// timestamp are taken from the message's accessors, and the payload, if
    /// the message carries a value, is encoded into the reusable buffer,
    /// which is cleared first.  A codec failure is returned as the overall
    /// result, never retried; the retry machine is untouched either way.
    pub fn prepare_record(&mut self, m: &M) -> (r: Result<OutgoingRecord, Error<E::Error>>)
        ensures
            final(self).builder == old(self).builder,
            final(self).topic == old(self).topic,
            final(self).retry.model() == old(self).retry.model(),
            match r {
                Ok(rec) => {
                    &&& rec.key.deep_view() == m.spec_key()
                    &&& rec.ts_ms_utc == m.spec_ts_ms_utc()
                    &&& match m.spec_value() {
                        Some(v) => {
                            &&& rec.payload matches Some(p) && old(self).encoder.encode_post(
                                v,
                                final(self).encoder,
                                p@,
                                Ok(()),
                            ) && final(self).buffer@ == p@
                        },
                        None => {
                            &&& rec.payload is None
                            &&& final(self).encoder == old(self).encoder
                            &&& final(self).buffer@ == Seq::<u8>::empty()
                        },
                    }
                },
                Err(e) => {
                    &&& e matches Error::MessageCodecError(ce)
                    &&& m.spec_value() matches Some(v) && old(self).encoder.encode_post(
                        v,
                        final(self).encoder,
                        final(self).buffer@,
                        Err(ce),
                    )
                },
            },
    {
        self.buffer.clear();
        let payload = match m.value() {
            Some(v) => {
                let res = self.encoder.encode(v, &mut self.buffer);
                proof {
                    assert(self.buffer@.skip(0) =~= self.buffer@);
                }
                match res {
                    Ok(u) => {
                        proof {
                            assert(u == ());
                        }
                        Some(vstd::slice::slice_to_vec(self.buffer.as_slice()))
                    },
                    Err(ce) => {
                        return Err(Error::MessageCodecError(ce));
                    },
                }
            },
            None => None,
        };
        Ok(OutgoingRecord { key: m.key(), payload, ts_ms_utc: m.ts_ms_utc() })
    }

    /// Records the outcome of one send on the live connection.
    ///
    /// Success is terminal.  A non-fatal failure (transport or codec) is
    /// terminal and returned at once: the budget is not consumed and no
    /// further connect attempt is made.  A fatal transport failure consumes
    /// one attempt and discards the connection: the driver retries while
    /// budget remains, and otherwise receives the failure as terminal.
    pub fn on_send_result(&mut self, result: Result<(), TransportError>) -> (out: SendOutcome<
        E::Error,
    >)
        requires
            old(self).retry.model().connected,
            old(self).retry.model().remaining > 0,
        ensures
            final(self).builder == old(self).builder,
            final(self).encoder == old(self).encoder,
            final(self).buffer == old(self).buffer,
            final(self).topic == old(self).topic,
            match result {
                Ok(_) => {
                    &&& final(self).retry.model() == old(self).retry.model()
                    &&& out matches SendOutcome::Done(r) && r is Ok
                },
                Err(te) => {
                    if te.fatal {
                        &&& final(self).retry.model() == step(
                            old(self).retry.model(),
                            RetryEvent::OpFatal(te),
                        )
                        &&& if old(self).retry.model().remaining == 1 {
                            out matches SendOutcome::Done(r) && r matches Err(e) && e
                                matches Error::KafkaError(te2) && te2 == te
                        } else {
                            out is Retry
                        }
                    } else {
                        &&& final(self).retry.model() == old(self).retry.model()
                        &&& out matches SendOutcome::Done(r) && r matches Err(e) && e
                            matches Error::KafkaError(te2) && te2 == te
                    }
                },
            },
    {
        match result {
            Ok(_) => SendOutcome::Done(Ok(())),
            Err(te) => {
                if te.fatal {
                    self.retry.record_op_fatal(te);
                    if self.retry.remaining_attempts() == 0 {
                        SendOutcome::Done(Err(Error::KafkaError(te)))
                    } else {
                        SendOutcome::Retry
                    }
                } else {
                    SendOutcome::Done(Err(Error::KafkaError(te)))
                }
            },
        }
    }

    /// The overall result of an exhausted attempt sequence: the last
    /// recorded connect failure or fatal transport error.
    pub fn finish(&self) -> (r: Error<E::Error>)
        requires
            self.retry.model().remaining == 0,
        ensures
            r matches Error::KafkaError(te) && self.retry.model().last_error == Some(te),
    {
        Error::KafkaError(self.retry.exhaustion_error())
    }
}

} // verus!
