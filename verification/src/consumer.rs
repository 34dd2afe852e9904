//! The consumer adapter: applies the retry-bounded state machine to a
//! "connect and subscribe, then repeatedly receive" loop, producing a
//! lazily-evaluated, conceptually unbounded sequence of results.
//!
//! The unverified I/O shell drives the loop: it asks [`KafkaConsumer::next_action`]
//! what to do, performs the connect or receive against the underlying
//! client, and hands the classified outcome back through
//! [`KafkaConsumer::on_connect_result`] and [`KafkaConsumer::on_receive`],
//! yielding every item the latter returns.  On exhaustion it yields one
//! final item from [`KafkaConsumer::finish`] and ends the sequence.
use vstd::prelude::*;

use core::marker::PhantomData;

use crate::builder::{options_match, KafkaBuilder};
use crate::codec::Decoder;
use crate::config::Config;
use crate::error::{Error, TransportError};
use crate::message::{Message, RawRecord};
use crate::retry::{
    init_model, run, run_enabled, spec_next_action, step, NextAction, RetryEvent, RetryState,
};

verus! {

/// The consumer-side flow state: the computed client options, the pluggable
/// decoder, and the shared retry machine.
#[derive(Debug)]
pub struct KafkaConsumer<M, D: Decoder<M>> {
    /// The client options the connection handle is (re)built from.
    pub builder: KafkaBuilder,
    /// Decodes each received payload.
    pub decoder: D,
    /// The retry-bounded connection state machine.
    pub retry: RetryState,
    /// The configured reconnect budget, kept to start each new sequence.
    pub reconnect_count: u32,
    /// Marks the payload type the decoder produces.
    pub _m: PhantomData<M>,
}

impl KafkaConsumer<Vec<u8>, crate::codec::BytesCodec> {
    /// A consumer of raw byte payloads, with the identity codec.
    pub fn new(config: Config) -> (r: Self)
        requires
            config.reconnect_count < u32::MAX,
        ensures
            options_match(r.builder.options, config),
            r.retry.model() == init_model(config.reconnect_count),
            r.decoder == crate::codec::BytesCodec,
    {
        Self::new_with_decoder(crate::codec::BytesCodec, config)
    }
}

impl<M, D: Decoder<M>> KafkaConsumer<M, D> {
    /// A consumer whose payloads run through `decoder`.  The retry machine
    /// starts with `config.reconnect_count + 1` attempts.
    pub fn new_with_decoder(decoder: D, config: Config) -> (r: Self)
        requires
            config.reconnect_count < u32::MAX,
        ensures
            options_match(r.builder.options, config),
            r.retry.model() == init_model(config.reconnect_count),
            r.decoder == decoder,
            r.reconnect_count == config.reconnect_count,
    {
        let budget = config.reconnect_count;
        KafkaConsumer {
            builder: KafkaBuilder::new(config),
            decoder,
            retry: RetryState::new(budget),
            reconnect_count: budget,
            _m: PhantomData,
        }
    }

    /// Starts a fresh attempt sequence: the machine returns to its initial
    /// state, with the full budget and no connection.  Each
    /// subscribe-and-stream call begins here.
    pub fn reset_attempts(&mut self)
        requires
            old(self).reconnect_count < u32::MAX,
        ensures
            final(self).builder == old(self).builder,
            final(self).decoder == old(self).decoder,
            final(self).reconnect_count == old(self).reconnect_count,
            final(self).retry.model() == init_model(old(self).reconnect_count),
    {
        self.retry = RetryState::new(self.reconnect_count);
    }

    /// Whether a live connection is held.
    pub fn is_connected(&self) -> (r: bool)
        ensures
            r == self.retry.model().connected,
    {
        self.retry.is_connected()
    }

    /// What the driver loop should do next: connect, receive, or stop.
    pub fn next_action(&self) -> (a: NextAction)
        ensures
            a == spec_next_action(self.retry.model()),
    {
        self.retry.next_action()
    }

    /// Records the outcome of a connect-and-subscribe attempt: success makes
    /// the machine connected; failure consumes one attempt and records the
    /// failure.
    pub fn on_connect_result(&mut self, result: Result<(), TransportError>)
        requires
            !old(self).retry.model().connected,
            old(self).retry.model().remaining > 0,
        ensures
            final(self).builder == old(self).builder,
            final(self).decoder == old(self).decoder,
            final(self).retry.model() == step(
                old(self).retry.model(),
                match result {
                    Ok(_) => RetryEvent::ConnectOk,
                    Err(e) => RetryEvent::ConnectFailed(e),
                },
            ),
    {
        match result {
            Ok(_) => self.retry.record_connect_ok(),
            Err(e) => self.retry.record_connect_failed(e),
        }
    }

    /// Handles the outcome of one receive on the live connection.
    ///
    /// A received record is decoded and yielded as an envelope; a codec
    /// failure is yielded as an error, consuming no budget and keeping the
    /// connection; a fatal transport error consumes one attempt, discards
    /// the connection and yields nothing; a non-fatal transport error is
    /// yielded, consuming no budget and keeping the connection.
    pub fn on_receive(&mut self, received: Result<RawRecord, TransportError>) -> (out: Option<
        Result<Message<M>, Error<D::Error>>,
    >)
        requires
            old(self).retry.model().connected,
            old(self).retry.model().remaining > 0,
        ensures
            final(self).builder == old(self).builder,
            match received {
                Ok(rec) => {
                    &&& final(self).retry.model() == old(self).retry.model()
                    &&& match rec.payload {
                        None => {
                            &&& final(self).decoder == old(self).decoder
                            &&& match out {
                                Some(item) => match item {
                                    Ok(msg) => {
                                        &&& msg.key == rec.key
                                        &&& msg.ts_ms_utc == rec.ts_ms_utc
                                        &&& msg.payload is None
                                        &&& msg.partition == rec.partition
                                    },
                                    Err(_) => false,
                                },
                                None => false,
                            }
                        },
                        Some(bytes) => match out {
                            Some(item) => match item {
                                Ok(msg) => {
                                    &&& msg.payload matches Some(p) && old(
                                        self,
                                    ).decoder.decode_post(bytes@, final(self).decoder, Ok(p))
                                    &&& msg.key == rec.key
                                    &&& msg.ts_ms_utc == rec.ts_ms_utc
                                    &&& msg.partition == rec.partition
                                },
                                Err(e) => e matches Error::MessageCodecError(ce) && old(
                                    self,
                                ).decoder.decode_post(bytes@, final(self).decoder, Err(ce)),
                            },
                            None => false,
                        },
                    }
                },
                Err(te) => {
                    &&& final(self).decoder == old(self).decoder
                    &&& if te.fatal {
                        &&& final(self).retry.model() == step(
                            old(self).retry.model(),
                            RetryEvent::OpFatal(te),
                        )
                        &&& out is None
                    } else {
                        &&& final(self).retry.model() == old(self).retry.model()
                        &&& out matches Some(item) && item matches Err(e) && e matches Error::KafkaError(te2)
                            && te2 == te
                    }
                },
            },
    {
        match received {
            Ok(rec) => {
                let RawRecord { key, payload, ts_ms_utc, partition } = rec;
                let decoded = match payload {
                    Some(bytes) => match self.decoder.decode(bytes.as_slice()) {
                        Ok(v) => Some(v),
                        Err(ce) => {
                            return Some(Err(Error::MessageCodecError(ce)));
                        },
                    },
                    None => None,
                };
                Some(Ok(Message { key, ts_ms_utc, payload: decoded, partition }))
            },
            Err(te) => {
                if te.fatal {
                    self.retry.record_op_fatal(te);
                    None
                } else {
                    Some(Err(Error::KafkaError(te)))
                }
            },
        }
    }

    /// The terminal item of an exhausted sequence: the last recorded
    /// connect failure or fatal transport error.
    pub fn finish(&self) -> (r: Error<D::Error>)
        requires
            self.retry.model().remaining == 0,
        ensures
            r matches Error::KafkaError(te) && self.retry.model().last_error == Some(te),
    {
        Error::KafkaError(self.retry.exhaustion_error())
    }
}

/// For reconnect budget `n`, if every connect attempt fails, the consumer's
/// machine performs exactly `n + 1` connect attempts — each enabled in turn
/// — and is then exhausted: the driver's next action is to stop, and the
/// terminal item carries the `(n + 1)`-th failure.
pub proof fn lemma_consumer_connect_exhaustion(budget: u32, errs: Seq<TransportError>)
    requires
        errs.len() == budget + 1,
    ensures
        ({
            let evs = errs.map_values(|e: TransportError| RetryEvent::ConnectFailed(e));
            let end = run(init_model(budget), evs);
            &&& run_enabled(init_model(budget), evs)
            &&& end.remaining == 0
            &&& end.last_error == Some(errs.last())
            &&& spec_next_action(end) is Finish
        }),
{
    crate::retry::lemma_all_connects_fail(init_model(budget), errs);
}

/// For reconnect budget `n`, if every connect succeeds and every receive
/// fails fatally, exactly `n + 1` connect-plus-fatal-receive cycles occur —
/// each enabled in turn — before the machine is exhausted with the last
/// fatal error as its terminal item.
pub proof fn lemma_consumer_fatal_receive_exhaustion(budget: u32, errs: Seq<TransportError>)
    requires
        errs.len() == budget + 1,
    ensures
        ({
            let evs = crate::retry::fatal_cycle_events(errs);
            let end = run(init_model(budget), evs);
            &&& run_enabled(init_model(budget), evs)
            &&& end.remaining == 0
            &&& end.last_error == Some(errs.last())
            &&& spec_next_action(end) is Finish
        }),
{
    crate::retry::lemma_fatal_cycles_exhaust(init_model(budget), errs);
}

} // verus!
