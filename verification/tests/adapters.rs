use kafka_flow::codec::{BytesCodec, Decoder, Encoder};
use kafka_flow::config::Config;
use kafka_flow::consumer::KafkaConsumer;
use kafka_flow::error::{Error, TransportError};
use kafka_flow::message::{Message, RawRecord};
use kafka_flow::producer::{KafkaProducer, SendOutcome};
use kafka_flow::retry::{ConnState, NextAction};

fn fatal(code: i32) -> TransportError {
    TransportError { fatal: true, code }
}

fn transient(code: i32) -> TransportError {
    TransportError { fatal: false, code }
}

fn config_with_budget(budget: u32) -> Config {
    Config::builder()
        .brokers(vec!["b1:9092".to_string()])
        .group_id("g".to_string())
        .reconnect_count(budget)
        .build()
}

/// A decoder that rejects every record, with a distinguishable error.
struct RejectingDecoder;

impl Decoder<Vec<u8>> for RejectingDecoder {
    type Error = i32;

    fn decode(&mut self, _data: &[u8]) -> Result<Vec<u8>, i32> {
        Err(-7)
    }
}

#[test]
fn consumer_every_connect_fails_makes_budget_plus_one_attempts() {
    let mut c = KafkaConsumer::new(config_with_budget(2));
    let mut attempts: i32 = 0;
    loop {
        match c.next_action() {
            NextAction::Connect => {
                attempts += 1;
                c.on_connect_result(Err(fatal(attempts)));
            }
            NextAction::Operate => panic!("must never reach a receive"),
            NextAction::Finish => break,
        }
    }
    assert_eq!(attempts, 3);
    let terminal = c.finish();
    assert!(matches!(terminal, Error::KafkaError(TransportError { fatal: true, code: 3 })));
}

#[test]
fn consumer_budget_zero_attempts_connect_exactly_once() {
    let mut c = KafkaConsumer::new(config_with_budget(0));
    assert!(matches!(c.next_action(), NextAction::Connect));
    c.on_connect_result(Err(transient(41)));
    assert!(matches!(c.next_action(), NextAction::Finish));
    assert!(matches!(c.retry.state(), ConnState::Exhausted));
    let terminal = c.finish();
    assert!(matches!(terminal, Error::KafkaError(TransportError { fatal: false, code: 41 })));
}

#[test]
fn consumer_every_receive_fatal_exhausts_after_budget_plus_one_cycles() {
    let mut c = KafkaConsumer::new(config_with_budget(1));
    let mut cycles: i32 = 0;
    loop {
        match c.next_action() {
            NextAction::Connect => {
                c.on_connect_result(Ok(()));
            }
            NextAction::Operate => {
                cycles += 1;
                let out = c.on_receive(Err(fatal(cycles)));
                assert!(out.is_none());
            }
            NextAction::Finish => break,
        }
    }
    assert_eq!(cycles, 2);
    let terminal = c.finish();
    assert!(matches!(terminal, Error::KafkaError(TransportError { fatal: true, code: 2 })));
}

#[test]
fn consumer_recovers_when_connect_succeeds_within_budget() {
    let mut c = KafkaConsumer::new(config_with_budget(2));
    c.on_connect_result(Err(fatal(1)));
    c.on_connect_result(Err(fatal(2)));
    assert!(matches!(c.next_action(), NextAction::Connect));
    c.on_connect_result(Ok(()));
    assert!(c.is_connected());
    assert!(matches!(c.next_action(), NextAction::Operate));
    let raw = RawRecord {
        key: None,
        payload: Some(vec![1, 2, 3]),
        ts_ms_utc: None,
        partition: 0,
    };
    let out = c.on_receive(Ok(raw)).expect("an item");
    let msg = out.expect("a message");
    assert_eq!(msg.payload, Some(vec![1, 2, 3]));
    assert_eq!(c.retry.remaining_attempts(), 1);
}

#[test]
fn consumer_codec_failure_keeps_connection_and_budget() {
    let mut c = KafkaConsumer::new_with_decoder(RejectingDecoder, config_with_budget(3));
    c.on_connect_result(Ok(()));
    let before = c.retry.remaining_attempts();
    let raw = RawRecord {
        key: Some(vec![1]),
        payload: Some(vec![0xFF]),
        ts_ms_utc: Some(5),
        partition: 2,
    };
    let out = c.on_receive(Ok(raw)).expect("an item");
    assert!(matches!(out, Err(Error::MessageCodecError(-7))));
    assert_eq!(c.retry.remaining_attempts(), before);
    assert!(c.is_connected());
    assert!(matches!(c.next_action(), NextAction::Operate));
}

#[test]
fn consumer_transient_receive_error_is_yielded_without_reconnect() {
    let mut c = KafkaConsumer::new(config_with_budget(4));
    c.on_connect_result(Ok(()));
    let before = c.retry.remaining_attempts();
    let out = c.on_receive(Err(transient(9))).expect("an item");
    assert!(matches!(out, Err(Error::KafkaError(TransportError { fatal: false, code: 9 }))));
    assert_eq!(c.retry.remaining_attempts(), before);
    assert!(c.is_connected());
}

#[test]
fn consumer_tombstone_record_yields_envelope_without_payload() {
    let mut c = KafkaConsumer::new(config_with_budget(0));
    c.on_connect_result(Ok(()));
    let raw = RawRecord {
        key: Some(vec![7]),
        payload: None,
        ts_ms_utc: Some(77),
        partition: 3,
    };
    let msg = c.on_receive(Ok(raw)).expect("an item").expect("a message");
    assert_eq!(msg.key, Some(vec![7]));
    assert_eq!(msg.ts_ms_utc, Some(77));
    assert_eq!(msg.payload, None);
    assert_eq!(msg.partition, 3);
}

#[test]
fn producer_transient_send_error_returns_immediately() {
    let mut p = KafkaProducer::<Message<Vec<u8>>, BytesCodec>::new(
        BytesCodec,
        config_with_budget(5),
        "t".to_string(),
    );
    p.on_connect_result(Ok(()));
    let before = p.retry.remaining_attempts();
    let out = p.on_send_result(Err(transient(13)));
    match out {
        SendOutcome::Done(Err(Error::KafkaError(te))) => {
            assert!(!te.fatal);
            assert_eq!(te.code, 13);
        }
        _ => panic!("a transient failure must be terminal"),
    }
    assert_eq!(p.retry.remaining_attempts(), before);
    assert!(p.is_connected());
}

#[test]
fn producer_fatal_send_error_retries_until_exhausted() {
    let mut p = KafkaProducer::<Message<Vec<u8>>, BytesCodec>::new(
        BytesCodec,
        config_with_budget(1),
        "t".to_string(),
    );
    p.on_connect_result(Ok(()));
    let out = p.on_send_result(Err(fatal(1)));
    assert!(matches!(out, SendOutcome::Retry));
    assert!(!p.is_connected());
    p.on_connect_result(Ok(()));
    let out = p.on_send_result(Err(fatal(2)));
    match out {
        SendOutcome::Done(Err(Error::KafkaError(te))) => {
            assert!(te.fatal);
            assert_eq!(te.code, 2);
        }
        _ => panic!("exhaustion must return the last fatal error"),
    }
    assert!(matches!(p.next_action(), NextAction::Finish));
}

#[test]
fn producer_connect_fails_once_then_send_succeeds() {
    let mut p = KafkaProducer::<Message<Vec<u8>>, BytesCodec>::new(
        BytesCodec,
        config_with_budget(1),
        "t".to_string(),
    );
    let mut connect_attempts: i32 = 0;
    let msg = Message {
        key: Some(vec![1]),
        ts_ms_utc: Some(10),
        payload: Some(vec![2, 3]),
        partition: 0,
    };
    let overall: Result<(), Error<()>> = loop {
        match p.next_action() {
            NextAction::Connect => {
                connect_attempts += 1;
                let outcome = if connect_attempts == 1 { Err(fatal(1)) } else { Ok(()) };
                p.on_connect_result(outcome);
            }
            NextAction::Operate => {
                let _rec = p.prepare_record(&msg).expect("encoding bytes cannot fail");
                match p.on_send_result(Ok(())) {
                    SendOutcome::Done(r) => break r,
                    SendOutcome::Retry => continue,
                }
            }
            NextAction::Finish => break Err(p.finish()),
        }
    };
    assert!(overall.is_ok());
    assert_eq!(connect_attempts, 2);
}

#[test]
fn producer_exhausted_by_connect_failures_reports_last_error() {
    let mut p = KafkaProducer::<Message<Vec<u8>>, BytesCodec>::new(
        BytesCodec,
        config_with_budget(0),
        "t".to_string(),
    );
    p.on_connect_result(Err(fatal(99)));
    assert!(matches!(p.next_action(), NextAction::Finish));
    let terminal = p.finish();
    assert!(matches!(terminal, Error::KafkaError(TransportError { fatal: true, code: 99 })));
}

#[test]
fn message_round_trips_through_envelope_and_identity_codec() {
    let original = Message {
        key: Some(vec![10, 20]),
        ts_ms_utc: Some(1_700_000_000_123),
        payload: Some(vec![5, 6, 7, 8]),
        partition: 4,
    };
    let mut p = KafkaProducer::<Message<Vec<u8>>, BytesCodec>::new(
        BytesCodec,
        config_with_budget(0),
        "t".to_string(),
    );
    let rec = p.prepare_record(&original).expect("identity encoding succeeds");
    assert_eq!(rec.key, Some(vec![10, 20]));
    assert_eq!(rec.payload, Some(vec![5, 6, 7, 8]));
    assert_eq!(rec.ts_ms_utc, Some(1_700_000_000_123));

    let raw = RawRecord {
        key: rec.key,
        payload: rec.payload,
        ts_ms_utc: rec.ts_ms_utc,
        partition: 4,
    };
    let mut c = KafkaConsumer::new(config_with_budget(0));
    c.on_connect_result(Ok(()));
    let decoded = c.on_receive(Ok(raw)).expect("an item").expect("a message");
    assert_eq!(decoded, original);
}

#[test]
fn producer_encode_buffer_is_cleared_between_sends() {
    let mut p = KafkaProducer::<Message<Vec<u8>>, BytesCodec>::new(
        BytesCodec,
        config_with_budget(0),
        "t".to_string(),
    );
    let first = Message {
        key: None,
        ts_ms_utc: None,
        payload: Some(vec![1, 1, 1, 1, 1]),
        partition: 0,
    };
    let second = Message {
        key: None,
        ts_ms_utc: None,
        payload: Some(vec![2, 2]),
        partition: 0,
    };
    let rec1 = p.prepare_record(&first).unwrap();
    assert_eq!(rec1.payload, Some(vec![1, 1, 1, 1, 1]));
    let rec2 = p.prepare_record(&second).unwrap();
    assert_eq!(rec2.payload, Some(vec![2, 2]));
    assert_eq!(p.buffer, vec![2, 2]);
}

#[test]
fn producer_message_without_value_sends_no_payload() {
    let mut p = KafkaProducer::<Message<Vec<u8>>, BytesCodec>::new(
        BytesCodec,
        config_with_budget(0),
        "t".to_string(),
    );
    let msg = Message {
        key: Some(vec![3]),
        ts_ms_utc: None,
        payload: None,
        partition: 0,
    };
    let rec = p.prepare_record(&msg).unwrap();
    assert_eq!(rec.key, Some(vec![3]));
    assert_eq!(rec.payload, None);
    assert_eq!(rec.ts_ms_utc, None);
    assert!(p.buffer.is_empty());
}

#[test]
fn bytes_codec_is_identity() {
    let mut codec = BytesCodec;
    let decoded = codec.decode(&[9, 9, 1]).unwrap();
    assert_eq!(decoded, vec![9, 9, 1]);
    let mut buf: Vec<u8> = vec![0xAA];
    codec.encode(&vec![1, 2, 3], &mut buf).unwrap();
    assert_eq!(buf, vec![0xAA, 1, 2, 3]);
}

#[test]
fn connection_state_follows_machine() {
    let mut c = KafkaConsumer::new(config_with_budget(1));
    assert!(matches!(c.retry.state(), ConnState::Disconnected));
    assert!(!c.is_connected());
    c.on_connect_result(Ok(()));
    assert!(matches!(c.retry.state(), ConnState::Connected));
    let out = c.on_receive(Err(fatal(1)));
    assert!(out.is_none());
    assert!(matches!(c.retry.state(), ConnState::Disconnected));
    assert_eq!(c.retry.last_error(), Some(fatal(1)));
    c.on_connect_result(Err(fatal(2)));
    assert!(matches!(c.retry.state(), ConnState::Exhausted));
}

#[test]
fn error_classification_follows_the_fatal_flag() {
    let e: Error<()> = Error::KafkaError(fatal(1));
    assert!(e.is_fatal());
    let e: Error<()> = Error::KafkaError(transient(1));
    assert!(!e.is_fatal());
    let e: Error<()> = Error::NoConnection;
    assert!(!e.is_fatal());
    let e: Error<i32> = Error::MessageCodecError(-1);
    assert!(!e.is_fatal());
}

#[test]
fn reset_attempts_starts_a_fresh_sequence() {
    let mut c = KafkaConsumer::new(config_with_budget(0));
    c.on_connect_result(Err(fatal(5)));
    assert!(matches!(c.next_action(), NextAction::Finish));
    c.reset_attempts();
    assert!(matches!(c.next_action(), NextAction::Connect));
    assert_eq!(c.retry.remaining_attempts(), 1);
    assert!(!c.is_connected());

    let mut p = KafkaProducer::<Message<Vec<u8>>, BytesCodec>::new(
        BytesCodec,
        config_with_budget(0),
        "t".to_string(),
    );
    p.on_connect_result(Err(fatal(6)));
    assert!(matches!(p.next_action(), NextAction::Finish));
    p.reset_attempts();
    assert!(matches!(p.next_action(), NextAction::Connect));
    assert_eq!(p.retry.remaining_attempts(), 1);
}
