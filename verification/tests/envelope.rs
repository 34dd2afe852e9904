use kafka_flow::message::Message;
use kafka_flow::KafkaMessage;

#[test]
fn default_envelope_is_empty() {
    let m: Message<Vec<u8>> = Message::default();
    assert_eq!(m.key, None);
    assert_eq!(m.ts_ms_utc, None);
    assert_eq!(m.payload, None);
    assert_eq!(m.partition, 0);
}

#[test]
fn accessors_mirror_the_fields() {
    let m = Message {
        key: Some(vec![1, 2]),
        ts_ms_utc: Some(42),
        payload: Some(vec![3]),
        partition: 9,
    };
    assert_eq!(m.key(), Some(vec![1, 2]));
    assert_eq!(m.value(), Some(&vec![3]));
    assert_eq!(m.ts_ms_utc(), Some(42));
    assert_eq!(m.clone().into_value(), Some(vec![3]));
}

#[test]
fn accessors_of_an_empty_envelope() {
    let m: Message<Vec<u8>> = Message::default();
    assert_eq!(m.key(), None);
    assert_eq!(m.value(), None);
    assert_eq!(m.ts_ms_utc(), None);
    assert_eq!(m.into_value(), None);
}
