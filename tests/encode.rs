use std::collections::HashMap;

use risingwave_sink::{
    encode_event, estimated_json_size, memory_size, request_builder, Codec, CountByteSize,
    DataType, Event, RisingWaveConfig, Transformer,
};

#[test]
fn generate_config() {
    let text = RisingWaveConfig::generate_config();
    let table: toml::Table = text.parse().unwrap();
    assert_eq!(table["host"].as_str(), Some("localhost"));
    assert_eq!(table["port"].as_integer(), Some(4566));
    assert_eq!(table["database"].as_str(), Some("dev"));
    assert_eq!(table["encoding"]["codec"].as_str(), Some("json"));
}

#[test]
fn risingwave_log_event_json() {
    let msg = "hello_world".to_owned();
    let evt = Event::log(msg.clone(), 1);
    let mut byte_size = CountByteSize::new();
    let result = encode_event(evt, &Transformer::keep_all(), Codec::Json, &mut byte_size)
        .unwrap()
        .value;
    let map: HashMap<String, String> = serde_json::from_slice(&result[..]).unwrap();
    assert_eq!(msg, map["message"]);
}

#[test]
fn risingwave_log_event_text() {
    let msg = "hello_world".to_owned();
    let evt = Event::log(msg.clone(), 1);
    let mut byte_size = CountByteSize::new();
    let event = encode_event(evt, &Transformer::keep_all(), Codec::Text, &mut byte_size)
        .unwrap()
        .value;
    assert_eq!(event, msg.as_bytes());
}

#[test]
fn risingwave_encode_event() {
    let msg = "hello_world";
    let mut evt = Event::log(msg.to_owned(), 1);
    let mut byte_size = CountByteSize::new();
    evt.insert("key".to_owned(), "value".to_owned());

    let result = encode_event(
        evt,
        &Transformer::new(vec!["key".into()]),
        Codec::Json,
        &mut byte_size,
    )
    .unwrap()
    .value;

    let map: HashMap<String, String> = serde_json::from_slice(&result[..]).unwrap();
    assert!(!map.contains_key("key"));
    assert_eq!(map["message"], "hello_world");
}

#[test]
fn json_payload_holds_every_kept_field() {
    let mut evt = Event::log("hi".to_owned(), 1);
    evt.insert("host".to_owned(), "a".to_owned());
    let mut byte_size = CountByteSize::new();
    let body = encode_event(evt, &Transformer::keep_all(), Codec::NativeJson, &mut byte_size).unwrap();
    assert_eq!(body.value, br#"{"host":"a","message":"hi"}"#.to_vec());
    assert_eq!(body.data_type, DataType::Log);
}

#[test]
fn text_payload_of_event_without_message_is_empty() {
    let evt = Event { data_type: DataType::Log, fields: vec![("a".into(), "b".into())], source_id: None, finalizer: 3 };
    let mut byte_size = CountByteSize::new();
    let body = encode_event(evt, &Transformer::keep_all(), Codec::Text, &mut byte_size).unwrap();
    assert!(body.value.is_empty());
}

#[test]
fn text_payload_skips_excluded_message() {
    let evt = Event::log("hello_world".to_owned(), 1);
    let mut byte_size = CountByteSize::new();
    let t = Transformer::new(vec!["message".into()]);
    let body = encode_event(evt, &t, Codec::Text, &mut byte_size).unwrap();
    assert!(body.value.is_empty());
    assert_eq!(byte_size.count, 1);
    assert_eq!(byte_size.bytes, 1);
}

#[test]
fn size_estimates_are_exact_for_one_field() {
    let evt = Event::log("hello_world".to_owned(), 1);
    assert_eq!(estimated_json_size(&evt), 25);
    assert_eq!(memory_size(&evt), 138);
    let mut byte_size = CountByteSize::new();
    encode_event(evt, &Transformer::keep_all(), Codec::Text, &mut byte_size);
    assert_eq!(byte_size, CountByteSize { count: 1, bytes: 25 });
}

#[test]
fn non_log_event_is_not_encoded() {
    let evt = Event { data_type: DataType::Metric, fields: vec![("message".into(), "m".into())], source_id: None, finalizer: 4 };
    let mut byte_size = CountByteSize::new();
    assert!(encode_event(evt, &Transformer::keep_all(), Codec::Text, &mut byte_size).is_none());
    assert_eq!(byte_size.count, 1);
}

#[test]
fn insert_replaces_existing_field() {
    let mut evt = Event::log("a".to_owned(), 1);
    evt.insert("message".to_owned(), "b".to_owned());
    assert_eq!(evt.fields, vec![("message".to_owned(), "b".to_owned())]);
}

#[test]
fn failed_encoding_keeps_finalizer() {
    let events = vec![
        Event::log("one".to_owned(), 10),
        Event { data_type: DataType::Trace, fields: vec![], source_id: None, finalizer: 11 },
        Event::log("three".to_owned(), 12),
    ];
    let req = request_builder(events, &Transformer::keep_all(), Codec::Text);
    assert_eq!(req.metadata.finalizers, vec![10, 11, 12]);
    assert_eq!(req.body.len(), 2);
    assert_eq!(req.body[0].value, b"one".to_vec());
    assert_eq!(req.body[1].value, b"three".to_vec());
    assert_eq!(req.request_metadata.event_count, 3);
    assert_eq!(req.request_metadata.encoded_records, 2);
    assert_eq!(req.request_metadata.events_json_size.count, 3);
}

#[test]
fn request_keeps_source_and_tag() {
    let mut evt = Event::log("x".to_owned(), 5);
    evt.source_id = Some("in".to_owned());
    let req = request_builder(vec![evt], &Transformer::keep_all(), Codec::Text);
    assert_eq!(req.body[0].source_id, Some("in".to_owned()));
    assert_eq!(req.body[0].data_type.name(), "Log");
    assert_eq!(req.request_metadata.events_byte_size, 72 + 7 + 1 + 48);
}

#[test]
fn json_payload_of_message_is_exact() {
    let evt = Event::log("hello_world".to_owned(), 1);
    let mut byte_size = CountByteSize::new();
    let body = encode_event(evt, &Transformer::keep_all(), Codec::Json, &mut byte_size).unwrap();
    assert_eq!(body.value, br#"{"message":"hello_world"}"#.to_vec());
}
