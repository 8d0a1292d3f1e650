use risingwave_sink::{
    request_builder, BatchConfig, Batcher, BatcherSettings, Codec, ConfigError, DataType,
    DeliveryError, Dispatch, DispatchAction, EncodingConfig, Event, EventStatus, RequestConfig,
    RisingWaveBatchSizer, RisingWaveConfig, RisingWaveDefaultBatchSettings, RisingWaveResponse,
    RisingWaveRetryLogic, RisingWaveService, Transformer,
};

fn logs(n: u64) -> Vec<Event> {
    (0..n).map(|i| Event::log(format!("event {}", i), i)).collect()
}

fn config(batch: BatchConfig) -> RisingWaveConfig {
    RisingWaveConfig {
        host: "localhost".to_owned(),
        port: 4566,
        database: "dev".to_owned(),
        schema: Some("public".to_owned()),
        table: "t".to_owned(),
        user: "root".to_owned(),
        password: None,
        request: RequestConfig { concurrency: 1, retry_attempts: 3 },
        encoding: EncodingConfig { codec: Codec::Text, except_fields: vec!["key".to_owned()] },
        batch,
        acknowledgements: true,
    }
}

#[test]
fn fifty_events_make_one_request_of_fifty_records() {
    let sink = config(BatchConfig::new()).build().unwrap();
    let mut batcher = sink.batcher();
    let mut batches = Vec::new();
    for (i, e) in logs(50).into_iter().enumerate() {
        batches.extend(batcher.push(e, i as u64));
    }
    batches.extend(batcher.finish());
    assert_eq!(batches.len(), 1);
    let req = sink.build_request(batches.pop().unwrap());
    assert_eq!(req.body.len(), 50);
    assert_eq!(req.metadata.finalizers, (0..50).collect::<Vec<u64>>());
}

#[test]
fn batches_never_pass_max_events() {
    let settings = BatcherSettings { max_events: 3, max_bytes: None, timeout_ms: 1000 };
    let mut batcher = Batcher::new(settings, RisingWaveBatchSizer { codec: Codec::Text });
    let mut batches = Vec::new();
    for e in logs(7) {
        batches.extend(batcher.push(e, 0));
    }
    assert_eq!(batches.iter().map(|b| b.len()).collect::<Vec<_>>(), vec![3, 3]);
    let last = batcher.finish().unwrap();
    assert_eq!(last.len(), 1);
    assert_eq!(last[0].finalizer, 6);
    assert!(batcher.finish().is_none());
}

#[test]
fn byte_budget_closes_batch_before_it_is_passed() {
    // each "event i" log weighs 1 + 7 + 7 + 6 = 21 bytes in JSON
    let settings = BatcherSettings { max_events: 10, max_bytes: Some(50), timeout_ms: 1000 };
    let mut batcher = Batcher::new(settings, RisingWaveBatchSizer { codec: Codec::Json });
    let mut batches = Vec::new();
    for e in logs(5) {
        batches.extend(batcher.push(e, 0));
    }
    assert_eq!(batches.iter().map(|b| b.len()).collect::<Vec<_>>(), vec![2, 2]);
    assert_eq!(batcher.finish().unwrap().len(), 1);
}

#[test]
fn timeout_closes_batch() {
    let settings = BatcherSettings { max_events: 10, max_bytes: None, timeout_ms: 1000 };
    let mut batcher = Batcher::new(settings, RisingWaveBatchSizer { codec: Codec::Text });
    assert!(batcher.push(Event::log("a".to_owned(), 1), 500).is_empty());
    assert!(batcher.push(Event::log("b".to_owned(), 2), 900).is_empty());
    assert!(batcher.poll(1499).is_none());
    let b = batcher.poll(1500).unwrap();
    assert_eq!(b.len(), 2);
    assert!(batcher.poll(5000).is_none());
}

#[test]
fn default_batch_settings() {
    let s = RisingWaveDefaultBatchSettings::settings();
    assert_eq!(s.max_events, 50);
    assert_eq!(s.max_bytes, None);
    assert_eq!(s.timeout_ms, 1000);
}

#[test]
fn invalid_batch_limits_are_refused() {
    let zero_events = BatchConfig { max_events: Some(0), max_bytes: None, timeout_ms: None };
    assert_eq!(config(zero_events).build().unwrap_err(), ConfigError::ZeroMaxEvents);
    let zero_bytes = BatchConfig { max_events: None, max_bytes: Some(0), timeout_ms: None };
    assert_eq!(config(zero_bytes).build().unwrap_err(), ConfigError::ZeroMaxBytes);
    let ok = BatchConfig { max_events: Some(5), max_bytes: Some(10), timeout_ms: Some(20) };
    let s = config(ok).build().unwrap().batch_settings;
    assert_eq!(s, BatcherSettings { max_events: 5, max_bytes: Some(10), timeout_ms: 20 });
}

#[test]
fn config_accessors() {
    let c = config(BatchConfig::new());
    assert_eq!(c.input(), DataType::Log);
    assert!(c.acknowledgements());
    assert_eq!(c.service().relation(), "public.t");
}

#[test]
fn retry_logic_refuses_only_closed_connections() {
    let logic = RisingWaveRetryLogic;
    assert!(!logic.is_retriable_error(&DeliveryError::ConnectionClosed));
    assert!(logic.is_retriable_error(&DeliveryError::Other));
}

#[test]
fn insert_statement_names_relation() {
    let with_schema = RisingWaveService::new(Some("public".to_owned()), "t".to_owned());
    assert_eq!(with_schema.insert_statement(), "INSERT INTO public.t VALUES ($1, $2, $3);");
    let bare = RisingWaveService::new(None, "t".to_owned());
    assert_eq!(bare.relation(), "t");
    assert!(bare.poll_ready());
}

#[test]
fn call_plan_inserts_each_record_then_flushes() {
    let service = RisingWaveService::new(None, "t".to_owned());
    let req = request_builder(logs(2), &Transformer::keep_all(), Codec::Text);
    let metadata = req.request_metadata;
    let plan = service.call(req);
    assert_eq!(plan.statement, "INSERT INTO t VALUES ($1, $2, $3);");
    assert_eq!(plan.flush, "FLUSH;");
    assert_eq!(plan.rows.len(), 2);
    assert_eq!(plan.rows[1].value, b"event 1".to_vec());
    assert_eq!(plan.rows[1].data_type, "Log");
    assert_eq!(plan.rows[1].source_id, None);
    assert_eq!(plan.response.byte_size, metadata.events_byte_size);
    assert_eq!(plan.response.bytes_sent(), Some(metadata.events_byte_size));
    assert_eq!(plan.response.event_status(), EventStatus::Delivered);
}

fn response() -> RisingWaveResponse {
    let req = request_builder(logs(1), &Transformer::keep_all(), Codec::Text);
    RisingWaveResponse::for_request(&req)
}

#[test]
fn retried_request_resolves_delivered_once() {
    let sink = config(BatchConfig::new()).build().unwrap();
    let mut req = sink.build_request(logs(3));
    let mut dispatch = sink.dispatch(&mut req);
    assert!(req.metadata.finalizers.is_empty());
    let logic = RisingWaveRetryLogic;
    assert!(matches!(dispatch.on_result(Err(DeliveryError::Other), &logic), DispatchAction::CallAgain));
    match dispatch.on_result(Ok(response()), &logic) {
        DispatchAction::Resolve(v) => assert_eq!(
            v,
            vec![(0, EventStatus::Delivered), (1, EventStatus::Delivered), (2, EventStatus::Delivered)]
        ),
        other => panic!("unexpected {:?}", other),
    }
    assert!(matches!(dispatch.on_result(Ok(response()), &logic), DispatchAction::Nothing));
}

#[test]
fn closed_connection_rejects_request() {
    let mut dispatch = Dispatch::new(vec![7], 5);
    match dispatch.on_result(Err(DeliveryError::ConnectionClosed), &RisingWaveRetryLogic) {
        DispatchAction::Resolve(v) => assert_eq!(v, vec![(7, EventStatus::Rejected)]),
        other => panic!("unexpected {:?}", other),
    }
}

#[test]
fn exhausted_retries_error_request() {
    let mut dispatch = Dispatch::new(vec![1, 2], 1);
    let logic = RisingWaveRetryLogic;
    assert!(matches!(dispatch.on_result(Err(DeliveryError::Other), &logic), DispatchAction::CallAgain));
    match dispatch.on_result(Err(DeliveryError::Other), &logic) {
        DispatchAction::Resolve(v) => {
            assert_eq!(v, vec![(1, EventStatus::Errored), (2, EventStatus::Errored)])
        }
        other => panic!("unexpected {:?}", other),
    }
}

#[test]
fn transformer_from_config_drops_fields() {
    let enc = EncodingConfig { codec: Codec::Json, except_fields: vec!["key".to_owned()] };
    let t = enc.transformer();
    assert!(t.excludes(&"key".to_owned()));
    assert!(!t.excludes(&"message".to_owned()));
    let mut e = Event::log("m".to_owned(), 1);
    e.insert("key".to_owned(), "v".to_owned());
    t.transform(&mut e);
    assert_eq!(e.fields, vec![("message".to_owned(), "m".to_owned())]);
}
