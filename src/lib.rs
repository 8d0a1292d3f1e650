//! A delivery sink that writes observability events into a RisingWave
//! relation: size estimation for batching, request building, the plan of
//! each delivery call, retry classification and the dispatch state machine
//! that resolves acknowledgements.

mod batch;
mod config;
mod encoding;
mod event;
mod json;
mod request_builder;
mod service;
mod sink;

pub use batch::{
    Batcher, BatcherSettings, RisingWaveBatchSizer, RisingWaveDefaultBatchSettings,
    DEFAULT_MAX_EVENTS, DEFAULT_TIMEOUT_MS,
};
pub use config::{BatchConfig, ConfigError, EncodingConfig, RequestConfig, RisingWaveConfig};
pub use encoding::{estimated_json_size, memory_size, Codec, Transformer};
pub use event::{DataType, Event};
pub use request_builder::{
    encode_event, encode_events, lemma_field_exclusion, lemma_message_round_trip,
    request_builder,
};
pub use service::{
    CallPlan, CountByteSize, DeliveryError, EventStatus, InsertRow, RequestMetadata,
    RisingWaveBody, RisingWaveRequest, RisingWaveRequestMetadata, RisingWaveResponse,
    RisingWaveRetryLogic, RisingWaveService,
};
pub use sink::{Dispatch, DispatchAction, RisingWaveSink};
