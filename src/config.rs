use vstd::prelude::*;
use crate::batch::{
    BatcherSettings, RisingWaveBatchSizer, RisingWaveDefaultBatchSettings, DEFAULT_MAX_EVENTS,
    DEFAULT_TIMEOUT_MS,
};
use crate::encoding::{names_view, Codec, Transformer};
use crate::event::DataType;
use crate::service::{RisingWaveRetryLogic, RisingWaveService};
use crate::sink::RisingWaveSink;

verus! {

/// Why a configuration cannot be used.
#[derive(Clone, Copy, Debug, PartialEq, Eq, Structural)]
pub enum ConfigError {
    /// The batch may hold no event.
    ZeroMaxEvents,
    /// The batch has a byte budget of nothing.
    ZeroMaxBytes,
}

/// Batch limits as configured; an absent limit takes the sink's default.
#[derive(Clone, Copy, Debug, PartialEq, Eq, Structural)]
pub struct BatchConfig {
    pub max_events: Option<usize>,
    pub max_bytes: Option<usize>,
    pub timeout_ms: Option<u64>,
}

/// The limits that `c` gives, or the error it holds.
pub open spec fn batcher_settings_spec(c: BatchConfig) -> Result<BatcherSettings, ConfigError> {
    if c.max_events == Some(0usize) {
        Err(ConfigError::ZeroMaxEvents)
    } else if c.max_bytes == Some(0usize) {
        Err(ConfigError::ZeroMaxBytes)
    } else {
        Ok(
            BatcherSettings {
                max_events: match c.max_events {
                    Some(n) => n,
                    None => DEFAULT_MAX_EVENTS,
                },
                max_bytes: c.max_bytes,
                timeout_ms: match c.timeout_ms {
                    Some(t) => t,
                    None => DEFAULT_TIMEOUT_MS,
                },
            },
        )
    }
}

impl BatchConfig {
    /// Every limit at its default.
    pub fn new() -> (r: BatchConfig)
        ensures
            r.max_events.is_none(),
            r.max_bytes.is_none(),
            r.timeout_ms.is_none(),
    {
        BatchConfig { max_events: None, max_bytes: None, timeout_ms: None }
    }

    /// The limits that a batcher works with.
    pub fn into_batcher_settings(&self) -> (r: Result<BatcherSettings, ConfigError>)
        ensures
            r == batcher_settings_spec(*self),
            r matches Ok(s) ==> s.max_events > 0,
    {
        let d = RisingWaveDefaultBatchSettings::settings();
        match self.max_events {
            Some(0) => {
                return Err(ConfigError::ZeroMaxEvents);
            },
            _ => {},
        }
        match self.max_bytes {
            Some(0) => {
                return Err(ConfigError::ZeroMaxBytes);
            },
            _ => {},
        }
        let max_events = match self.max_events {
            Some(n) => n,
            None => d.max_events,
        };
        let timeout_ms = match self.timeout_ms {
            Some(t) => t,
            None => d.timeout_ms,
        };
        Ok(BatcherSettings { max_events, max_bytes: self.max_bytes, timeout_ms })
    }
}

/// The serializer of the records and the fields dropped before it.
#[derive(Clone, Debug)]
pub struct EncodingConfig {
    pub codec: Codec,
    pub except_fields: Vec<String>,
}

impl EncodingConfig {
    /// The transformer that drops the configured fields.
    pub fn transformer(&self) -> (r: Transformer)
        ensures
            r.except_view() == names_view(self.except_fields@),
    {
        let n = self.except_fields.len();
        let mut names: Vec<String> = Vec::new();
        let mut i: usize = 0;
        while i < n
            invariant
                n == self.except_fields@.len(),
                0 <= i <= n,
                names_view(names@) == names_view(self.except_fields@.take(i as int)),
            decreases n - i,
        {
            let ghost before = names_view(names@);
            names.push(self.except_fields[i].clone());
            assert(names_view(names@) =~= before.push(self.except_fields@[i as int]@));
            assert(names_view(self.except_fields@.take(i as int + 1)) =~= names_view(
                self.except_fields@.take(i as int),
            ).push(self.except_fields@[i as int]@));
            i = i + 1;
        }
        assert(self.except_fields@.take(n as int) =~= self.except_fields@);
        Transformer::new(names)
    }
}

/// How delivery calls are driven: how many may be in flight, and how many
/// times a failed call is tried again.
#[derive(Clone, Copy, Debug, PartialEq, Eq, Structural)]
pub struct RequestConfig {
    pub concurrency: usize,
    pub retry_attempts: u64,
}

/// Configuration of the sink: where the database is, which relation takes
/// the rows, how events are encoded and batched, and how calls are driven.
#[derive(Clone, Debug)]
pub struct RisingWaveConfig {
    pub host: String,
    pub port: u16,
    pub database: String,
    pub schema: Option<String>,
    pub table: String,
    pub user: String,
    pub password: Option<String>,
    pub request: RequestConfig,
    pub encoding: EncodingConfig,
    pub batch: BatchConfig,
    pub acknowledgements: bool,
}

/// An example configuration, in TOML.
pub open spec fn example_config() -> Seq<char> {
    "host = \"localhost\"\nport = 4566\ndatabase = \"dev\"\nuser = \"root\"\ntable = \"t\"\nencoding.codec = \"json\"\n"@
}

impl RisingWaveConfig {
    /// An example configuration, in TOML.
    pub fn generate_config() -> (r: String)
        ensures
            r@ == example_config(),
    {
        "host = \"localhost\"\nport = 4566\ndatabase = \"dev\"\nuser = \"root\"\ntable = \"t\"\nencoding.codec = \"json\"\n".to_owned()
    }

    /// The service that delivers into the configured relation.
    pub fn service(&self) -> (r: RisingWaveService)
        ensures
            r.schema_view() == match self.schema {
                Some(s) => Some(s@),
                None => None,
            },
            r.table@ == self.table@,
    {
        let schema = match &self.schema {
            Some(s) => Some(s.clone()),
            None => None,
        };
        RisingWaveService::new(schema, self.table.clone())
    }

    /// The parts of the sink, or the error of its batch limits.
    pub fn build(&self) -> (r: Result<RisingWaveSink, ConfigError>)
        ensures
            r is Err <==> batcher_settings_spec(self.batch) is Err,
            r matches Err(e) ==> batcher_settings_spec(self.batch) == Err::<BatcherSettings, _>(e),
            r matches Ok(s) ==> {
                &&& Ok::<_, ConfigError>(s.batch_settings) == batcher_settings_spec(self.batch)
                &&& s.transformer.except_view() == names_view(self.encoding.except_fields@)
                &&& s.sizer.codec == self.encoding.codec
                &&& s.max_retries == self.request.retry_attempts
                &&& s.service.table@ == self.table@
            },
    {
        let batch_settings = match self.batch.into_batcher_settings() {
            Ok(s) => s,
            Err(e) => {
                return Err(e);
            },
        };
        Ok(
            RisingWaveSink {
                transformer: self.encoding.transformer(),
                sizer: RisingWaveBatchSizer { codec: self.encoding.codec },
                service: self.service(),
                retry_logic: RisingWaveRetryLogic,
                batch_settings,
                max_retries: self.request.retry_attempts,
            },
        )
    }

    /// The kind of event that the sink takes.
    pub fn input(&self) -> (r: DataType)
        ensures
            r == DataType::Log,
    {
        DataType::Log
    }

    /// Whether the sink acknowledges events only once they are delivered.
    pub fn acknowledgements(&self) -> (r: bool)
        ensures
            r == self.acknowledgements,
    {
        self.acknowledgements
    }
}

} // verus!
