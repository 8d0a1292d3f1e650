use vstd::prelude::*;
use crate::encoding::{capped, estimated_json_size, json_size_spec, memory_size, memory_size_spec, Codec};
use crate::event::Event;

verus! {

/// Estimates the encoded size of events, to decide when a batch is full.
#[derive(Clone, Copy, Debug)]
pub struct RisingWaveBatchSizer {
    pub codec: Codec,
}

/// The estimate for `event` under `codec`: the JSON estimate for the JSON
/// codecs, the in-memory size for any other.
pub open spec fn size_spec(codec: Codec, event: Event) -> usize {
    if codec.is_json() {
        json_size_spec(event.fields_spec())
    } else {
        memory_size_spec(event.fields_spec())
    }
}

impl RisingWaveBatchSizer {
    pub fn estimated_size_of(&self, event: &Event) -> (r: usize)
        ensures
            r == size_spec(self.codec, *event),
    {
        match self.codec {
            Codec::Json | Codec::NativeJson => estimated_json_size(event),
            Codec::Text => memory_size(event),
        }
    }

    pub fn size(&self, event: &Event) -> (r: usize)
        ensures
            r == size_spec(self.codec, *event),
    {
        self.estimated_size_of(event)
    }
}

/// The summed estimate of `events` under `codec`.
pub open spec fn size_total(codec: Codec, events: Seq<Event>) -> int
    decreases events.len(),
{
    if events.len() == 0 {
        0
    } else {
        size_total(codec, events.drop_last()) + size_spec(codec, events.last())
    }
}

/// The limits that close a batch: a number of events, an optional byte
/// budget, and the time since its first event.
#[derive(Clone, Copy, Debug, PartialEq, Eq, Structural)]
pub struct BatcherSettings {
    pub max_events: usize,
    pub max_bytes: Option<usize>,
    pub timeout_ms: u64,
}

/// The most events in a batch, unless configured otherwise.
pub const DEFAULT_MAX_EVENTS: usize = 50;

/// How long a batch may gather events, in milliseconds, unless configured otherwise.
pub const DEFAULT_TIMEOUT_MS: u64 = 1000;

/// The default batch limits of the sink.
#[derive(Clone, Copy, Debug, Default)]
pub struct RisingWaveDefaultBatchSettings;

impl RisingWaveDefaultBatchSettings {
    /// Fifty events, no byte budget, one second.
    pub fn settings() -> (r: BatcherSettings)
        ensures
            r.max_events == DEFAULT_MAX_EVENTS,
            r.max_bytes.is_none(),
            r.timeout_ms == DEFAULT_TIMEOUT_MS,
    {
        BatcherSettings { max_events: DEFAULT_MAX_EVENTS, max_bytes: None, timeout_ms: DEFAULT_TIMEOUT_MS }
    }
}

/// Whether a batch of `events` keeps within the byte budget: a batch of
/// one event always does.
pub open spec fn within_budget(s: BatcherSettings, codec: Codec, events: Seq<Event>) -> bool {
    match s.max_bytes {
        Some(m) => events.len() > 1 ==> capped(size_total(codec, events)) <= m,
        None => true,
    }
}

/// Whether `b` is a batch that the settings allow.
pub open spec fn batch_ok(s: BatcherSettings, codec: Codec, b: Seq<Event>) -> bool {
    0 < b.len() <= s.max_events && within_budget(s, codec, b)
}

/// The events of the batches, in order.
pub open spec fn joined(batches: Seq<Vec<Event>>) -> Seq<Event> {
    batches.map_values(|b: Vec<Event>| b@).flatten()
}

/// Gathers events into batches, closing a batch when it holds the most
/// events allowed, when the next event would pass the byte budget, or when
/// its first event is as old as the timeout.
#[derive(Debug)]
pub struct Batcher {
    pub settings: BatcherSettings,
    pub sizer: RisingWaveBatchSizer,
    pub items: Vec<Event>,
    pub bytes: usize,
    pub opened_at_ms: u64,
}

impl Batcher {
    pub open spec fn settings_spec(&self) -> BatcherSettings {
        self.settings
    }

    pub open spec fn codec_spec(&self) -> Codec {
        self.sizer.codec
    }

    /// The events of the open batch.
    pub open spec fn pending(&self) -> Seq<Event> {
        self.items@
    }

    /// When the open batch was started.
    pub open spec fn opened_at(&self) -> u64 {
        self.opened_at_ms
    }

    pub open spec fn wf(&self) -> bool {
        &&& self.settings.max_events > 0
        &&& self.items@.len() < self.settings.max_events
        &&& self.bytes == capped(size_total(self.sizer.codec, self.items@))
        &&& within_budget(self.settings, self.sizer.codec, self.items@)
    }

    pub fn new(settings: BatcherSettings, sizer: RisingWaveBatchSizer) -> (r: Batcher)
        requires
            settings.max_events > 0,
        ensures
            r.wf(),
            r.settings_spec() == settings,
            r.codec_spec() == sizer.codec,
            r.pending().len() == 0,
    {
        Batcher { settings, sizer, items: Vec::new(), bytes: 0, opened_at_ms: 0 }
    }

    /// Closes the open batch and hands it out.
    fn close(&mut self) -> (r: Vec<Event>)
        ensures
            r@ == old(self).items@,
            final(self).items@.len() == 0,
            final(self).bytes == 0,
            final(self).settings == old(self).settings,
            final(self).sizer == old(self).sizer,
            final(self).opened_at_ms == old(self).opened_at_ms,
    {
        let mut out: Vec<Event> = Vec::new();
        std::mem::swap(&mut out, &mut self.items);
        self.bytes = 0;
        out
    }

    /// Adds `event`, which arrives at `now_ms`, and hands out the batches
    /// that this closes, in order.
    pub fn push(&mut self, event: Event, now_ms: u64) -> (r: Vec<Vec<Event>>)
        requires
            old(self).wf(),
        ensures
            final(self).wf(),
            final(self).settings_spec() == old(self).settings_spec(),
            final(self).codec_spec() == old(self).codec_spec(),
            joined(r@) + final(self).pending() == old(self).pending().push(event),
            forall|i: int|
                0 <= i < r@.len() ==> batch_ok(
                    old(self).settings_spec(),
                    old(self).codec_spec(),
                    #[trigger] r@[i]@,
                ),
            final(self).pending().len() > 0 ==> final(self).opened_at() == if old(
                self,
            ).pending().len() > 0 && final(self).pending().len() > 1 {
                old(self).opened_at()
            } else {
                now_ms
            },
    {
        let size = self.sizer.size(&event);
        let ghost codec = self.sizer.codec;
        let ghost old_items = self.items@;
        let mut out: Vec<Vec<Event>> = Vec::new();
        let over_budget = match self.settings.max_bytes {
            Some(m) => self.items.len() > 0 && self.bytes.saturating_add(size) > m,
            None => false,
        };
        if over_budget {
            let b = self.close();
            out.push(b);
        }
        if self.items.len() == 0 {
            self.opened_at_ms = now_ms;
        }
        let ghost before = self.items@;
        self.items.push(event);
        self.bytes = self.bytes.saturating_add(size);
        assert(self.items@.drop_last() =~= before);
        proof {
            lemma_size_total_nonneg(codec, before);
        }
        if self.items.len() == self.settings.max_events {
            let b = self.close();
            out.push(b);
        }
        proof {
            let v = out@.map_values(|b: Vec<Event>| b@);
            if out@.len() == 1 {
                assert(v =~= seq![out@[0]@]);
                v.lemma_flatten_singleton();
            } else if out@.len() == 2 {
                assert(v =~= seq![out@[0]@].push(out@[1]@));
                seq![out@[0]@].lemma_flatten_singleton();
                seq![out@[0]@].lemma_flatten_push(out@[1]@);
            } else {
                assert(v =~= Seq::<Seq<Event>>::empty());
            }
            assert(joined(out@) + self.items@ =~= old_items.push(event));
        }
        out
    }

    /// Closes the open batch where its first event is as old as the timeout
    /// at `now_ms`.
    pub fn poll(&mut self, now_ms: u64) -> (r: Option<Vec<Event>>)
        requires
            old(self).wf(),
        ensures
            final(self).wf(),
            final(self).settings_spec() == old(self).settings_spec(),
            final(self).codec_spec() == old(self).codec_spec(),
            final(self).opened_at() == old(self).opened_at(),
            match r {
                Some(b) => b@ == old(self).pending() && final(self).pending().len() == 0 && batch_ok(
                    old(self).settings_spec(),
                    old(self).codec_spec(),
                    b@,
                ),
                None => final(self).pending() == old(self).pending(),
            },
            final(self).pending().len() > 0 ==> now_ms < old(self).opened_at() || now_ms
                - old(self).opened_at() < old(self).settings_spec().timeout_ms,
    {
        if self.items.len() > 0 && now_ms >= self.opened_at_ms && now_ms - self.opened_at_ms
            >= self.settings.timeout_ms {
            let b = self.close();
            Some(b)
        } else {
            None
        }
    }

    /// Closes the open batch, if it holds any event, once the input has ended.
    pub fn finish(&mut self) -> (r: Option<Vec<Event>>)
        requires
            old(self).wf(),
        ensures
            final(self).wf(),
            final(self).pending().len() == 0,
            match r {
                Some(b) => b@ == old(self).pending() && batch_ok(
                    old(self).settings_spec(),
                    old(self).codec_spec(),
                    b@,
                ),
                None => old(self).pending().len() == 0,
            },
    {
        if self.items.len() > 0 {
            Some(self.close())
        } else {
            None
        }
    }
}

pub proof fn lemma_size_total_nonneg(codec: Codec, events: Seq<Event>)
    ensures
        size_total(codec, events) >= 0,
    decreases events.len(),
{
    if events.len() > 0 {
        lemma_size_total_nonneg(codec, events.drop_last());
    }
}

} // verus!
