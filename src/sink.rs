use vstd::prelude::*;
use crate::batch::{Batcher, BatcherSettings, RisingWaveBatchSizer};
use crate::event::Event;
use crate::request_builder::{body_view, finalizers_of, records_spec, request_builder};
use crate::encoding::Transformer;
use crate::service::{
    DeliveryError, EventStatus, RisingWaveBody, RisingWaveRequest, RisingWaveResponse,
    RisingWaveRetryLogic, RisingWaveService,
};

verus! {

/// The sink: what shapes events into batches and requests, and what
/// delivers them.
#[derive(Debug)]
pub struct RisingWaveSink {
    pub transformer: Transformer,
    pub sizer: RisingWaveBatchSizer,
    pub service: RisingWaveService,
    pub retry_logic: RisingWaveRetryLogic,
    pub batch_settings: BatcherSettings,
    pub max_retries: u64,
}

impl RisingWaveSink {
    /// A batcher with the sink's limits and size estimate.
    pub fn batcher(&self) -> (r: Batcher)
        requires
            self.batch_settings.max_events > 0,
        ensures
            r.wf(),
            r.settings_spec() == self.batch_settings,
            r.codec_spec() == self.sizer.codec,
            r.pending().len() == 0,
    {
        Batcher::new(self.batch_settings, self.sizer)
    }

    /// The request for a closed batch.
    pub fn build_request(&self, events: Vec<Event>) -> (r: RisingWaveRequest)
        ensures
            r.metadata.finalizers@ == finalizers_of(events@),
            r.body@.map_values(|b: RisingWaveBody| body_view(b)) == records_spec(
                self.sizer.codec,
                self.transformer.except_view(),
                events@,
            ),
            r.request_metadata.event_count == events@.len(),
    {
        request_builder(events, &self.transformer, self.sizer.codec)
    }

    /// The dispatch of `req`, which takes its acknowledgement handles along.
    pub fn dispatch(&self, req: &mut RisingWaveRequest) -> (r: Dispatch)
        ensures
            r.finalizers@ == old(req).metadata.finalizers@,
            r.retries == 0,
            r.max_retries == self.max_retries,
            !r.settled,
            final(req).body@ == old(req).body@,
            final(req).request_metadata == old(req).request_metadata,
    {
        Dispatch::new(req.take_finalizers(), self.max_retries)
    }
}

/// What the driver does after a delivery call has returned.
#[derive(Debug)]
pub enum DispatchAction {
    /// Call the delivery service again with the same request.
    CallAgain,
    /// Resolve each acknowledgement handle to its status.
    Resolve(Vec<(u64, EventStatus)>),
    /// The request was settled before: nothing is left to do.
    Nothing,
}

/// Each handle paired with `status`.
pub open spec fn resolved(finalizers: Seq<u64>, status: EventStatus) -> Seq<(u64, EventStatus)> {
    finalizers.map_values(|f: u64| (f, status))
}

/// The status that a failed call leaves where no attempt remains: rejected
/// where the failure cannot be retried, errored where the retries ran out.
pub open spec fn failure_status(retriable: bool) -> EventStatus {
    if retriable {
        EventStatus::Errored
    } else {
        EventStatus::Rejected
    }
}

/// The dispatch of one request: its acknowledgement handles, how many
/// attempts have failed, how many retries are allowed, and whether the
/// request has been settled.
#[derive(Debug)]
pub struct Dispatch {
    pub finalizers: Vec<u64>,
    pub retries: u64,
    pub max_retries: u64,
    pub settled: bool,
}

impl Dispatch {
    pub fn new(finalizers: Vec<u64>, max_retries: u64) -> (r: Dispatch)
        ensures
            r.finalizers == finalizers,
            r.retries == 0,
            r.max_retries == max_retries,
            !r.settled,
    {
        Dispatch { finalizers, retries: 0, max_retries, settled: false }
    }

    fn resolve_all(&self, status: EventStatus) -> (r: Vec<(u64, EventStatus)>)
        ensures
            r@ == resolved(self.finalizers@, status),
    {
        let n = self.finalizers.len();
        let mut r: Vec<(u64, EventStatus)> = Vec::new();
        let mut i: usize = 0;
        while i < n
            invariant
                n == self.finalizers@.len(),
                0 <= i <= n,
                r@ == resolved(self.finalizers@.take(i as int), status),
            decreases n - i,
        {
            r.push((self.finalizers[i], status));
            assert(r@ =~= resolved(self.finalizers@.take(i as int + 1), status));
            i = i + 1;
        }
        assert(self.finalizers@.take(n as int) =~= self.finalizers@);
        r
    }

    /// Decides what follows the outcome of a delivery call. A success
    /// resolves every handle as delivered; a failure is retried while the
    /// retry logic allows it and retries remain, and otherwise resolves every
    /// handle as failed. A settled request is never resolved again.
    pub fn on_result(
        &mut self,
        result: Result<RisingWaveResponse, DeliveryError>,
        logic: &RisingWaveRetryLogic,
    ) -> (r: DispatchAction)
        ensures
            final(self).finalizers == old(self).finalizers,
            final(self).max_retries == old(self).max_retries,
            old(self).settled ==> r is Nothing && *final(self) == *old(self),
            !old(self).settled ==> match result {
                Ok(_) => final(self).settled && (r matches DispatchAction::Resolve(v) && v@
                    == resolved(old(self).finalizers@, EventStatus::Delivered)),
                Err(e) => if e != DeliveryError::ConnectionClosed && old(self).retries
                    < old(self).max_retries {
                    r is CallAgain && !final(self).settled && final(self).retries == old(
                        self,
                    ).retries + 1
                } else {
                    final(self).settled && (r matches DispatchAction::Resolve(v) && v@
                        == resolved(
                        old(self).finalizers@,
                        failure_status(e != DeliveryError::ConnectionClosed),
                    ))
                },
            },
    {
        if self.settled {
            return DispatchAction::Nothing;
        }
        match result {
            Ok(response) => {
                self.settled = true;
                DispatchAction::Resolve(self.resolve_all(response.event_status()))
            },
            Err(e) => {
                let retriable = logic.is_retriable_error(&e);
                if retriable && self.retries < self.max_retries {
                    self.retries = self.retries + 1;
                    DispatchAction::CallAgain
                } else {
                    self.settled = true;
                    let status = if retriable {
                        EventStatus::Errored
                    } else {
                        EventStatus::Rejected
                    };
                    DispatchAction::Resolve(self.resolve_all(status))
                }
            },
        }
    }
}

} // verus!
