use vstd::prelude::*;
use crate::event::DataType;

verus! {

/// A count of events and the sum of their estimated sizes, both saturating.
#[derive(Clone, Copy, Debug, PartialEq, Eq, Structural)]
pub struct CountByteSize {
    pub count: usize,
    pub bytes: usize,
}

impl CountByteSize {
    /// The tally after one more event of `size` bytes.
    pub open spec fn added(self, size: usize) -> CountByteSize {
        CountByteSize { count: crate::encoding::capped(self.count + 1), bytes: crate::encoding::capped(self.bytes + size) }
    }

    pub fn new() -> (r: CountByteSize)
        ensures
            r.count == 0,
            r.bytes == 0,
    {
        CountByteSize { count: 0, bytes: 0 }
    }

    /// Counts one more event of `size` bytes.
    pub fn add_event(&mut self, size: usize)
        ensures
            *final(self) == old(self).added(size),
    {
        self.count = self.count.saturating_add(1);
        self.bytes = self.bytes.saturating_add(size);
    }
}

/// One encoded record: its payload, the kind of event it came from, and the
/// component that produced that event.
#[derive(Clone, Debug)]
pub struct RisingWaveBody {
    pub value: Vec<u8>,
    pub data_type: DataType,
    pub source_id: Option<String>,
}

/// The acknowledgement handles of every event a request was built from.
#[derive(Clone, Debug)]
pub struct RisingWaveRequestMetadata {
    pub finalizers: Vec<u64>,
}

/// Accounting of a request, taken from its batch before encoding.
#[derive(Clone, Copy, Debug, PartialEq, Eq, Structural)]
pub struct RequestMetadata {
    /// How many events the batch held.
    pub event_count: usize,
    /// The summed in-memory size of the batch's events.
    pub events_byte_size: usize,
    /// The events and their estimated JSON size once transformed.
    pub events_json_size: CountByteSize,
    /// How many records survived encoding.
    pub encoded_records: usize,
}

/// A batch in its encoded form, ready to be delivered.
#[derive(Clone, Debug)]
pub struct RisingWaveRequest {
    pub body: Vec<RisingWaveBody>,
    pub metadata: RisingWaveRequestMetadata,
    pub request_metadata: RequestMetadata,
}

impl RisingWaveRequest {
    /// Takes the acknowledgement handles out of the request, leaving none.
    pub fn take_finalizers(&mut self) -> (r: Vec<u64>)
        ensures
            r@ == old(self).metadata.finalizers@,
            final(self).metadata.finalizers@.len() == 0,
            final(self).body@ == old(self).body@,
            final(self).request_metadata == old(self).request_metadata,
    {
        let mut taken: Vec<u64> = Vec::new();
        std::mem::swap(&mut taken, &mut self.metadata.finalizers);
        taken
    }

    pub fn get_metadata(&self) -> (r: &RequestMetadata)
        ensures
            *r == self.request_metadata,
    {
        &self.request_metadata
    }

    pub fn metadata_mut(&mut self) -> (r: &mut RequestMetadata)
        ensures
            *r == old(self).request_metadata,
            final(self).request_metadata == *final(r),
            final(self).body@ == old(self).body@,
            final(self).metadata.finalizers@ == old(self).metadata.finalizers@,
    {
        &mut self.request_metadata
    }
}

/// What became of the events of a request.
#[derive(Clone, Copy, Debug, PartialEq, Eq, Structural)]
pub enum EventStatus {
    Delivered,
    Errored,
    Rejected,
}

/// The outcome of a delivery call that succeeded.
#[derive(Clone, Copy, Debug, PartialEq, Eq, Structural)]
pub struct RisingWaveResponse {
    pub event_byte_size: CountByteSize,
    pub byte_size: usize,
}

impl RisingWaveResponse {
    /// The response to a request whose records all reached the database.
    pub fn for_request(req: &RisingWaveRequest) -> (r: RisingWaveResponse)
        ensures
            r.event_byte_size == req.request_metadata.events_json_size,
            r.byte_size == req.request_metadata.events_byte_size,
    {
        RisingWaveResponse {
            event_byte_size: req.request_metadata.events_json_size,
            byte_size: req.request_metadata.events_byte_size,
        }
    }

    pub fn event_status(&self) -> (r: EventStatus)
        ensures
            r == EventStatus::Delivered,
    {
        EventStatus::Delivered
    }

    pub fn events_sent(&self) -> (r: CountByteSize)
        ensures
            r == self.event_byte_size,
    {
        self.event_byte_size
    }

    pub fn bytes_sent(&self) -> (r: Option<usize>)
        ensures
            r == Some(self.byte_size),
    {
        Some(self.byte_size)
    }
}

/// Why a delivery call failed.
#[derive(Clone, Copy, Debug, PartialEq, Eq, Structural)]
pub enum DeliveryError {
    /// The connection to the database is closed.
    ConnectionClosed,
    /// Any other failure of a statement or of the connection.
    Other,
}

/// Decides which failed calls are worth another attempt.
#[derive(Clone, Copy, Debug, Default)]
pub struct RisingWaveRetryLogic;

impl RisingWaveRetryLogic {
    /// A call over a closed connection can never succeed; every other
    /// failure is tried again.
    pub fn is_retriable_error(&self, error: &DeliveryError) -> (r: bool)
        ensures
            r == (*error != DeliveryError::ConnectionClosed),
    {
        match error {
            DeliveryError::ConnectionClosed => false,
            DeliveryError::Other => true,
        }
    }
}

/// The relation `schema.table`, or `table` alone where there is no schema.
pub open spec fn relation_spec(schema: Option<Seq<char>>, table: Seq<char>) -> Seq<char> {
    match schema {
        Some(s) => s + "."@ + table,
        None => table,
    }
}

/// The parameterised insert of one record into `relation`.
pub open spec fn insert_statement_spec(relation: Seq<char>) -> Seq<char> {
    "INSERT INTO "@ + relation + " VALUES ($1, $2, $3);"@
}

/// The statement that makes the inserted rows visible to readers.
pub open spec fn flush_statement_spec() -> Seq<char> {
    "FLUSH;"@
}

/// The parameters of one insert: source, tag and payload.
#[derive(Clone, Debug)]
pub struct InsertRow {
    pub source_id: Option<String>,
    pub data_type: String,
    pub value: Vec<u8>,
}

/// The view of an insert's parameters.
pub open spec fn row_view(r: InsertRow) -> (Option<Seq<char>>, Seq<char>, Seq<u8>) {
    (
        match r.source_id {
            Some(s) => Some(s@),
            None => None,
        },
        r.data_type@,
        r.value@,
    )
}

/// The insert parameters of an encoded record.
pub open spec fn row_of(b: RisingWaveBody) -> (Option<Seq<char>>, Seq<char>, Seq<u8>) {
    (crate::request_builder::source_view(b.source_id), b.data_type.spec_name(), b.value@)
}

/// The work of one delivery call: prepare `statement`, run it once per row in
/// order, run `flush`, and answer `response` where all of it succeeded.
#[derive(Clone, Debug)]
pub struct CallPlan {
    pub statement: String,
    pub rows: Vec<InsertRow>,
    pub flush: String,
    pub response: RisingWaveResponse,
}

/// Delivers requests into one relation over the shared connection.
#[derive(Clone, Debug)]
pub struct RisingWaveService {
    pub schema: Option<String>,
    pub table: String,
}

impl RisingWaveService {
    pub open spec fn schema_view(&self) -> Option<Seq<char>> {
        match self.schema {
            Some(s) => Some(s@),
            None => None,
        }
    }

    pub fn new(schema: Option<String>, table: String) -> (r: RisingWaveService)
        ensures
            r.schema == schema,
            r.table == table,
    {
        RisingWaveService { schema, table }
    }

    /// The service takes calls at any time.
    pub fn poll_ready(&self) -> (r: bool)
        ensures
            r,
    {
        true
    }

    /// The relation that rows are inserted into.
    pub fn relation(&self) -> (r: String)
        ensures
            r@ == relation_spec(self.schema_view(), self.table@),
    {
        match &self.schema {
            Some(s) => {
                let mut r = s.clone();
                r.append(".");
                r.append(self.table.as_str());
                r
            },
            None => self.table.clone(),
        }
    }

    /// The insert statement for this service's relation.
    pub fn insert_statement(&self) -> (r: String)
        ensures
            r@ == insert_statement_spec(relation_spec(self.schema_view(), self.table@)),
    {
        let relation = self.relation();
        let mut r = "INSERT INTO ".to_owned();
        r.append(relation.as_str());
        r.append(" VALUES ($1, $2, $3);");
        r
    }

    /// The work of delivering `req`: one insert per record, in order, then
    /// the flush, and the response built from the request's accounting.
    pub fn call(&self, req: RisingWaveRequest) -> (r: CallPlan)
        ensures
            r.statement@ == insert_statement_spec(relation_spec(self.schema_view(), self.table@)),
            r.flush@ == flush_statement_spec(),
            r.rows@.len() == req.body@.len(),
            forall|i: int|
                0 <= i < req.body@.len() ==> row_view(#[trigger] r.rows@[i]) == row_of(
                    req.body@[i],
                ),
            r.response.event_byte_size == req.request_metadata.events_json_size,
            r.response.byte_size == req.request_metadata.events_byte_size,
    {
        let statement = self.insert_statement();
        let response = RisingWaveResponse::for_request(&req);
        let ghost body = req.body@;
        let n = req.body.len();
        let mut rest = req.body;
        let mut rows: Vec<InsertRow> = Vec::new();
        let mut i: usize = 0;
        while i < n
            invariant
                n == body.len(),
                0 <= i <= n,
                rest@ == body.skip(i as int),
                rows@.len() == i,
                forall|j: int|
                    0 <= j < i ==> row_view(#[trigger] rows@[j]) == row_of(body[j]),
            decreases n - i,
        {
            let b = rest.remove(0);
            assert(b == body[i as int]);
            assert(rest@ =~= body.skip(i as int + 1));
            let data_type = b.data_type.name();
            rows.push(InsertRow { source_id: b.source_id, data_type, value: b.value });
            i = i + 1;
        }
        CallPlan { statement, rows, flush: "FLUSH;".to_owned(), response }
    }
}

} // verus!
