use vstd::prelude::*;
use vstd::utf8::{decode_utf8, encode_utf8};
use crate::encoding::{capped, lemma_kept_fields_exclude, json_size_spec, kept_fields, memory_size, memory_size_spec, Codec, Transformer};
use crate::event::{fields_view, has_key, lookup, message_key, DataType, Event, FieldView};
use crate::json::{entries_of, json_object, json_text_of, lemma_entries_of_absent};
use crate::service::{
    CountByteSize, RequestMetadata, RisingWaveBody, RisingWaveRequest, RisingWaveRequestMetadata,
};

verus! {

/// The text payload of an event with these fields: its message as UTF-8,
/// or nothing where it has none.
pub open spec fn text_payload(f: Seq<FieldView>) -> Seq<u8> {
    match lookup(f, message_key()) {
        Some(m) => encode_utf8(m),
        None => seq![],
    }
}

/// The fields of `event` that the transformer keeps.
pub open spec fn transformed(t: &Transformer, event: &Event) -> Seq<FieldView> {
    kept_fields(t.except_view(), event.fields_spec())
}

/// The text payload of a list of fields.
fn text_of(fields: &Vec<(String, String)>) -> (r: Vec<u8>)
    ensures
        r@ == text_payload(fields_view(fields@)),
{
    let ghost f = fields_view(fields@);
    let n = fields.len();
    let key = "message".to_owned();
    let mut i: usize = 0;
    assert(f.skip(0) =~= f);
    while i < n
        invariant
            n == fields@.len(),
            f == fields_view(fields@),
            key@ == message_key(),
            0 <= i <= n,
            lookup(f, message_key()) == lookup(f.skip(i as int), message_key()),
        decreases n - i,
    {
        assert(f.skip(i as int).drop_first() =~= f.skip(i as int + 1));
        assert(f.skip(i as int)[0] == f[i as int]);
        assert(f[i as int] == (fields@[i as int].0@, fields@[i as int].1@));
        if fields[i].0 == key {
            return vstd::slice::slice_to_vec(fields[i].1.as_str().as_bytes());
        }
        i = i + 1;
    }
    Vec::new()
}

/// The view of an encoded record: payload, tag and source.
pub type BodyView = (Seq<u8>, DataType, Option<Seq<char>>);

pub open spec fn source_view(s: Option<String>) -> Option<Seq<char>> {
    match s {
        Some(x) => Some(x@),
        None => None,
    }
}

pub open spec fn body_view(b: RisingWaveBody) -> BodyView {
    (b.value@, b.data_type, source_view(b.source_id))
}

/// The payload of an event with fields `f` under `codec`, where it can be encoded.
pub open spec fn encoded_value(codec: Codec, f: Seq<FieldView>) -> Option<Seq<u8>> {
    if codec == Codec::Text {
        Some(text_payload(f))
    } else {
        json_text_of(entries_of(f))
    }
}

/// The record of `event`, or `None` where the event cannot be encoded: it is
/// no log event, or the serializer refuses its fields.
pub open spec fn encode_spec(codec: Codec, except: Seq<Seq<char>>, event: Event) -> Option<BodyView> {
    if event.data_type != DataType::Log {
        None
    } else {
        match encoded_value(codec, kept_fields(except, event.fields_spec())) {
            Some(v) => Some((v, event.data_type, source_view(event.source_id))),
            None => None,
        }
    }
}

/// Encodes one event after the transformer has dropped its configured
/// fields, and counts its transformed size into `byte_size`. Only log events
/// can be encoded; any other, or one that the serializer rejects, gives
/// `None`.
pub fn encode_event(
    event: Event,
    transformer: &Transformer,
    codec: Codec,
    byte_size: &mut CountByteSize,
) -> (r: Option<RisingWaveBody>)
    ensures
        *final(byte_size) == old(byte_size).added(json_size_spec(transformed(transformer, &event))),
        encode_spec(codec, transformer.except_view(), event) == match r {
            Some(b) => Some(body_view(b)),
            None => None,
        },
{
    let mut event = event;
    transformer.transform(&mut event);
    byte_size.add_event(crate::encoding::estimated_json_size(&event));
    let data_type = event.data_type;
    if data_type != DataType::Log {
        return None;
    }
    let value = match codec {
        Codec::Text => text_of(&event.fields),
        Codec::Json | Codec::NativeJson => match json_object(&event.fields) {
            Some(v) => v,
            None => {
                return None;
            },
        },
    };
    Some(RisingWaveBody { value, data_type, source_id: event.source_id })
}

/// The records of `events` that can be encoded, in order.
pub open spec fn records_spec(codec: Codec, except: Seq<Seq<char>>, events: Seq<Event>) -> Seq<
    BodyView,
>
    decreases events.len(),
{
    if events.len() == 0 {
        seq![]
    } else {
        let r = records_spec(codec, except, events.drop_last());
        match encode_spec(codec, except, events.last()) {
            Some(b) => r.push(b),
            None => r,
        }
    }
}

/// The tally of `events` once transformed, added to `acc`.
pub open spec fn json_tally(acc: CountByteSize, except: Seq<Seq<char>>, events: Seq<Event>) -> CountByteSize
    decreases events.len(),
{
    if events.len() == 0 {
        acc
    } else {
        json_tally(acc, except, events.drop_last()).added(
            json_size_spec(kept_fields(except, events.last().fields_spec())),
        )
    }
}

/// Encodes every event in order, dropping those that cannot be encoded, and
/// tallies their transformed sizes from `byte_size` on.
pub fn encode_events(
    events: Vec<Event>,
    transformer: &Transformer,
    codec: Codec,
    byte_size: &mut CountByteSize,
) -> (r: Vec<RisingWaveBody>)
    ensures
        r@.map_values(|b: RisingWaveBody| body_view(b)) == records_spec(
            codec,
            transformer.except_view(),
            events@,
        ),
        *final(byte_size) == json_tally(*old(byte_size), transformer.except_view(), events@),
{
    let ghost all = events@;
    let ghost except = transformer.except_view();
    let n = events.len();
    let mut rest = events;
    let mut out: Vec<RisingWaveBody> = Vec::new();
    let mut i: usize = 0;
    assert(all.take(0) =~= seq![]);
    while i < n
        invariant
            n == all.len(),
            except == transformer.except_view(),
            0 <= i <= n,
            rest@ == all.skip(i as int),
            out@.map_values(|b: RisingWaveBody| body_view(b)) == records_spec(
                codec,
                except,
                all.take(i as int),
            ),
            *byte_size == json_tally(*old(byte_size), except, all.take(i as int)),
        decreases n - i,
    {
        assert(all.take(i as int + 1).drop_last() =~= all.take(i as int));
        let event = rest.remove(0);
        assert(rest@ =~= all.skip(i as int + 1));
        let ghost before = out@.map_values(|b: RisingWaveBody| body_view(b));
        let encoded = encode_event(event, transformer, codec, byte_size);
        match encoded {
            Some(b) => {
                out.push(b);
                assert(out@.map_values(|b: RisingWaveBody| body_view(b)) =~= before.push(
                    body_view(b),
                ));
            },
            None => {},
        }
        i = i + 1;
    }
    assert(all.take(n as int) =~= all);
    out
}

/// The acknowledgement handles of `events`, in order.
pub open spec fn finalizers_of(events: Seq<Event>) -> Seq<u64> {
    events.map_values(|e: Event| e.finalizer)
}

/// The summed in-memory size of `events`.
pub open spec fn memory_total(events: Seq<Event>) -> int
    decreases events.len(),
{
    if events.len() == 0 {
        0
    } else {
        memory_total(events.drop_last()) + memory_size_spec(events.last().fields_spec())
    }
}

/// The acknowledgement handles of every event, taken before anything is encoded.
fn take_finalizers(events: &Vec<Event>) -> (r: Vec<u64>)
    ensures
        r@ == finalizers_of(events@),
{
    let n = events.len();
    let mut r: Vec<u64> = Vec::new();
    let mut i: usize = 0;
    while i < n
        invariant
            n == events@.len(),
            0 <= i <= n,
            r@ == finalizers_of(events@.take(i as int)),
        decreases n - i,
    {
        assert(events@.take(i as int + 1) =~= events@.take(i as int).push(events@[i as int]));
        r.push(events[i].finalizer);
        assert(r@ =~= finalizers_of(events@.take(i as int + 1)));
        i = i + 1;
    }
    assert(events@.take(n as int) =~= events@);
    r
}

/// The summed in-memory size of `events`, capped at the largest `usize`.
fn events_byte_size(events: &Vec<Event>) -> (r: usize)
    ensures
        r == capped(memory_total(events@)),
{
    let n = events.len();
    let mut acc: usize = 0;
    let mut i: usize = 0;
    while i < n
        invariant
            n == events@.len(),
            0 <= i <= n,
            acc == capped(memory_total(events@.take(i as int))),
        decreases n - i,
    {
        assert(events@.take(i as int + 1).drop_last() =~= events@.take(i as int));
        proof {
            lemma_memory_total_nonneg(events@.take(i as int));
        }
        acc = acc.saturating_add(memory_size(&events[i]));
        i = i + 1;
    }
    assert(events@.take(n as int) =~= events@);
    acc
}

proof fn lemma_memory_total_nonneg(events: Seq<Event>)
    ensures
        memory_total(events) >= 0,
    decreases events.len(),
{
    if events.len() > 0 {
        lemma_memory_total_nonneg(events.drop_last());
    }
}

/// Builds the request for a batch: the acknowledgement handles of every
/// event and the batch's accounting are taken first, then each event is
/// encoded in order and those that cannot be encoded are left out.
pub fn request_builder(events: Vec<Event>, transformer: &Transformer, codec: Codec) -> (r:
    RisingWaveRequest)
    ensures
        r.metadata.finalizers@ == finalizers_of(events@),
        r.body@.map_values(|b: RisingWaveBody| body_view(b)) == records_spec(
            codec,
            transformer.except_view(),
            events@,
        ),
        r.request_metadata.event_count == events@.len(),
        r.request_metadata.events_byte_size == capped(memory_total(events@)),
        r.request_metadata.events_json_size == json_tally(
            CountByteSize { count: 0, bytes: 0 },
            transformer.except_view(),
            events@,
        ),
        r.request_metadata.encoded_records == r.body@.len(),
{
    let finalizers = take_finalizers(&events);
    let event_count = events.len();
    let byte_size = events_byte_size(&events);
    let mut json_size = CountByteSize::new();
    let body = encode_events(events, transformer, codec, &mut json_size);
    let request_metadata = RequestMetadata {
        event_count,
        events_byte_size: byte_size,
        events_json_size: json_size,
        encoded_records: body.len(),
    };
    RisingWaveRequest { body, metadata: RisingWaveRequestMetadata { finalizers }, request_metadata }
}

/// A log event whose only field is its message, with no source, encodes
/// under the text codec to exactly the UTF-8 bytes of the message, which
/// decode back to the message; under the JSON codecs it encodes to the JSON
/// object whose one entry maps the message key to the message.
pub proof fn lemma_message_round_trip(event: Event, except: Seq<Seq<char>>, message: Seq<char>)
    requires
        event.data_type == DataType::Log,
        event.fields_spec() == seq![(message_key(), message)],
        event.source_id.is_none(),
        !except.contains(message_key()),
    ensures
        encode_spec(Codec::Text, except, event) == Some::<BodyView>(
            (encode_utf8(message), DataType::Log, None),
        ),
        decode_utf8(encode_utf8(message)) == message,
        encode_spec(Codec::Json, except, event) == match json_text_of(
            map![message_key() => message],
        ) {
            Some(v) => Some::<BodyView>((v, DataType::Log, None)),
            None => None,
        },
{
    let f = event.fields_spec();
    assert(f.drop_last() =~= Seq::<FieldView>::empty());
    assert(f.last() == (message_key(), message));
    assert(kept_fields(except, f.drop_last()) == Seq::<FieldView>::empty());
    assert(kept_fields(except, f) =~= f);
    assert(lookup(f, message_key()) == Some(message));
    assert(entries_of(f.drop_last()) == crate::json::no_entries());
    assert(entries_of(f) =~= map![message_key() => message]);
    vstd::utf8::encode_utf8_valid_utf8(message);
    vstd::utf8::encode_utf8_decode_utf8(message);
}

/// No field named in the transformer's exclusions reaches the encoder: the
/// fields that are encoded never include one of that name, and the JSON
/// object of an encoded event has no key of that name.
pub proof fn lemma_field_exclusion(t: Transformer, event: Event, key: Seq<char>)
    requires
        t.except_view().contains(key),
    ensures
        !has_key(transformed(&t, &event), key),
        !entries_of(transformed(&t, &event)).dom().contains(key),
{
    lemma_kept_fields_exclude(t.except_view(), event.fields_spec(), key);
    lemma_entries_of_absent(transformed(&t, &event), key);
}

} // verus!
