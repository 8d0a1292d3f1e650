use vstd::prelude::*;
use vstd::string::StringSliceAdditionalSpecFns;
use vstd::utf8::encode_utf8;
use crate::event::{fields_view, has_key, lookup, message_key, DataType, Event, FieldView};

verus! {

/// The serializer that turns an event into the bytes of its record.
#[derive(Clone, Copy, Debug, PartialEq, Eq, Structural)]
pub enum Codec {
    /// The message of a log event, as UTF-8 text.
    Text,
    /// The fields of the event, as a JSON object.
    Json,
    /// The fields of the event, as a JSON object in the native layout.
    NativeJson,
}

impl Codec {
    pub open spec fn is_json(self) -> bool {
        self == Codec::Json || self == Codec::NativeJson
    }
}

/// The view of a list of field names.
pub open spec fn names_view(n: Seq<String>) -> Seq<Seq<char>> {
    n.map_values(|s: String| s@)
}

/// The fields that remain once those named in `except` are dropped, in order.
pub open spec fn kept_fields(except: Seq<Seq<char>>, f: Seq<FieldView>) -> Seq<FieldView>
    decreases f.len(),
{
    if f.len() == 0 {
        seq![]
    } else if except.contains(f.last().0) {
        kept_fields(except, f.drop_last())
    } else {
        kept_fields(except, f.drop_last()).push(f.last())
    }
}

/// A field named in `except` never survives the transformer.
pub proof fn lemma_kept_fields_exclude(except: Seq<Seq<char>>, f: Seq<FieldView>, key: Seq<char>)
    requires
        except.contains(key),
    ensures
        !has_key(kept_fields(except, f), key),
    decreases f.len(),
{
    if f.len() > 0 {
        lemma_kept_fields_exclude(except, f.drop_last(), key);
        let k = kept_fields(except, f.drop_last());
        if !except.contains(f.last().0) {
            assert forall|i: int| 0 <= i < k.len() + 1 implies #[trigger] k.push(f.last())[i].0
                != key by {
                if i < k.len() {
                    assert(k.push(f.last())[i] == k[i]);
                }
            }
        }
    }
}

/// Drops configured fields from events before they are encoded.
#[derive(Clone, Debug)]
pub struct Transformer {
    pub except_fields: Vec<String>,
}

impl Transformer {
    pub open spec fn except_view(&self) -> Seq<Seq<char>> {
        names_view(self.except_fields@)
    }

    /// A transformer that drops the named fields.
    pub fn new(except_fields: Vec<String>) -> (r: Transformer)
        ensures
            r.except_view() == names_view(except_fields@),
    {
        Transformer { except_fields }
    }

    /// A transformer that keeps every field.
    pub fn keep_all() -> (r: Transformer)
        ensures
            r.except_view() == Seq::<Seq<char>>::empty(),
    {
        let r = Transformer { except_fields: Vec::new() };
        assert(r.except_view() =~= Seq::<Seq<char>>::empty());
        r
    }

    /// Whether the field `key` is dropped.
    pub fn excludes(&self, key: &String) -> (r: bool)
        ensures
            r == self.except_view().contains(key@),
    {
        let n = self.except_fields.len();
        let mut i: usize = 0;
        while i < n
            invariant
                n == self.except_fields@.len(),
                0 <= i <= n,
                forall|j: int| 0 <= j < i ==> self.except_view()[j] != key@,
            decreases n - i,
        {
            if self.except_fields[i] == *key {
                assert(self.except_view()[i as int] == key@);
                return true;
            }
            i = i + 1;
        }
        false
    }

    /// Drops the configured fields from `event`, keeping the others in order.
    pub fn transform(&self, event: &mut Event)
        ensures
            final(event).fields_spec() == kept_fields(self.except_view(), old(event).fields_spec()),
            final(event).data_type == old(event).data_type,
            final(event).source_id == old(event).source_id,
            final(event).finalizer == old(event).finalizer,
    {
        let n = event.fields.len();
        let mut kept: Vec<(String, String)> = Vec::new();
        let mut i: usize = 0;
        while i < n
            invariant
                n == event.fields@.len(),
                *event == *old(event),
                0 <= i <= n,
                fields_view(kept@) == kept_fields(
                    self.except_view(),
                    event.fields_spec().take(i as int),
                ),
            decreases n - i,
        {
            let ghost before = fields_view(kept@);
            let ghost f = event.fields_spec();
            assert(f.take(i as int + 1).drop_last() =~= f.take(i as int));
            if !self.excludes(&event.fields[i].0) {
                let k = event.fields[i].0.clone();
                let v = event.fields[i].1.clone();
                kept.push((k, v));
                assert(fields_view(kept@) =~= before.push(f[i as int]));
            }
            i = i + 1;
        }
        assert(event.fields_spec().take(n as int) =~= event.fields_spec());
        event.fields = kept;
    }
}

/// Bytes added for each field to a JSON estimate: two pairs of quotes, a
/// colon, and a comma or the closing brace.
pub const JSON_FIELD_OVERHEAD: usize = 6;

/// Bytes of an event held in memory apart from its fields.
pub const EVENT_BASE_SIZE: usize = 72;

/// Bytes of one field held in memory apart from its text: two string headers.
pub const FIELD_BASE_SIZE: usize = 48;

/// The UTF-8 length of every key and value, plus `per_field` for each field.
pub open spec fn field_bytes(f: Seq<FieldView>, per_field: int) -> int
    decreases f.len(),
{
    if f.len() == 0 {
        0
    } else {
        field_bytes(f.drop_last(), per_field) + encode_utf8(f.last().0).len() + encode_utf8(
            f.last().1,
        ).len() + per_field
    }
}

/// `x`, or the largest `usize` where `x` does not fit.
pub open spec fn capped(x: int) -> usize {
    if x > usize::MAX {
        usize::MAX
    } else {
        x as usize
    }
}

/// The estimated size of the JSON object that holds the fields.
pub open spec fn json_size_spec(f: Seq<FieldView>) -> usize {
    capped(1 + field_bytes(f, JSON_FIELD_OVERHEAD as int))
}

/// The estimated size of an event with these fields in memory.
pub open spec fn memory_size_spec(f: Seq<FieldView>) -> usize {
    capped(EVENT_BASE_SIZE + field_bytes(f, FIELD_BASE_SIZE as int))
}

pub proof fn lemma_field_bytes_nonneg(f: Seq<FieldView>, per_field: int)
    requires
        per_field >= 0,
    ensures
        field_bytes(f, per_field) >= 0,
    decreases f.len(),
{
    if f.len() > 0 {
        lemma_field_bytes_nonneg(f.drop_last(), per_field);
    }
}

/// `base` plus the field bytes of `fields`, capped at the largest `usize`.
fn sum_field_bytes(fields: &Vec<(String, String)>, base: usize, per_field: usize) -> (r: usize)
    ensures
        r == capped(base + field_bytes(fields_view(fields@), per_field as int)),
{
    let ghost f = fields_view(fields@);
    let n = fields.len();
    let mut acc: usize = base;
    let mut i: usize = 0;
    while i < n
        invariant
            n == fields@.len(),
            f == fields_view(fields@),
            0 <= i <= n,
            acc == capped(base + field_bytes(f.take(i as int), per_field as int)),
        decreases n - i,
    {
        assert(f.take(i as int + 1).drop_last() =~= f.take(i as int));
        proof {
            lemma_field_bytes_nonneg(f.take(i as int), per_field as int);
        }
        let ks: &str = fields[i].0.as_str();
        let vs: &str = fields[i].1.as_str();
        let k = ks.as_bytes().len();
        let v = vs.as_bytes().len();
        assert(ks.spec_bytes() == encode_utf8(ks@));
        assert(vs.spec_bytes() == encode_utf8(vs@));
        assert(f[i as int] == (fields@[i as int].0@, fields@[i as int].1@));
        assert(f.take(i as int + 1).last() == f[i as int]);
        assert(k == encode_utf8(f[i as int].0).len());
        assert(v == encode_utf8(f[i as int].1).len());
        acc = acc.saturating_add(k).saturating_add(v).saturating_add(per_field);
        i = i + 1;
    }
    assert(f.take(n as int) =~= f);
    acc
}

/// The estimated size of the JSON form of an event, without encoding it.
pub fn estimated_json_size(event: &Event) -> (r: usize)
    ensures
        r == json_size_spec(event.fields_spec()),
{
    sum_field_bytes(&event.fields, 1, JSON_FIELD_OVERHEAD)
}

/// The estimated size of an event in memory.
pub fn memory_size(event: &Event) -> (r: usize)
    ensures
        r == memory_size_spec(event.fields_spec()),
{
    sum_field_bytes(&event.fields, EVENT_BASE_SIZE, FIELD_BASE_SIZE)
}

} // verus!
