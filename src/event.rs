use vstd::prelude::*;

verus! {

/// The kind of an event, which is also the tag stored with each record.
#[derive(Clone, Copy, Debug, PartialEq, Eq, Structural)]
pub enum DataType {
    Log,
    Metric,
    Trace,
}

impl DataType {
    /// The text of the tag as it is written into the relation.
    pub open spec fn spec_name(self) -> Seq<char> {
        match self {
            DataType::Log => "Log"@,
            DataType::Metric => "Metric"@,
            DataType::Trace => "Trace"@,
        }
    }

    pub fn name(&self) -> (r: String)
        ensures
            r@ == self.spec_name(),
    {
        match self {
            DataType::Log => "Log".to_owned(),
            DataType::Metric => "Metric".to_owned(),
            DataType::Trace => "Trace".to_owned(),
        }
    }
}

/// A field of an event, as a pair of key and value.
pub type FieldView = (Seq<char>, Seq<char>);

/// The view of a list of fields.
pub open spec fn fields_view(f: Seq<(String, String)>) -> Seq<FieldView> {
    f.map_values(|p: (String, String)| (p.0@, p.1@))
}

/// The value of the first field named `key`, if there is one.
pub open spec fn lookup(f: Seq<FieldView>, key: Seq<char>) -> Option<Seq<char>>
    decreases f.len(),
{
    if f.len() == 0 {
        None
    } else if f[0].0 == key {
        Some(f[0].1)
    } else {
        lookup(f.drop_first(), key)
    }
}

/// Whether some field is named `key`.
pub open spec fn has_key(f: Seq<FieldView>, key: Seq<char>) -> bool {
    exists|i: int| 0 <= i < f.len() && #[trigger] f[i].0 == key
}

/// The key under which a log event holds its message.
pub open spec fn message_key() -> Seq<char> {
    "message"@
}

/// An event flowing through the sink: its kind, its fields in order, the
/// component it came from, and the handle of its acknowledgement.
#[derive(Clone, Debug)]
pub struct Event {
    pub data_type: DataType,
    pub fields: Vec<(String, String)>,
    pub source_id: Option<String>,
    pub finalizer: u64,
}

impl Event {
    pub open spec fn fields_spec(&self) -> Seq<FieldView> {
        fields_view(self.fields@)
    }

    /// A log event whose only field is its message.
    pub fn log(message: String, finalizer: u64) -> (r: Event)
        ensures
            r.data_type == DataType::Log,
            r.fields_spec() == seq![(message_key(), message@)],
            r.source_id.is_none(),
            r.finalizer == finalizer,
    {
        let mut fields: Vec<(String, String)> = Vec::new();
        fields.push(("message".to_owned(), message));
        let r = Event { data_type: DataType::Log, fields, source_id: None, finalizer };
        assert(r.fields_spec() =~= seq![(message_key(), message@)]);
        r
    }

    /// Sets the field `key` to `value`: the first field of that name takes
    /// the new value, or a new field is appended where none has the name.
    pub fn insert(&mut self, key: String, value: String)
        ensures
            final(self).data_type == old(self).data_type,
            final(self).source_id == old(self).source_id,
            final(self).finalizer == old(self).finalizer,
            has_key(old(self).fields_spec(), key@) ==> exists|i: int|
                0 <= i < old(self).fields@.len()
                && old(self).fields_spec()[i].0 == key@
                && (forall|j: int| 0 <= j < i ==> old(self).fields_spec()[j].0 != key@)
                && final(self).fields_spec() == old(self).fields_spec().update(i, (key@, value@)),
            !has_key(old(self).fields_spec(), key@) ==> final(self).fields_spec()
                == old(self).fields_spec().push((key@, value@)),
    {
        let n = self.fields.len();
        let mut i: usize = 0;
        while i < n
            invariant
                n == self.fields@.len(),
                *self == *old(self),
                0 <= i <= n,
                forall|j: int| 0 <= j < i ==> self.fields_spec()[j].0 != key@,
            decreases n - i,
        {
            if self.fields[i].0 == key {
                let ghost before = self.fields_spec();
                assert(before[i as int].0 == key@);
                assert(has_key(before, key@));
                self.fields.set(i, (key, value));
                assert(self.fields_spec() =~= before.update(i as int, (key@, value@)));
                return;
            }
            i = i + 1;
        }
        let ghost before = self.fields_spec();
        self.fields.push((key, value));
        assert(self.fields_spec() =~= before.push((key@, value@)));
    }
}

} // verus!
