use vstd::prelude::*;
use crate::event::{fields_view, has_key, FieldView};

verus! {

#[verifier::external_type_specification]
#[verifier::external_body]
pub struct ExJsonValue(serde_json::Value);

#[verifier::external_type_specification]
#[verifier::external_body]
#[verifier::reject_recursive_types(K)]
#[verifier::reject_recursive_types(V)]
pub struct ExJsonMap<K, V>(serde_json::Map<K, V>);

/// A JSON object.
pub type JsonObject = serde_json::Map<String, serde_json::Value>;

/// The string entries of a JSON object.
pub uninterp spec fn json_entries(m: JsonObject) -> Map<Seq<char>, Seq<char>>;

/// The JSON text of an object with these string entries, or `None` where the
/// serializer refuses it.
pub uninterp spec fn json_text_of(entries: Map<Seq<char>, Seq<char>>) -> Option<Seq<u8>>;

/// The entries of an empty object.
pub open spec fn no_entries() -> Map<Seq<char>, Seq<char>> {
    Map::empty()
}

/// Relies on serde_json::Map::new: the map has no entries.
#[verifier::external_body]
fn json_map_new() -> (r: JsonObject)
    ensures
        json_entries(r) == no_entries(),
{
    serde_json::Map::new()
}

/// Relies on serde_json::Map::insert: `key` now holds the string `value`,
/// which replaces any value it held before.
#[verifier::external_body]
fn json_map_insert(m: &mut JsonObject, key: String, value: String)
    ensures
        json_entries(*final(m)) == json_entries(*old(m)).insert(key@, value@),
{
    m.insert(key, serde_json::Value::String(value));
}

/// Relies on serde_json::to_vec: the JSON text of the object. Without the
/// `preserve_order` feature the map keeps its keys sorted, so the text
/// depends on the entries alone.
#[verifier::external_body]
fn json_to_vec(m: &JsonObject) -> (r: Option<Vec<u8>>)
    ensures
        json_text_of(json_entries(*m)) == match r {
            Some(v) => Some(v@),
            None => None,
        },
{
    serde_json::to_vec(m).ok()
}

/// The entries of the object that holds the fields in order: a later field
/// of the same name replaces an earlier one.
pub open spec fn entries_of(f: Seq<FieldView>) -> Map<Seq<char>, Seq<char>>
    decreases f.len(),
{
    if f.len() == 0 {
        no_entries()
    } else {
        entries_of(f.drop_last()).insert(f.last().0, f.last().1)
    }
}

/// A name that no field has is no key of the object.
pub proof fn lemma_entries_of_absent(f: Seq<FieldView>, key: Seq<char>)
    requires
        !has_key(f, key),
    ensures
        !entries_of(f).dom().contains(key),
    decreases f.len(),
{
    if f.len() > 0 {
        let g = f.drop_last();
        assert(!has_key(g, key)) by {
            if has_key(g, key) {
                let i = choose|i: int| 0 <= i < g.len() && #[trigger] g[i].0 == key;
                assert(f[i].0 == key);
            }
        }
        assert(f[f.len() - 1].0 != key);
        lemma_entries_of_absent(g, key);
    }
}

/// The JSON text of the object that holds the fields.
pub fn json_object(fields: &Vec<(String, String)>) -> (r: Option<Vec<u8>>)
    ensures
        json_text_of(entries_of(fields_view(fields@))) == match r {
            Some(v) => Some(v@),
            None => None,
        },
{
    let ghost f = fields_view(fields@);
    let n = fields.len();
    let mut m = json_map_new();
    let mut i: usize = 0;
    while i < n
        invariant
            n == fields@.len(),
            f == fields_view(fields@),
            0 <= i <= n,
            json_entries(m) == entries_of(f.take(i as int)),
        decreases n - i,
    {
        assert(f.take(i as int + 1).drop_last() =~= f.take(i as int));
        assert(f[i as int] == (fields@[i as int].0@, fields@[i as int].1@));
        json_map_insert(&mut m, fields[i].0.clone(), fields[i].1.clone());
        i = i + 1;
    }
    assert(f.take(n as int) =~= f);
    json_to_vec(&m)
}

} // verus!
