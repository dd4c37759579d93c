//! The session metadata: the default-sink name that it announces.
use crate::store::Store;
use std::collections::BTreeMap;
use vstd::prelude::*;

verus! {

broadcast use vstd::string::group_string_axioms;

#[verifier::external_type_specification]
#[verifier::external_body]
pub struct ExJsonError(serde_json::Error);

/// The fields of the JSON object that a text holds, in key order, each with
/// its value where that value is a string; none where serde_json does not
/// read the text as one JSON object.
pub uninterp spec fn json_object_fields_of(text: Seq<char>) -> Option<Seq<(Seq<char>, Option<Seq<char>>)>>;

/// The fields that a parsed object holds, as sequences.
pub open spec fn fields_view(fields: Seq<(String, Option<String>)>) -> Seq<(Seq<char>, Option<Seq<char>>)> {
    fields.map_values(
        |f: (String, Option<String>)|
            (
                f.0@,
                match f.1 {
                    Some(s) => Some(s@),
                    None => None,
                },
            ),
    )
}

/// Relies on serde_json::from_str, reading the text as a map of fields
/// ordered by key: it succeeds exactly on one JSON object.
#[verifier::external_body]
fn parse_json_object(text: &str) -> (r: Result<Vec<(String, Option<String>)>, serde_json::Error>)
    ensures
        r is Ok <==> json_object_fields_of(text@) is Some,
        r is Ok ==> fields_view(r->Ok_0@) == json_object_fields_of(text@)->Some_0,
{
    serde_json::from_str::<BTreeMap<String, serde_json::Value>>(text).map(
        |fields|
            fields.into_iter().map(|(k, v)| match v {
                serde_json::Value::String(s) => (k, Some(s)),
                _ => (k, None),
            }).collect(),
    )
}

/// The value of the first field with this key: present or not, and a string
/// or not.
pub open spec fn field_named(fields: Seq<(Seq<char>, Option<Seq<char>>)>, key: Seq<char>) -> Option<Option<Seq<char>>>
    decreases fields.len(),
{
    if fields.len() == 0 {
        None
    } else if fields[0].0 == key {
        Some(fields[0].1)
    } else {
        field_named(fields.skip(1), key)
    }
}

/// The metadata key that names the default sink.
pub open spec fn default_sink_key() -> Seq<char> {
    "default.audio.sink"@
}

/// The field of the metadata value that holds the sink's name.
pub open spec fn name_key() -> Seq<char> {
    "name"@
}

/// Why a metadata property could not be applied.
#[derive(Debug, Clone, Copy, PartialEq, Eq, Structural)]
pub enum MetadataError {
    /// The value is not a JSON object.
    MalformedJson,
    /// The object has no name.
    NoName,
    /// The name is not a string.
    NameNotString,
}

/// What a change of the metadata property `key` to `value` does: for the
/// default-sink key, the sink's name, or why there is none; for any other
/// key, nothing.
pub open spec fn spec_default_sink_update(key: Seq<char>, value: Seq<char>) -> Result<Option<Seq<char>>, MetadataError> {
    if key != default_sink_key() {
        Ok(None)
    } else {
        match json_object_fields_of(value) {
            None => Err(MetadataError::MalformedJson),
            Some(fields) => match field_named(fields, name_key()) {
                None => Err(MetadataError::NoName),
                Some(None) => Err(MetadataError::NameNotString),
                Some(Some(name)) => Ok(Some(name)),
            },
        }
    }
}

/// Whether two texts are equal.
pub fn same_text(a: &str, b: &str) -> (r: bool)
    ensures
        r == (a@ == b@),
{
    a.to_string() == b.to_string()
}

fn find_field<'a>(fields: &'a Vec<(String, Option<String>)>, key: &str) -> (r: Option<&'a Option<String>>)
    ensures
        match field_named(fields_view(fields@), key@) {
            None => r is None,
            Some(v) => r is Some && match *r->Some_0 {
                Some(s) => v == Some(s@),
                None => v is None,
            },
        },
{
    let ghost view = fields_view(fields@);
    let mut i: usize = 0;
    assert(view.skip(0) =~= view);
    while i < fields.len()
        invariant
            i <= fields@.len(),
            view == fields_view(fields@),
            field_named(view, key@) == field_named(view.skip(i as int), key@),
        decreases fields@.len() - i,
    {
        assert(view.skip(i as int).skip(1) =~= view.skip(i + 1));
        assert(view.skip(i as int)[0] == view[i as int]);
        if same_text(fields[i].0.as_str(), key) {
            return Some(&fields[i].1);
        }
        i = i + 1;
    }
    None
}

/// Applies a change of the metadata property `key`: the default-sink key
/// carries a JSON object whose name field names the default sink. Other keys
/// are ignored. On an error the registry is left as it was.
pub fn on_metadata_prop_changed<M, N, D, L>(store: &mut Store<M, N, D, L>, key: &str, value: &str) -> (r: Result<(), MetadataError>)
    ensures
        match spec_default_sink_update(key@, value@) {
            Err(e) => r == Err::<(), MetadataError>(e) && final(store).default_sink() == old(store).default_sink(),
            Ok(None) => r is Ok && final(store).default_sink() == old(store).default_sink(),
            Ok(Some(name)) => r is Ok && final(store).default_sink() == Some(name),
        },
        final(store).metadata() == old(store).metadata(),
        final(store).sinks() == old(store).sinks(),
        final(store).devices() == old(store).devices(),
        final(store).routes() == old(store).routes(),
        final(store).listeners() == old(store).listeners(),
{
    proof {
        reveal_strlit("default.audio.sink");
        reveal_strlit("name");
    }
    if !same_text(key, "default.audio.sink") {
        return Ok(());
    }
    let fields = match parse_json_object(value) {
        Ok(f) => f,
        Err(_) => return Err(MetadataError::MalformedJson),
    };
    match find_field(&fields, "name") {
        None => Err(MetadataError::NoName),
        Some(None) => Err(MetadataError::NameNotString),
        Some(Some(name)) => {
            store.update_default_sink(name.clone());
            Ok(())
        },
    }
}

} // verus!
