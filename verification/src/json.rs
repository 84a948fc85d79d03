use vstd::prelude::*;

verus! {

/// Mathematical shape of one decoded JSON document, as far as this library
/// reads it: strings, arrays and objects are modelled, every other kind of
/// value (null, booleans, numbers) is collapsed into `Other`, since no
/// contract here depends on those.
#[verifier::ext_equal]
pub enum JsonV {
    Str(Seq<char>),
    Arr(Seq<JsonV>),
    Obj(Map<Seq<char>, JsonV>),
    Other,
}

#[verifier::external_type_specification]
#[verifier::external_body]
pub struct ExValue(serde_json::Value);

/// The modelled contents of a `serde_json::Value`. The trusted wrappers
/// below jointly constrain this name; everything else about a `Value` is
/// opaque to the library.
pub uninterp spec fn json_view(v: serde_json::Value) -> JsonV;

/// The JSON documents encoded in a byte stream, in stream order: `None`
/// when the bytes are not a valid whitespace-separated sequence of JSON
/// documents, `Some` of the decoded sequence otherwise. The result is a
/// function of the bytes alone.
pub uninterp spec fn json_docs(s: Seq<u8>) -> Option<Seq<JsonV>>;

/// Relies on serde_json::Deserializer::from_slice together with
/// StreamDeserializer: decodes the whole input as a sequence of
/// whitespace-separated JSON documents, failing on the first byte that
/// cannot be part of such a sequence. An empty or all-whitespace input
/// yields an empty sequence of documents.
#[verifier::external_body]
pub fn parse_docs(out: &Vec<u8>) -> (r: Option<Vec<serde_json::Value>>)
    ensures
        r is Some <==> json_docs(out@) is Some,
        r matches Some(vs) ==> json_docs(out@) == Some(
            Seq::new(vs@.len(), |i: int| json_view(vs@[i])),
        ),
{
    serde_json::Deserializer::from_slice(out.as_slice())
        .into_iter::<serde_json::Value>()
        .collect::<Result<Vec<serde_json::Value>, serde_json::Error>>()
        .ok()
}

/// Relies on serde_json::Value::get with a string index: on an object it
/// looks the key up, on every other value it returns None.
#[verifier::external_body]
pub fn json_get<'a>(v: &'a serde_json::Value, key: &str) -> (r: Option<&'a serde_json::Value>)
    ensures
        match json_view(*v) {
            JsonV::Obj(m) => {
                &&& r is Some <==> m.contains_key(key@)
                &&& (r matches Some(x) ==> json_view(*x) == m[key@])
            },
            _ => r is None,
        },
{
    v.get(key)
}

/// Relies on serde_json::Value::as_str: Some of the string exactly when the
/// value is a JSON string.
#[verifier::external_body]
pub fn json_str(v: &serde_json::Value) -> (r: Option<String>)
    ensures
        r is Some <==> json_view(*v) is Str,
        r matches Some(s) ==> json_view(*v) == JsonV::Str(s@),
{
    v.as_str().map(|s| s.to_owned())
}

/// Relies on serde_json::Value::as_array: Some of the element vector exactly
/// when the value is a JSON array.
#[verifier::external_body]
pub fn json_array<'a>(v: &'a serde_json::Value) -> (r: Option<&'a Vec<serde_json::Value>>)
    ensures
        r is Some <==> json_view(*v) is Arr,
        r matches Some(a) ==> json_view(*v) == JsonV::Arr(
            Seq::new(a@.len(), |i: int| json_view(a@[i])),
        ),
{
    v.as_array()
}

} // verus!
