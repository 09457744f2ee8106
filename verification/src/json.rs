//! Trusted boundary to `serde_json`: parsing a source file's text into
//! the opaque frame-data payload, and building the small JSON values the
//! index page's bindings are made of. The payload itself is never
//! inspected by this crate; it is carried through to the renderer.

use vstd::prelude::*;

verus! {

/// `serde_json::Value`: the opaque structured payload of one character's
/// frame data, passed through unmodified from parsing to rendering.
#[verifier::external_type_specification]
#[verifier::external_body]
pub struct ExJsonValue(serde_json::Value);

/// `serde_json::Error`: the parser's own error type; mapped to
/// [`crate::error::BuildError::DataFormatError`] by verified code.
#[verifier::external_type_specification]
#[verifier::external_body]
pub struct ExJsonError(serde_json::Error);

/// Whether a text is well-formed JSON, i.e. whether `serde_json` parses
/// it; parsing is deterministic, so this depends on the text alone.
pub uninterp spec fn json_wf(s: Seq<char>) -> bool;

/// Relies on `serde_json::from_str::<Value>`: it returns `Ok` exactly on
/// well-formed JSON text, and success depends on the text alone.
#[verifier::external_body]
pub(crate) fn parse_json(s: &str) -> (r: Result<serde_json::Value, serde_json::Error>)
    ensures
        r is Ok <==> json_wf(s@),
{
    serde_json::from_str(s)
}

/// `serde_json::Map`: the parser's object representation; used here only
/// to assemble the index page's binding objects key by key.
#[verifier::external_type_specification]
#[verifier::external_body]
#[verifier::reject_recursive_types(K)]
#[verifier::reject_recursive_types(V)]
pub struct ExJsonMap<K, V>(serde_json::Map<K, V>);

/// Relies on `serde_json::Value::String` together with `str::to_owned`:
/// wraps a string as a JSON value.
#[verifier::external_body]
pub(crate) fn string_value(s: &str) -> (r: serde_json::Value)
{
    serde_json::Value::String(s.to_owned())
}

/// The set of keys a JSON object holds.
pub uninterp spec fn object_keys(m: serde_json::Map<String, serde_json::Value>) -> Set<Seq<char>>;

/// Relies on `serde_json::Map::new`: an empty JSON object.
#[verifier::external_body]
pub(crate) fn map_new() -> (r: serde_json::Map<String, serde_json::Value>)
    ensures
        object_keys(r) == Set::<Seq<char>>::empty(),
{
    serde_json::Map::new()
}

/// Relies on `serde_json::Map::insert`: binds the given key to the given
/// value in the object, growing its key set by exactly that key.
#[verifier::external_body]
pub(crate) fn map_insert(
    m: &mut serde_json::Map<String, serde_json::Value>,
    key: &str,
    v: serde_json::Value,
)
    ensures
        object_keys(*final(m)) == object_keys(*old(m)).insert(key@),
{
    m.insert(key.to_owned(), v);
}

/// Relies on `serde_json::Value::Object`: wraps an object as a JSON
/// value.
#[verifier::external_body]
pub(crate) fn object_value(m: serde_json::Map<String, serde_json::Value>) -> (r:
    serde_json::Value)
{
    serde_json::Value::Object(m)
}

/// Builds the `{"url": ..., "name": ...}` object of one index-page link:
/// exactly those two keys, the URL under `url` and the display name
/// under `name`.
pub(crate) fn link_value(url: &str, name: &str) -> serde_json::Value {
    let mut m = map_new();
    map_insert(&mut m, "url", string_value(url));
    map_insert(&mut m, "name", string_value(name));
    proof {
        assert(object_keys(m) =~= set!["url"@, "name"@]);
    }
    object_value(m)
}

/// Relies on `serde_json::Value::Array`: wraps a list of JSON values as a
/// JSON array, in the given order.
#[verifier::external_body]
pub(crate) fn array_value(items: Vec<serde_json::Value>) -> (r: serde_json::Value)
{
    serde_json::Value::Array(items)
}

} // verus!
