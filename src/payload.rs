use std::collections::HashMap;
use vstd::prelude::*;

verus! {

/// The error type of serde_json, carried from the parse to the point where it
/// is mapped to [`PayloadError`].
#[verifier::external_type_specification]
#[verifier::external_body]
pub struct ExJsonError(serde_json::Error);

/// What serde_json makes of a text read as a flat JSON object of string
/// values: the keys and values it holds, or `None` where the text is not such
/// an object.
pub uninterp spec fn json_string_map(text: Seq<char>) -> Option<Map<Seq<char>, Seq<char>>>;

/// Relies on `serde_json::from_str` into a `HashMap<String, String>`: the
/// outcome depends on the text alone; it is an error exactly where the text is
/// not one JSON object whose values are all strings, and otherwise the map
/// holds what the object holds.
#[verifier::external_body]
fn parse_string_map(body: &str) -> (r: Result<HashMap<String, String>, serde_json::Error>)
    ensures
        r is Ok <==> json_string_map(body@) is Some,
        r matches Ok(m) ==> m.deep_view() == json_string_map(body@)->0,
{
    serde_json::from_str(body)
}

/// Why a payload could not be turned into a map.
#[derive(Debug, Clone, Copy, PartialEq, Eq)]
pub enum PayloadError {
    /// The text is not a flat JSON object of string values.
    Malformed,
}

/// The payload's keys and values, taken as they are: no key is required or
/// refused and no value is interpreted (an `"is_admin"` entry stays an opaque
/// string). Text that is not a flat object of strings is no input of this
/// function: it returns no error value, and a caller that cannot vouch for
/// the text goes through [`parse_payload`] and aborts on its error.
pub fn insecure_deserialize_demo(body: &str) -> (r: HashMap<String, String>)
    requires
        json_string_map(body@) is Some,
    ensures
        r.deep_view() == json_string_map(body@)->0,
{
    parse_string_map(body).unwrap()
}

/// Tests whether the text has the shape of a flat object of strings and, only
/// where it does, reads it with [`insecure_deserialize_demo`]; the map is then
/// exactly the parsed one, with no validation of its keys or values.
pub fn parse_payload(body: &str) -> (r: Result<HashMap<String, String>, PayloadError>)
    ensures
        r is Ok <==> json_string_map(body@) is Some,
        r is Err ==> r == Err::<HashMap<String, String>, PayloadError>(PayloadError::Malformed),
        r matches Ok(m) ==> m.deep_view() == json_string_map(body@)->0,
{
    match parse_string_map(body) {
        Ok(_) => Ok(insecure_deserialize_demo(body)),
        Err(_) => Err(PayloadError::Malformed),
    }
}

} // verus!
