//! Trusted boundary to `serde_json`: decoding a response body into a list
//! of opaque JSON documents.

use vstd::prelude::*;

verus! {

/// An opaque JSON document, as the downstream services produce and consume
/// them. The routing layer never looks inside one.
#[verifier::external_type_specification]
#[verifier::external_body]
pub struct ExValue(serde_json::Value);

/// What decoding a response body yields: the outcome of parsing the text as
/// one complete JSON array of documents. `Ok` holds the element documents in
/// the order they appear in the text; `Err` holds the human-readable
/// description of the parse failure. Both depend on the text alone.
pub uninterp spec fn parsed_records(body: Seq<char>) -> Result<Seq<serde_json::Value>, Seq<char>>;

/// Relies on `serde_json::from_str::<Vec<Value>>`: it returns `Ok` exactly
/// when the text is a single well-formed JSON array, with the elements in
/// the order received, and its error's description depends on the text
/// alone.
#[verifier::external_body]
pub(crate) fn parse_record_list(body: &str) -> (r: Result<Vec<serde_json::Value>, String>)
    ensures
        r matches Ok(records) ==> parsed_records(body@) matches Ok(s) && s == records@,
        r matches Err(detail) ==> parsed_records(body@) matches Err(d) && d == detail@,
{
    match serde_json::from_str::<Vec<serde_json::Value>>(body) {
        Ok(records) => Ok(records),
        Err(error) => Err(error.to_string()),
    }
}

} // verus!
