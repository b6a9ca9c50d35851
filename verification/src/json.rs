//! The boundary to serde_json's value type.
//!
//! A JSON value is opaque here: the extension carries it through unchanged
//! (the echo field) or hands it to the selection engine. Only parsing a
//! document produced by the serializer needs a contract.

use vstd::prelude::*;
use crate::doc::valid_event_doc;

verus! {

#[verifier::external_type_specification]
#[verifier::external_body]
pub struct ExJsonValue(serde_json::Value);

/// The value a JSON document parses to. Parsing depends on the document
/// bytes alone, so the result can be named without being written out.
pub uninterp spec fn json_value_of(doc: Seq<u8>) -> serde_json::Value;

/// Relies on serde_json::from_slice for a value: the result is a function
/// of the input bytes alone; input that is not valid JSON is an error. An
/// event document — fixed framing, JSON-safe identifier bytes, an amount
/// of at most ten decimal digits — is valid JSON whose number fits the
/// parser's integer range, so on one the call succeeds.
#[verifier::external_body]
pub(crate) fn parse_document(doc: &[u8]) -> (r: Result<serde_json::Value, String>)
    ensures
        r matches Ok(v) ==> v == json_value_of(doc@),
        valid_event_doc(doc@) ==> r is Ok,
{
    match serde_json::from_slice(doc) {
        Ok(v) => Ok(v),
        Err(e) => Err(format!("{e}")),
    }
}

/// Resolves the echo field: the input value is returned verbatim, with no
/// transformation and no failure path.
pub fn echo(input: serde_json::Value) -> (r: serde_json::Value)
    ensures
        r == input,
{
    input
}

} // verus!
