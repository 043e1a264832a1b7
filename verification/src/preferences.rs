//! Reading the preference document that the sync core produced.

use vstd::prelude::*;

use crate::error::PipelineError;

verus! {

#[verifier::external_type_specification]
#[verifier::external_body]
pub struct ExJsonValue(serde_json::Value);

#[verifier::external_type_specification]
#[verifier::external_body]
pub struct ExJsonError(serde_json::Error);

/// Whether `serde_json` reads `text` as one JSON document.
pub uninterp spec fn json_document_readable(text: Seq<char>) -> bool;

/// Parse `text` with `serde_json::from_str` into a `serde_json::Value`. The
/// contract claims only that success depends on the text alone (named
/// `json_document_readable`); nothing is stated of the value.
#[verifier::external_body]
fn parse_json(text: &str) -> (r: Result<serde_json::Value, serde_json::Error>)
    ensures
        r is Ok <==> json_document_readable(text@),
{
    serde_json::from_str(text)
}

/// Read a merged preference document; a document that does not parse is a
/// failed merge.
pub fn decode_merged_preferences(merged: &str) -> (r: Result<serde_json::Value, PipelineError>)
    ensures
        r is Ok <==> json_document_readable(merged@),
        r matches Err(e) ==> e == PipelineError::SyncMerge,
{
    match parse_json(merged) {
        Ok(value) => Ok(value),
        Err(_) => Err(PipelineError::SyncMerge),
    }
}

} // verus!
