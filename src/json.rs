//! Decoding of schema and instance documents into generic JSON values.
use vstd::prelude::*;

verus! {

#[verifier::external_type_specification]
#[verifier::external_body]
pub struct ExValue(serde_json::Value);

#[verifier::external_type_specification]
#[verifier::external_body]
pub struct ExError(serde_json::Error);

/// Whether `bytes` is well-formed JSON text that decodes into a generic value.
pub uninterp spec fn is_json_text(bytes: Seq<u8>) -> bool;

/// Relies on `serde_json::from_slice` into `serde_json::Value`: it succeeds
/// exactly when the bytes are well-formed JSON text, which depends on the
/// bytes alone, and it fails on empty input (end of input while parsing a value).
#[verifier::external_body]
fn decode_value(bytes: &[u8]) -> (r: Result<serde_json::Value, serde_json::Error>)
    ensures
        r.is_ok() == is_json_text(bytes@),
        bytes@.len() == 0 ==> r.is_err(),
{
    serde_json::from_slice(bytes)
}

/// Why a document could not be loaded.
#[derive(Debug)]
pub enum LoadError {
    /// The contents are not well-formed JSON.
    MalformedJson(serde_json::Error),
}

/// Decodes the contents of a schema or instance document.
///
/// Succeeds exactly when the contents are well-formed JSON; otherwise the
/// decoder's error is handed back as `LoadError::MalformedJson`.
pub fn load_document(contents: &[u8]) -> (r: Result<serde_json::Value, LoadError>)
    ensures
        r.is_ok() <==> is_json_text(contents@),
        r matches Err(e) ==> e is MalformedJson,
        contents@.len() == 0 ==> r.is_err(),
{
    match decode_value(contents) {
        Ok(v) => Ok(v),
        Err(e) => Err(LoadError::MalformedJson(e)),
    }
}

} // verus!
