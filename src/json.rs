//! Decoding a file's text into policy records.
use rocket::serde::json::serde_json;
use vstd::prelude::*;

verus! {

#[verifier::external_type_specification]
#[verifier::external_body]
pub struct ExJsonValue(serde_json::Value);

#[verifier::external_type_specification]
#[verifier::external_body]
#[verifier::reject_recursive_types(K)]
#[verifier::reject_recursive_types(V)]
pub struct ExJsonMap<K, V>(serde_json::Map<K, V>);

/// One policy: a JSON object whose fields belong to the policy schema. The
/// loader forwards it as a whole and never looks inside.
pub type Policy = serde_json::Map<String, serde_json::Value>;

/// The records that decoding `text` as a JSON array of objects gives, in the
/// order of the array; `None` where `text` is not such an array.
pub uninterp spec fn decoded_policies(text: Seq<char>) -> Option<Seq<Policy>>;

/// The message serde_json gives for a `text` that does not decode as an
/// array of objects.
pub uninterp spec fn decode_failure_text(text: Seq<char>) -> Seq<char>;

/// Relies on `rocket::serde::json::from_str` (serde_json's `from_str`) for
/// `Vec<Map<String, Value>>`: it either decodes the whole text as an array of
/// objects or fails, and its outcome depends on the text alone. A failure is
/// handed back as the `Display` text of serde_json's error, which holds the
/// decoder's message with line and column and depends on the text alone too.
#[verifier::external_body]
fn from_json_text(text: &str) -> (r: Result<Vec<Policy>, String>)
    ensures
        match r {
            Ok(v) => decoded_policies(text@) == Some(v@),
            Err(m) => decoded_policies(text@) is None && m@ == decode_failure_text(text@),
        },
{
    match rocket::serde::json::from_str::<Vec<Policy>>(text) {
        Ok(v) => Ok(v),
        Err(e) => Err(e.to_string()),
    }
}

/// Decodes `text` as a JSON array of policy objects: all of it or nothing.
/// A failure carries the decoder's message.
pub fn decode_policies(text: &str) -> (r: Result<Vec<Policy>, String>)
    ensures
        match decoded_policies(text@) {
            Some(ps) => r matches Ok(v) && v@ == ps,
            None => r matches Err(m) && m@ == decode_failure_text(text@),
        },
{
    from_json_text(text)
}

} // verus!
