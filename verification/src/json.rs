//! Decoding and encoding of the string-list payloads several pipeline
//! adapters exchange with the boundary: a request arrives as a JSON array of
//! strings, and a response that is a list of strings leaves as one.
//!
//! The JSON work itself is delegated to serde_json; its results are given
//! names that the verified functions' contracts are stated over.

use vstd::prelude::*;

use crate::channel::Channel;
use crate::errors::BertError;
use crate::set_result;

verus! {

/// The parse of a byte sequence as a JSON array of strings: the strings if
/// the bytes form such a document, `None` otherwise. The parse is a function
/// of the bytes alone.
pub uninterp spec fn json_string_list(bytes: Seq<u8>) -> Option<Seq<Seq<char>>>;

/// The JSON document that encodes a list of strings, a function of the
/// strings alone.
pub uninterp spec fn json_of_string_list(strings: Seq<Seq<char>>) -> Seq<u8>;

/// Relies on serde_json::from_slice::<Vec<String>>: parses a JSON array of
/// strings, failing exactly when the input is not such an array.
#[verifier::external_body]
fn from_slice_string_list(bytes: &[u8]) -> (r: Option<Vec<String>>)
    ensures
        match r {
            Some(v) => json_string_list(bytes@) == Some(v.deep_view()),
            None => json_string_list(bytes@) is None,
        },
{
    serde_json::from_slice::<Vec<String>>(bytes).ok()
}

/// Relies on serde_json::to_vec::<Vec<String>>: encodes a list of strings as
/// a JSON array. The call cannot fail for this type: serialization fails
/// only if a `Serialize` implementation decides to fail or a map has
/// non-string keys, and `String` serialization is infallible.
#[verifier::external_body]
fn to_vec_string_list(strings: &Vec<String>) -> (r: Vec<u8>)
    ensures
        r@ == json_of_string_list(strings.deep_view()),
{
    serde_json::to_vec(strings).unwrap()
}

/// Decode a request payload that must be a JSON array of strings, rejecting
/// anything else as malformed.
pub fn parse_string_list(bytes: &[u8]) -> (r: Result<Vec<String>, BertError>)
    ensures
        match r {
            Ok(v) => json_string_list(bytes@) == Some(v.deep_view()),
            Err(e) => json_string_list(bytes@) is None && e == BertError::Deserialization,
        },
{
    match from_slice_string_list(bytes) {
        Some(v) => Ok(v),
        None => Err(BertError::Deserialization),
    }
}

/// Serialize a list of output strings and store it in the channel's result
/// slot, returning the stored byte length for the boundary's scalar return.
pub fn store_string_list_result(channel: &mut Channel, outputs: &Vec<String>) -> (n: usize)
    ensures
        final(channel).result@ == json_of_string_list(outputs.deep_view()),
        final(channel).error@ == old(channel).error@,
        n == json_of_string_list(outputs.deep_view()).len(),
{
    let bytes = to_vec_string_list(outputs);
    set_result(channel, bytes)
}

} // verus!
