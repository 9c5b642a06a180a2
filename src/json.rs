use vstd::prelude::*;

use crate::error::{ConsulError, DecodeFailure};

verus! {

/// The strings of a JSON array of strings in `b`, in their order; `None`
/// where `b` is not such a document.
pub uninterp spec fn json_string_array(b: Seq<u8>) -> Option<Seq<Seq<char>>>;

pub open spec fn strings_view(v: Seq<String>) -> Seq<Seq<char>> {
    v.map_values(|s: String| s@)
}

/// Relies on serde_json::from_slice into `Vec<String>`: its result depends on
/// the bytes alone.
#[verifier::external_body]
fn json_strings(b: &[u8]) -> (r: Option<Vec<String>>)
    ensures
        r is Some <==> json_string_array(b@) is Some,
        r is Some ==> strings_view(r.unwrap()@) == json_string_array(b@).unwrap(),
{
    serde_json::from_slice::<Vec<String>>(b).ok()
}

/// Decodes a body that holds a list of strings, keeping the server's order.
/// An empty body is an empty list.
pub fn decode_string_list(body: &[u8]) -> (r: Result<Vec<String>, ConsulError>)
    ensures
        body@.len() == 0 ==> r is Ok && r.unwrap()@.len() == 0,
        body@.len() > 0 ==> match json_string_array(body@) {
            Some(v) => r is Ok && strings_view(r.unwrap()@) == v,
            None => r == Err::<Vec<String>, ConsulError>(
                ConsulError::DecodeError(DecodeFailure::InvalidBody),
            ),
        },
{
    if body.len() == 0 {
        return Ok(Vec::new());
    }
    match json_strings(body) {
        Some(v) => Ok(v),
        None => Err(ConsulError::DecodeError(DecodeFailure::InvalidBody)),
    }
}

} // verus!
