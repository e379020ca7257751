//! The sandboxed backend's poll decision.
//!
//! Here the host runtime performs the request and buffers the outcome; the
//! request holds only an opaque identifier and asks, poll by poll, whether
//! the result has arrived. The host answers with nothing — still Pending —
//! or with the raw response bytes, which this module turns into the
//! terminal result.

use vstd::prelude::*;

verus! {

use vstd::utf8::decode_utf8;
use vstd::utf8::valid_utf8;
use crate::error::HttpError;
use crate::error::RequestResult;

/// Relies on core::str::from_utf8: it returns the text borrowed from the
/// bytes exactly when they are valid UTF-8, and an error otherwise.
#[verifier::external_body]
fn utf8_decode(bytes: &[u8]) -> (decoded: Option<&str>)
    ensures
        decoded is Some <==> valid_utf8(bytes@),
        decoded matches Some(text) ==> text@ == decode_utf8(bytes@),
{
    core::str::from_utf8(bytes).ok()
}

/// What one poll of the sandboxed backend yields, given the host's answer
/// to the poll-request foreign call. Nothing from the host means the
/// result has not arrived: the poll stays Pending, raising no error. A
/// byte buffer is the full response body: it is decoded as UTF-8 text and
/// becomes the terminal result, with a body that is not valid UTF-8
/// classified as `IOError` rather than a crash.
pub fn poll_host_response(buffer: Option<Vec<u8>>) -> (outcome: Option<RequestResult>)
    ensures
        outcome is Some <==> buffer is Some,
        buffer matches Some(bytes) ==> match outcome {
            Some(Ok(text)) => valid_utf8(bytes@) && text@ == decode_utf8(bytes@),
            Some(Err(error)) => !valid_utf8(bytes@) && error matches HttpError::IOError,
            None => false,
        },
{
    match buffer {
        Some(bytes) => match utf8_decode(bytes.as_slice()) {
            Some(text) => Some(Ok(text.to_owned())),
            None => Some(Err(HttpError::IOError)),
        },
        None => None,
    }
}

} // verus!
