//! The boundary to the base64 crate and to std's UTF-8 validation.
//!
//! Trust header values arrive base64url-encoded from an auth proxy and must
//! be decoded and UTF-8-validated before they mean anything. Both results
//! are functions of the input bytes alone, so the decoder's outcome gets a
//! name that the resolver's contracts can speak of exactly.

use vstd::prelude::*;

verus! {

/// What `base64::decode_config` with the URL-safe alphabet returns for a
/// given input: the decoded bytes exactly when the input is well-formed
/// base64url, nothing otherwise.
pub uninterp spec fn b64url_decode_of(input: Seq<u8>) -> Option<Seq<u8>>;

/// Relies on `base64::decode_config` with the `URL_SAFE` character set:
/// the result is a function of the input bytes alone, `Ok` on well-formed
/// base64url and `Err` otherwise.
#[verifier::external_body]
pub(crate) fn b64url_decode(input: &[u8]) -> (r: Option<Vec<u8>>)
    ensures
        r is Some <==> b64url_decode_of(input@) is Some,
        r matches Some(b) ==> b64url_decode_of(input@) == Some(b@),
{
    base64::decode_config(input, base64::URL_SAFE).ok()
}

/// Relies on `String::from_utf8`: it succeeds exactly on valid UTF-8 and
/// returns the string decoding those bytes.
#[verifier::external_body]
pub(crate) fn utf8_to_string(bytes: Vec<u8>) -> (r: Option<String>)
    ensures
        r is Some <==> vstd::utf8::valid_utf8(bytes@),
        r matches Some(s) ==> s@ == vstd::utf8::decode_utf8(bytes@),
{
    String::from_utf8(bytes).ok()
}

} // verus!
