//! The one place text crosses the boundary as bytes: checked UTF-8 decoding.
//!
//! Encoding a string to bytes goes through `vstd`'s verified
//! `str::as_bytes_vec`; only the checked decoding direction needs to rely on
//! the standard library directly.

use vstd::prelude::*;
use vstd::utf8::{decode_utf8, valid_utf8};

verus! {

/// Relies on `String::from_utf8`: it succeeds exactly on valid UTF-8 input,
/// and the returned string's characters are the decoding of those bytes.
#[verifier::external_body]
pub(crate) fn utf8_to_string(bytes: Vec<u8>) -> (r: Option<String>)
    ensures
        r matches Some(s) ==> valid_utf8(bytes@) && s@ == decode_utf8(bytes@),
        r is None ==> !valid_utf8(bytes@),
{
    match String::from_utf8(bytes) {
        Ok(s) => Some(s),
        Err(_) => None,
    }
}

} // verus!
