//! Bytes as text.

use vstd::prelude::*;
use vstd::utf8::{decode_utf8, valid_utf8};
use crate::error::DecodeError;

verus! {

/// The error of `String::from_utf8`. Nothing is read from it.
#[verifier::external_type_specification]
#[verifier::external_body]
pub struct ExFromUtf8Error(std::string::FromUtf8Error);

/// `String::from_utf8` of the standard library. Trusted, not proved: it
/// succeeds exactly on valid UTF-8, and the string it then gives holds the
/// characters that the bytes encode.
pub assume_specification[ String::from_utf8 ](vec: Vec<u8>) -> (text: Result<
    String,
    std::string::FromUtf8Error,
>)
    ensures
        text is Ok <==> valid_utf8(vec@),
        text matches Ok(s) ==> s@ == decode_utf8(vec@),
;

/// The text that `bytes` encode, or an encoding error if they encode none.
pub open spec fn text_of(bytes: Seq<u8>) -> Result<Seq<char>, DecodeError> {
    if valid_utf8(bytes) {
        Ok(decode_utf8(bytes))
    } else {
        Err(DecodeError::Encoding)
    }
}

/// Turns the bytes of a name into a string; they must be valid UTF-8.
pub fn name_from_bytes(bytes: Vec<u8>) -> (name: Result<String, DecodeError>)
    ensures
        match name {
            Ok(s) => text_of(bytes@) == Ok::<Seq<char>, DecodeError>(s@),
            Err(e) => text_of(bytes@) == Err::<Seq<char>, DecodeError>(e),
        },
{
    match String::from_utf8(bytes) {
        Ok(s) => Ok(s),
        Err(_) => Err(DecodeError::Encoding),
    }
}

} // verus!
