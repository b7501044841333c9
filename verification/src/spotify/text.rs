//! Text from bytes: what is taken on trust of the standard library's UTF-8
//! decoder.

use std::string::FromUtf8Error;
use vstd::prelude::*;
use vstd::utf8::*;

verus! {

/// The error of [`String::from_utf8`]. Nothing is claimed of what it holds.
#[verifier::external_type_specification]
#[verifier::external_body]
pub struct ExFromUtf8Error(FromUtf8Error);

/// [`String::from_utf8`] accepts exactly the byte strings that are valid
/// UTF-8, and then returns the characters that they encode. This is not
/// proved here: it is what the standard library documents.
pub assume_specification[ String::from_utf8 ](vec: Vec<u8>) -> (decoded: Result<
    String,
    FromUtf8Error,
>)
    ensures
        decoded is Ok <==> valid_utf8(vec@),
        decoded matches Ok(s) ==> s@ == decode_utf8(vec@),
;

} // verus!
