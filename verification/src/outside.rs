//! The calls into std and serde_json that the protocol logic makes, with
//! what each is trusted to do.

use std::time::Instant;
use vstd::prelude::*;
use vstd::utf8::*;

verus! {

/// A reading of the monotonic clock, carried through unread.
#[verifier::external_type_specification]
#[verifier::external_body]
pub struct ExInstant(std::time::Instant);

/// A JSON document, carried through unread.
#[verifier::external_type_specification]
#[verifier::external_body]
pub struct ExJsonValue(serde_json::Value);

/// Calls `std::time::Instant::now`. The clock's reading depends on the
/// moment of the call, so nothing is promised of it.
#[verifier::external_body]
pub(crate) fn instant_now() -> Instant {
    Instant::now()
}

/// The compact JSON text of a document, as serde_json's `Display` for
/// `Value` writes it: a function of the document alone.
pub uninterp spec fn json_string(value: serde_json::Value) -> Seq<char>;

/// Calls `serde_json::Value`'s `to_string`, which writes the document as
/// compact JSON text. Writing into a `String` cannot fail.
#[verifier::external_body]
pub(crate) fn json_text(value: &serde_json::Value) -> (res: String)
    ensures
        res@ == json_string(*value),
{
    value.to_string()
}

/// Calls `String::from_utf8`: it succeeds exactly when the bytes are valid
/// UTF-8, and the string then holds the characters that they encode.
#[verifier::external_body]
pub(crate) fn utf8_string(bytes: Vec<u8>) -> (res: Option<String>)
    ensures
        res is Some <==> valid_utf8(bytes@),
        res matches Some(s) ==> s@ == decode_utf8(bytes@),
{
    String::from_utf8(bytes).ok()
}

/// Calls `String::push`, which appends one character.
#[verifier::external_body]
pub(crate) fn push_char(s: &mut String, c: char)
    ensures
        final(s)@ == old(s)@.push(c),
{
    s.push(c)
}

/// The upper case of a string by Unicode's full case mapping, as
/// `str::to_uppercase` computes it.
pub uninterp spec fn uppercase(s: Seq<char>) -> Seq<char>;

/// Calls `str::to_uppercase`.
#[verifier::external_body]
pub(crate) fn to_uppercase(s: &str) -> (res: String)
    ensures
        res@ == uppercase(s@),
{
    s.to_uppercase()
}

} // verus!
