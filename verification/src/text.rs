//! Text that crosses the native boundary: byte strings that end at the first
//! zero byte on the native side and that may or may not be valid UTF-8.
//!
//! Text from the native library is decoded strictly: bytes that are not
//! valid UTF-8 are an error, never replaced or cut. Text for the native
//! library must hold no zero byte, since the native library would read it
//! only up to there.

use vstd::prelude::*;
use vstd::string::StrSliceExecFns;
use vstd::utf8::decode_utf8;
use vstd::utf8::encode_utf8;
use vstd::utf8::valid_utf8;
use crate::error::NDIError;

verus! {

broadcast use vstd::utf8::group_utf8_lib;

/// Decodes `bytes` strictly.
///
/// Calls `String::from_utf8`. The contract claims that the call succeeds
/// exactly on valid UTF-8 and then yields the characters that the bytes
/// encode.
#[verifier::external_body]
fn string_from_utf8(bytes: Vec<u8>) -> (r: Option<String>)
    ensures
        r.is_some() == valid_utf8(bytes@),
        r matches Some(s) ==> s@ == decode_utf8(bytes@),
{
    String::from_utf8(bytes).ok()
}

/// Whether a zero byte occurs in `bytes`. Text with a zero byte cannot be
/// handed to the native library, which reads up to the first one.
pub open spec fn has_nul(bytes: Seq<u8>) -> bool {
    exists|i: int| 0 <= i < bytes.len() && bytes[i] == 0u8
}

/// Whether a zero byte occurs in `bytes`.
pub fn bytes_have_nul(bytes: &Vec<u8>) -> (r: bool)
    ensures
        r == has_nul(bytes@),
{
    let mut i: usize = 0;
    while i < bytes.len()
        invariant
            i <= bytes.len(),
            forall|j: int| 0 <= j < i ==> bytes@[j] != 0u8,
        decreases bytes.len() - i,
    {
        if bytes[i] == 0 {
            return true;
        }
        i += 1;
    }
    false
}

/// Whether the encoding of `s` holds a zero byte.
pub fn contains_nul(s: &String) -> (r: bool)
    ensures
        r == has_nul(encode_utf8(s@)),
{
    let bytes = s.as_str().as_bytes_vec();
    bytes_have_nul(&bytes)
}

/// The bytes of an optional native string as a mathematical value.
pub open spec fn bytes_view(bytes: Option<Vec<u8>>) -> Option<Seq<u8>> {
    match bytes {
        None => None,
        Some(b) => Some(b@),
    }
}

/// Whether `bytes` are there and hold a zero byte.
pub open spec fn spec_optional_has_nul(bytes: Option<Seq<u8>>) -> bool {
    match bytes {
        None => false,
        Some(b) => has_nul(b),
    }
}

/// Whether `bytes` are there and hold a zero byte.
pub fn optional_bytes_have_nul(bytes: &Option<Vec<u8>>) -> (r: bool)
    ensures
        r == spec_optional_has_nul(bytes_view(*bytes)),
{
    match bytes {
        None => false,
        Some(b) => bytes_have_nul(b),
    }
}

/// Whether `text` is there and its encoding holds a zero byte.
pub open spec fn spec_text_has_nul(text: Option<String>) -> bool {
    match text {
        None => false,
        Some(s) => has_nul(encode_utf8(s@)),
    }
}

/// Whether `text` is there and its encoding holds a zero byte.
pub fn text_has_nul(text: &Option<String>) -> (r: bool)
    ensures
        r == spec_text_has_nul(*text),
{
    match text {
        None => false,
        Some(s) => contains_nul(s),
    }
}

/// The text that `bytes` encode, where they are valid UTF-8.
pub open spec fn spec_strict_bytes(bytes: Seq<u8>) -> Option<Seq<char>> {
    if valid_utf8(bytes) {
        Some(decode_utf8(bytes))
    } else {
        None
    }
}

/// The text of an optional native string: nothing reads as the empty text,
/// bytes that are not valid UTF-8 are refused.
pub open spec fn spec_strict_text(bytes: Option<Seq<u8>>) -> Option<Seq<char>> {
    match bytes {
        None => Some(Seq::empty()),
        Some(b) => spec_strict_bytes(b),
    }
}

/// Whether `r` is what reading a native string gives whose strict reading
/// is `text`: the text itself, or the error `InvalidUtf8` where there is
/// none.
pub open spec fn is_decoded(r: Result<String, NDIError>, text: Option<Seq<char>>) -> bool {
    match text {
        Some(t) => r matches Ok(s) && s@ == t,
        None => r == Err::<String, NDIError>(NDIError::InvalidUtf8),
    }
}

/// Reads native text: the text that the bytes encode, or `InvalidUtf8`
/// where they are not valid UTF-8. Nothing is replaced and nothing is cut.
pub fn decode_bytes(bytes: &Vec<u8>) -> (r: Result<String, NDIError>)
    ensures
        is_decoded(r, spec_strict_bytes(bytes@)),
{
    match string_from_utf8(bytes.clone()) {
        Some(s) => Ok(s),
        None => Err(NDIError::InvalidUtf8),
    }
}

/// Reads an optional native string: the empty text where there is none, the
/// text that the bytes encode, or `InvalidUtf8` where they are not valid
/// UTF-8.
pub fn decode(bytes: &Option<Vec<u8>>) -> (r: Result<String, NDIError>)
    ensures
        is_decoded(r, spec_strict_text(bytes_view(*bytes))),
{
    match bytes {
        None => Ok(String::new()),
        Some(b) => decode_bytes(b),
    }
}

/// A copy of an optional native string.
pub fn copy_bytes(bytes: &Option<Vec<u8>>) -> (r: Option<Vec<u8>>)
    ensures
        bytes_view(r) == bytes_view(*bytes),
{
    match bytes {
        None => None,
        Some(b) => {
            let c = b.clone();
            assert(c@ =~= b@);
            Some(c)
        },
    }
}

/// A copy of an optional text.
pub fn copy_text(text: &Option<String>) -> (r: Option<String>)
    ensures
        r == *text,
{
    match text {
        None => None,
        Some(s) => Some(s.clone()),
    }
}

/// The bytes that encode `s`.
pub fn encode(s: &String) -> (r: Vec<u8>)
    ensures
        r@ == encode_utf8(s@),
        valid_utf8(r@),
        decode_utf8(r@) == s@,
{
    s.as_str().as_bytes_vec()
}

} // verus!
