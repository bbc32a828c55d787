//! The crate's trusted boundary: the few standard-library calls that Verus
//! has no specification for. Every other function in the crate is verified.

use vstd::prelude::*;
use vstd::utf8::{valid_utf8, decode_utf8};

verus! {

/// Relies on `String::push`: appends the given character to the end of the
/// string.
pub assume_specification[ String::push ](s: &mut String, ch: char)
    ensures
        final(s)@ == old(s)@.push(ch),
;

/// Relies on `str::from_utf8` (plus `str::to_string` to own the result):
/// succeeds exactly on valid UTF-8 and returns its decoding.
#[verifier::external_body]
pub fn bytes_to_string(bytes: &[u8]) -> (r: Option<String>)
    ensures
        r is Some <==> valid_utf8(bytes@),
        r is Some ==> r->Some_0@ == decode_utf8(bytes@),
{
    match std::str::from_utf8(bytes) {
        Ok(s) => Some(s.to_string()),
        Err(_) => None,
    }
}

/// What `String::from_utf8_lossy` returns: a function of the bytes alone
/// (invalid sequences become replacement characters).
pub uninterp spec fn utf8_lossy_of(bytes: Seq<u8>) -> Seq<char>;

/// Relies on `String::from_utf8_lossy` (plus `Cow::into_owned`): the result
/// depends on the bytes alone, and its documentation promises that valid
/// UTF-8 is decoded unchanged.
#[verifier::external_body]
pub fn lossy_string(bytes: &[u8]) -> (r: String)
    ensures
        r@ == utf8_lossy_of(bytes@),
        valid_utf8(bytes@) ==> r@ == decode_utf8(bytes@),
{
    String::from_utf8_lossy(bytes).into_owned()
}

/// Relies on `SystemTime::now`, `SystemTime::duration_since` and
/// `Duration::as_millis`: a wall-clock reading in milliseconds since the
/// Unix epoch; nothing is promised of the value.
#[verifier::external_body]
pub fn unix_time_ms() -> u64 {
    match std::time::SystemTime::now().duration_since(std::time::UNIX_EPOCH) {
        Ok(d) => d.as_millis() as u64,
        Err(_) => 0,
    }
}

} // verus!
