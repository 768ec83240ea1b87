//! Text handling at the edges: JSON framing of outgoing messages and lossy
//! decoding of captured process output.

use vstd::prelude::*;
use vstd::string::*;
use vstd::utf8::*;

verus! {

#[verifier::external_type_specification]
#[verifier::external_body]
pub struct ExJsonError(serde_json::Error);

/// The JSON string literal that serde_json writes for a string: quoted, with
/// its special characters escaped.
pub uninterp spec fn json_string_of(s: Seq<char>) -> Seq<char>;

/// The text that `String::from_utf8_lossy` makes of a byte sequence.
pub uninterp spec fn lossy_utf8_of(b: Seq<u8>) -> Seq<char>;

/// Relies on `serde_json::to_string` for a `str`: it writes the escaped,
/// quoted string into a `Vec<u8>`, a writer that never fails, so the result
/// is always `Ok`.
#[verifier::external_body]
fn to_json_string(s: &str) -> (r: Result<String, serde_json::Error>)
    ensures
        r is Ok,
        r matches Ok(t) ==> t@ == json_string_of(s@),
{
    serde_json::to_string(s)
}

/// Relies on `String::from_utf8_lossy`: valid UTF-8 is decoded as it is, and
/// each invalid sequence becomes U+FFFD.
#[verifier::external_body]
fn from_utf8_lossy(b: &[u8]) -> (r: String)
    ensures
        r@ == lossy_utf8_of(b@),
        valid_utf8(b@) ==> r@ == decode_utf8(b@),
{
    String::from_utf8_lossy(b).into_owned()
}

/// The payload of a code-update message: a JSON object whose one member,
/// `code`, is the given text.
pub open spec fn code_update_json(code: Seq<char>) -> Seq<char> {
    "{\"code\":"@ + json_string_of(code) + "}"@
}

/// `s` as a bare JSON string.
pub fn encode_string(s: &str) -> (r: String)
    ensures
        r@ == json_string_of(s@),
{
    match to_json_string(s) {
        Ok(t) => t,
        // Encoding a string into memory does not fail.
        Err(_) => String::new(),
    }
}

/// A code-update message carrying `code`, as the session sends it.
pub fn encode_code_update(code: &str) -> (r: String)
    ensures
        r@ == code_update_json(code@),
{
    let mut r = String::from_str("{\"code\":");
    let quoted = encode_string(code);
    r.append(quoted.as_str());
    r.append("}");
    r
}

/// Captured output as text; never fails, whatever the bytes.
pub fn decode_output(bytes: &Vec<u8>) -> (r: String)
    ensures
        r@ == lossy_utf8_of(bytes@),
        valid_utf8(bytes@) ==> r@ == decode_utf8(bytes@),
{
    from_utf8_lossy(bytes.as_slice())
}

} // verus!
