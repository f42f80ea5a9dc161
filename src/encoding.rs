//! The two encodings that the library takes from outside crates.

use vstd::prelude::*;
use base64::Engine;
use vstd::utf8::encode_utf8;

verus! {

/// The standard base64 text (RFC 4648 alphabet, with padding) of `bytes`.
pub uninterp spec fn base64_of(bytes: Seq<u8>) -> Seq<char>;

/// The JSON string literal, quotes and escapes included, that `serde_json`
/// writes for `s`.
pub uninterp spec fn json_string_of(s: Seq<char>) -> Seq<char>;

/// Relies on `base64::engine::general_purpose::STANDARD.encode`: the base64
/// text of the string's UTF-8 bytes. The encoder panics only where the output
/// length (four characters for every three bytes) overflows `usize`, which
/// no `str` reaches: it holds at most `isize::MAX` bytes.
#[verifier::external_body]
pub(crate) fn base64_standard(s: &str) -> (r: String)
    ensures
        r@ == base64_of(encode_utf8(s@)),
{
    base64::engine::general_purpose::STANDARD.encode(s)
}

/// Relies on `serde_json::Value`'s `Display` (compact form) for a string
/// value: the JSON string literal of `s`.
#[verifier::external_body]
pub(crate) fn json_string(s: &str) -> (r: String)
    ensures
        r@ == json_string_of(s@),
{
    serde_json::Value::String(s.to_owned()).to_string()
}

} // verus!
