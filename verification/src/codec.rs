//! Byte encodings: Base64 (through the `base64` crate) and UTF-8.
use vstd::prelude::*;
use vstd::utf8::*;

verus! {

/// What `base64::decode` (standard alphabet) returns for the text.
pub uninterp spec fn base64_decoded(text: Seq<char>) -> Option<Seq<u8>>;

/// What `base64::encode_config(data, base64::STANDARD_NO_PAD)` returns.
pub uninterp spec fn base64_unpadded(data: Seq<u8>) -> Seq<char>;

/// Decodes standard Base64 (`base64::decode`); `None` where it reports an error.
#[verifier::external_body]
pub(crate) fn base64_decode(text: &str) -> (r: Option<Vec<u8>>)
    ensures
        match r {
            Some(b) => base64_decoded(text@) == Some(b@),
            None => base64_decoded(text@) is None,
        },
{
    base64::decode(text).ok()
}

/// Encodes bytes in standard Base64 without padding
/// (`base64::encode_config` with `base64::STANDARD_NO_PAD`).
#[verifier::external_body]
pub(crate) fn base64_encode_unpadded(data: &[u8]) -> (r: String)
    ensures
        r@ == base64_unpadded(data@),
{
    base64::encode_config(data, base64::STANDARD_NO_PAD)
}

/// Decodes UTF-8 (`String::from_utf8`, documented to fail exactly on bytes
/// that are not valid UTF-8).
#[verifier::external_body]
pub(crate) fn utf8_string(bytes: Vec<u8>) -> (r: Option<String>)
    ensures
        r is Some <==> valid_utf8(bytes@),
        r matches Some(s) ==> s@ == decode_utf8(bytes@),
{
    String::from_utf8(bytes).ok()
}

} // verus!
