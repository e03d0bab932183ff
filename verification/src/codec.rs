//! The encodings that the node takes from outside: JSON string literals and
//! base64 from `cosmwasm_std`, lowercasing from `std`. Each is a function of its
//! argument alone; its result is named here and nothing more is said of it.

use vstd::prelude::*;

verus! {

/// The JSON string literal for `text`, quotes and escapes included, as bytes.
pub uninterp spec fn json_text(text: Seq<char>) -> Seq<u8>;

/// The padded standard base64 text of `data`.
pub uninterp spec fn base64_text(data: Seq<u8>) -> Seq<char>;

/// The lowercase form of `text`.
pub uninterp spec fn lowercase_text(text: Seq<char>) -> Seq<char>;

/// `cosmwasm_std::to_json_binary` on a string slice. Believed, not proved: the
/// serializer writes a string without an error path, so the result is always
/// there, and it is the JSON string literal of `text`.
#[verifier::external_body]
pub(crate) fn json_string(text: &str) -> (encoded: Option<Vec<u8>>)
    ensures
        encoded is Some,
        encoded->Some_0@ == json_text(text@),
{
    cosmwasm_std::to_json_binary(text).ok().map(Vec::from)
}

/// `cosmwasm_std::Binary::to_base64`. Believed, not proved: the result is the
/// base64 text of `data`. The call cannot fail: the encoded length of a slice
/// that fits in memory fits in `usize`.
#[verifier::external_body]
pub(crate) fn to_base64(data: &[u8]) -> (encoded: String)
    ensures
        encoded@ == base64_text(data@),
{
    cosmwasm_std::Binary::from(data).to_base64()
}

/// `str::to_lowercase`. Believed, not proved: the result is the lowercase form
/// of `text`.
#[verifier::external_body]
pub(crate) fn to_lowercase(text: &str) -> (lowered: String)
    ensures
        lowered@ == lowercase_text(text@),
{
    text.to_lowercase()
}

} // verus!
