//! Bytes as base64 text.
use base64::Engine;
use vstd::prelude::*;

verus! {

/// The base64 text of `bytes` in the standard alphabet, with padding.
pub uninterp spec fn base64_text(bytes: Seq<u8>) -> Seq<char>;

/// The bytes that a base64 text in the standard alphabet with padding stands for, or why it stands
/// for none.
pub uninterp spec fn base64_bytes(text: Seq<char>) -> Result<Seq<u8>, Seq<char>>;

/// How long the base64 text of `n` bytes is: four characters for every three bytes begun.
pub open spec fn base64_len(n: nat) -> nat {
    (n + 2) / 3 * 4
}

/// The text stands for the bytes.
pub open spec fn stands_for(text: Seq<char>, bytes: Seq<u8>) -> bool {
    base64_bytes(text) is Ok && base64_bytes(text)->Ok_0 == bytes
}

/// `base64::Engine::encode` of the engine `STANDARD`: the text is a function of the bytes, its length
/// is that of a padded text, and the same engine decodes it to the bytes again. The length of the text
/// must fit into a `usize`.
#[verifier::external_body]
pub(crate) fn encode_base64(bytes: &[u8]) -> (text: String)
    requires
        bytes@.len() <= usize::MAX / 4,
    ensures
        text@ == base64_text(bytes@),
        text@.len() == base64_len(bytes@.len()),
        base64_bytes(text@) is Ok && base64_bytes(text@)->Ok_0 == bytes@,
{
    base64::engine::general_purpose::STANDARD.encode(bytes)
}

/// `base64::Engine::decode` of the engine `STANDARD`: the bytes, or the text of the error, are a
/// function of the text.
#[verifier::external_body]
pub(crate) fn decode_base64(text: &str) -> (result: Result<Vec<u8>, String>)
    ensures
        match result {
            Ok(bytes) => base64_bytes(text@) is Ok && base64_bytes(text@)->Ok_0 == bytes@,
            Err(message) => base64_bytes(text@) is Err && base64_bytes(text@)->Err_0 == message@,
        },
{
    base64::engine::general_purpose::STANDARD.decode(text).map_err(|error| error.to_string())
}

} // verus!
