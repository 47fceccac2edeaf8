//! Identifiers: random ones and ones derived from a name.
use vstd::prelude::*;

use crate::text::concat;

verus! {

/// The small hexadecimal digit that stands for `n`.
pub open spec fn hex_digit(n: nat) -> char {
    if n < 10 {
        ((48 + n) as u32) as char
    } else {
        ((87 + n) as u32) as char
    }
}

/// `bytes` in hexadecimal, two digits for each byte, the higher one first.
pub open spec fn hex(bytes: Seq<u8>) -> Seq<char> {
    Seq::new(
        bytes.len() * 2,
        |i: int|
            if i % 2 == 0 {
                hex_digit((bytes[i / 2] / 16) as nat)
            } else {
                hex_digit((bytes[i / 2] % 16) as nat)
            },
    )
}

/// `bytes` in hexadecimal with hyphens after 8, 12, 16 and 20 digits.
pub open spec fn hyphenated(bytes: Seq<u8>) -> Seq<char> {
    let digits = hex(bytes);
    digits.subrange(0, 8) + "-"@ + digits.subrange(8, 12) + "-"@ + digits.subrange(12, 16) + "-"@
        + digits.subrange(16, 20) + "-"@ + digits.subrange(20, 32)
}

/// The sixteen bytes of a UUID of the given version in the variant of RFC 4122.
pub open spec fn is_uuid(bytes: Seq<u8>, version: nat) -> bool {
    &&& bytes.len() == 16
    &&& bytes[6] / 16 == version
    &&& bytes[8] / 64 == 2
}

/// The bytes of the UUID of version 5 for `name` in the namespace of object identifiers.
pub uninterp spec fn name_uuid(name: Seq<char>) -> Seq<u8>;

/// `Uuid::new_v4` of uuid: sixteen random bytes in which the version and the variant are set.
/// Nothing is said of the bits that chance decides.
#[verifier::external_body]
pub(crate) fn random_uuid() -> (bytes: [u8; 16])
    ensures
        is_uuid(bytes@, 4),
{
    uuid::Uuid::new_v4().into_bytes()
}

/// `Uuid::new_v5` of uuid with its `NAMESPACE_OID`: the first sixteen bytes of the SHA-1 of the
/// namespace and the UTF-8 bytes of the name, in which the version and the variant are set. The
/// hash itself is not written out: its outcome has the name [`name_uuid`].
#[verifier::external_body]
fn uuid_of_name(name: &str) -> (bytes: [u8; 16])
    ensures
        bytes@ == name_uuid(name@),
        is_uuid(bytes@, 5),
{
    uuid::Uuid::new_v5(&uuid::Uuid::NAMESPACE_OID, name.as_bytes()).into_bytes()
}

/// `Uuid::simple` of uuid, displayed: the bytes in small hexadecimal digits.
#[verifier::external_body]
fn simple_text(bytes: [u8; 16]) -> (text: String)
    ensures
        text@ == hex(bytes@),
{
    uuid::Uuid::from_bytes(bytes).simple().to_string()
}

/// The display form of `Uuid` of uuid: small hexadecimal digits in five groups set off by hyphens.
#[verifier::external_body]
fn hyphenated_text(bytes: [u8; 16]) -> (text: String)
    ensures
        text@ == hyphenated(bytes@),
{
    uuid::Uuid::from_bytes(bytes).to_string()
}

/// The first ten hexadecimal digits of a UUID.
pub open spec fn short(bytes: Seq<u8>) -> Seq<char> {
    hex(bytes).take(10)
}

/// `text` is `prefix` and the first ten hexadecimal digits of some random UUID.
pub open spec fn is_short_id(text: Seq<char>, prefix: Seq<char>) -> bool {
    exists|bytes: Seq<u8>| #[trigger] is_uuid(bytes, 4) && text == prefix + short(bytes)
}

/// `text` is the hyphenated form of some random UUID.
pub open spec fn is_token(text: Seq<char>) -> bool {
    exists|bytes: Seq<u8>| #[trigger] is_uuid(bytes, 4) && text == hyphenated(bytes)
}

/// `prefix` and the first ten hexadecimal digits of the UUID.
fn short_id(prefix: &str, bytes: [u8; 16]) -> (id: String)
    ensures
        id@ == prefix@ + short(bytes@),
{
    let text = simple_text(bytes);
    assert(text@.len() == 32);
    concat(prefix, text.as_str().substring_char(0, 10))
}

/// A new identifier for a task.
pub fn new_task_id() -> (id: String)
    ensures
        is_short_id(id@, "t"@),
{
    let bytes = random_uuid();
    short_id("t", bytes)
}

/// A new identifier for a helper.
pub fn new_helper_id() -> (id: String)
    ensures
        is_short_id(id@, "h_"@),
{
    let bytes = random_uuid();
    short_id("h_", bytes)
}

/// A new token.
pub fn new_token() -> (token: String)
    ensures
        is_token(token@),
{
    let bytes = random_uuid();
    hyphenated_text(bytes)
}

/// `prefix` and the first twelve hexadecimal digits of the UUID for `name`.
pub fn id_of_name(prefix: &str, name: &str) -> (id: String)
    ensures
        id@ == prefix@ + hex(name_uuid(name@)).take(12),
        name_uuid(name@).len() == 16,
{
    let bytes = uuid_of_name(name);
    let text = simple_text(bytes);
    assert(text@.len() == 32);
    concat(prefix, text.as_str().substring_char(0, 12))
}

} // verus!
