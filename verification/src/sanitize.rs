//! The rules for place identifiers, names and error texts.
use vstd::prelude::*;

use crate::order::chars_of;
use crate::text::{concat, trim};

verus! {

/// `c` is a decimal digit of ASCII.
pub open spec fn is_digit(c: char) -> bool {
    '0' <= c && c <= '9'
}

/// `c` may stand in a name: a letter or digit of ASCII, an underscore or a hyphen.
pub open spec fn is_name_char(c: char) -> bool {
    is_digit(c) || ('a' <= c && c <= 'z') || ('A' <= c && c <= 'Z') || c == '_' || c == '-'
}

/// `s` is not empty and consists of decimal digits.
pub open spec fn is_place_id(s: Seq<char>) -> bool {
    s.len() > 0 && forall|i: int| 0 <= i < s.len() ==> is_digit(#[trigger] s[i])
}

/// `s` is not empty and consists of characters that may stand in a name.
pub open spec fn is_name(s: Seq<char>) -> bool {
    s.len() > 0 && forall|i: int| 0 <= i < s.len() ==> is_name_char(#[trigger] s[i])
}

/// The message that a name holds something else.
pub open spec fn name_message(label: Seq<char>) -> Seq<char> {
    label + " must use [A-Za-z0-9_-] only"@
}

/// How many bytes of an error text are kept.
pub const SUMMARY_BYTES: usize = 180;

/// The text is short enough, or the cut falls between two characters.
pub open spec fn can_summarize(value: Seq<char>) -> bool {
    let bytes = vstd::utf8::encode_utf8(crate::text::trimmed(value));
    bytes.len() <= SUMMARY_BYTES || vstd::utf8::is_char_boundary(bytes, SUMMARY_BYTES as int)
}

/// The text without white space around it, cut off after so many bytes.
pub open spec fn summary(value: Seq<char>) -> Seq<char> {
    let text = crate::text::trimmed(value);
    let bytes = vstd::utf8::encode_utf8(text);
    if bytes.len() <= SUMMARY_BYTES {
        text
    } else {
        vstd::utf8::decode_utf8(bytes.subrange(0, SUMMARY_BYTES as int)) + "..."@
    }
}

/// Whether `c` may stand in a name.
pub fn name_char(c: char) -> (fits: bool)
    ensures
        fits == is_name_char(c),
{
    ('0' <= c && c <= '9') || ('a' <= c && c <= 'z') || ('A' <= c && c <= 'Z') || c == '_' || c == '-'
}

/// The place identifier in a text: it has to consist of digits.
pub fn sanitize_place_id(value: &str) -> (result: Result<String, String>)
    ensures
        match result {
            Ok(text) => is_place_id(crate::text::trimmed(value@)) && text@ == crate::text::trimmed(
                value@,
            ),
            Err(message) => !is_place_id(crate::text::trimmed(value@)) && message@
                == "placeId must be digits only"@,
        },
{
    let text = trim(value);
    let chars = chars_of(text);
    let mut digits = chars.len() > 0;
    let mut i: usize = 0;
    while i < chars.len()
        invariant
            i <= chars.len(),
            chars@ == text@,
            digits ==> chars.len() > 0 && forall|j: int| 0 <= j < i ==> is_digit(#[trigger] chars@[j]),
            !digits ==> !is_place_id(text@),
        decreases chars.len() - i,
    {
        if !('0' <= chars[i] && chars[i] <= '9') {
            assert(!is_digit(text@[i as int]));
            digits = false;
        }
        i += 1;
    }
    if digits {
        Ok(text.to_owned())
    } else {
        Err("placeId must be digits only".to_owned())
    }
}

/// The name in a text: letters, digits, underscores and hyphens.
pub fn sanitize_identifier(label: &str, value: &str) -> (result: Result<String, String>)
    ensures
        match result {
            Ok(text) => is_name(crate::text::trimmed(value@)) && text@ == crate::text::trimmed(
                value@,
            ),
            Err(message) => !is_name(crate::text::trimmed(value@)) && message@ == name_message(
                label@,
            ),
        },
{
    let text = trim(value);
    let chars = chars_of(text);
    let mut fits = chars.len() > 0;
    let mut i: usize = 0;
    while i < chars.len()
        invariant
            i <= chars.len(),
            chars@ == text@,
            fits ==> chars.len() > 0 && forall|j: int|
                0 <= j < i ==> is_name_char(#[trigger] chars@[j]),
            !fits ==> !is_name(text@),
        decreases chars.len() - i,
    {
        if !name_char(chars[i]) {
            assert(!is_name_char(text@[i as int]));
            fits = false;
        }
        i += 1;
    }
    if fits {
        Ok(text.to_owned())
    } else {
        Err(concat(label, " must use [A-Za-z0-9_-] only"))
    }
}

/// The optional name in a request.
pub open spec fn optional_name(value: Option<Seq<char>>) -> bool {
    value matches Some(text) ==> is_name(crate::text::trimmed(text))
}

/// The optional name in a text: it is checked only where there is one.
pub fn maybe_sanitize_identifier(label: &str, value: &Option<String>) -> (result: Result<
    Option<String>,
    String,
>)
    ensures
        match result {
            Ok(name) => optional_name(value.deep_view()) && name.deep_view() == match value {
                Some(text) => Some(crate::text::trimmed(text@)),
                None => None,
            },
            Err(message) => !optional_name(value.deep_view()) && message@ == name_message(label@),
        },
{
    match value {
        None => Ok(None),
        Some(text) => match sanitize_identifier(label, text.as_str()) {
            Ok(name) => Ok(Some(name)),
            Err(message) => Err(message),
        },
    }
}

/// Whether an error text can be shortened.
pub fn is_summarizable(value: &str) -> (fits: bool)
    ensures
        fits == can_summarize(value@),
{
    let text = trim(value);
    text.as_bytes().len() <= SUMMARY_BYTES || text.is_char_boundary(SUMMARY_BYTES)
}

/// The error text, shortened.
pub fn summarize_error(value: &str) -> (text: String)
    requires
        can_summarize(value@),
    ensures
        text@ == summary(value@),
{
    let text = trim(value);
    if text.as_bytes().len() <= SUMMARY_BYTES {
        text.to_owned()
    } else {
        let (head, _) = text.split_at(SUMMARY_BYTES);
        proof {
            vstd::utf8::encode_utf8_decode_utf8(head@);
        }
        concat(head, "...")
    }
}

/// A place identifier and a name are left as they are when they are checked again.
pub proof fn law_sanitizing_settles(value: Seq<char>)
    ensures
        crate::text::trimmed(crate::text::trimmed(value)) == crate::text::trimmed(value),
{
    crate::text::lemma_trimmed_twice(value);
}

/// A place identifier is a name.
pub proof fn law_place_ids_are_names(s: Seq<char>)
    requires
        is_place_id(s),
    ensures
        is_name(s),
{
}

} // verus!
