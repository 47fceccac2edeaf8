//! The checks on the text fields of requests.
use vstd::prelude::*;

use crate::text::{concat, is_blank, strip_prefix, trim};
use crate::table::dup_text;

verus! {

/// What is left of a required field; nothing when it is blank.
pub open spec fn required(value: Seq<char>) -> Option<Seq<char>> {
    if crate::text::trimmed(value).len() > 0 {
        Some(crate::text::trimmed(value))
    } else {
        None
    }
}

/// What is left of an optional field: a blank one counts as absent.
pub open spec fn optional(value: Option<Seq<char>>) -> Option<Seq<char>> {
    match value {
        Some(text) => required(text),
        None => None,
    }
}

/// The universe of a request: the newer field before the older one, and no blank text.
pub open spec fn universe(universe_id: Option<Seq<char>>, game_id: Option<Seq<char>>) -> Option<
    Seq<char>,
> {
    let given = if universe_id is Some {
        universe_id
    } else {
        game_id
    };
    match given {
        Some(text) if crate::text::trimmed(text).len() > 0 => Some(text),
        _ => None,
    }
}

/// The token in a text that may lead with the word `Bearer`.
pub open spec fn bearer(token: Seq<char>) -> Option<Seq<char>> {
    let whole = crate::text::trimmed(token);
    let raw = match crate::text::without_prefix(whole, "Bearer "@) {
        Some(rest) => rest,
        None => whole,
    };
    if whole.len() == 0 {
        None
    } else {
        required(raw)
    }
}

/// The message for a blank required field.
pub open spec fn empty_message(label: Seq<char>) -> Seq<char> {
    label + " must not be empty"@
}

/// The value of the required field `label`, or the message that it is blank.
pub fn require_non_empty(value: &str, label: &str) -> (result: Result<String, String>)
    ensures
        match result {
            Ok(text) => required(value@) == Some(text@),
            Err(message) => required(value@) is None && message@ == empty_message(label@),
        },
{
    let text = trim(value);
    if text.is_empty() {
        Err(concat(label, " must not be empty"))
    } else {
        Ok(text.to_owned())
    }
}

/// The value of an optional field.
pub fn normalize_optional_text(value: &Option<String>) -> (text: Option<String>)
    ensures
        text.deep_view() == optional(value.deep_view()),
{
    match value {
        Some(raw) => {
            let text = trim(raw.as_str());
            if text.is_empty() {
                None
            } else {
                Some(text.to_owned())
            }
        },
        None => None,
    }
}

/// The universe that a request names.
pub fn request_universe_id(universe_id: &Option<String>, legacy_game_id: &Option<String>) -> (text:
    Option<String>)
    ensures
        text.deep_view() == universe(universe_id.deep_view(), legacy_game_id.deep_view()),
{
    let given = if universe_id.is_some() {
        dup_text(universe_id)
    } else {
        dup_text(legacy_game_id)
    };
    match given {
        Some(text) => {
            if is_blank(text.as_str()) {
                None
            } else {
                Some(text)
            }
        },
        None => None,
    }
}

/// The token in a text that may lead with the word `Bearer`.
pub fn normalize_bearer_token(token: &str) -> (text: Option<String>)
    ensures
        text.deep_view() == bearer(token@),
{
    let whole = trim(token);
    if whole.is_empty() {
        return None;
    }
    let raw = match strip_prefix(whole, "Bearer ") {
        Some(rest) => trim(rest),
        None => trim(whole),
    };
    if raw.is_empty() {
        None
    } else {
        Some(raw.to_owned())
    }
}

} // verus!
