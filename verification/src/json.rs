//! Texts in JSON.
use vstd::prelude::*;

verus! {

/// The text is JSON.
pub uninterp spec fn json_valid(text: Seq<char>) -> bool;

/// The text is a JSON object.
pub uninterp spec fn json_object(text: Seq<char>) -> bool;

/// The text in the field of a JSON object, where the field holds one.
pub uninterp spec fn json_field(text: Seq<char>, name: Seq<char>) -> Option<Seq<char>>;

/// The number in the field of a JSON object, where the field holds a whole number from zero up that
/// fits.
pub uninterp spec fn json_number(text: Seq<char>, name: Seq<char>) -> Option<u64>;

/// The JSON text of what the field of a JSON object holds, where there is such a field.
pub uninterp spec fn json_member(text: Seq<char>, name: Seq<char>) -> Option<Seq<char>>;

/// The JSON texts of the items in the field of a JSON object, where the field holds an array.
pub uninterp spec fn json_items(text: Seq<char>, name: Seq<char>) -> Option<Seq<Seq<char>>>;

/// The names and the JSON texts of the fields in the field of a JSON object, where that field holds
/// an object.
pub uninterp spec fn json_entries(text: Seq<char>, name: Seq<char>) -> Option<
    Seq<(Seq<char>, Seq<char>)>,
>;

/// `serde_json::from_str` to a `serde_json::Value`, and whether it succeeds: a function of the text.
#[verifier::external_body]
pub(crate) fn is_json(text: &str) -> (valid: bool)
    ensures
        valid == json_valid(text@),
{
    serde_json::from_str::<serde_json::Value>(text).is_ok()
}

/// `serde_json::from_str` to a `serde_json::Value`, and whether the value is an object: a function of
/// the text.
#[verifier::external_body]
pub(crate) fn is_json_object(text: &str) -> (object: bool)
    ensures
        object == json_object(text@),
{
    serde_json::from_str::<serde_json::Value>(text).is_ok_and(|value| value.is_object())
}

/// `serde_json::Value::get` of the value of the text, and the text that the field holds: a function of
/// the text and the name. There is none where the text is no JSON object, where it has no such field,
/// or where the field holds something else than a text.
#[verifier::external_body]
pub(crate) fn json_string_field(text: &str, name: &str) -> (field: Option<String>)
    ensures
        field.deep_view() == json_field(text@, name@),
{
    let value = serde_json::from_str::<serde_json::Value>(text).ok()?;
    value.get(name).and_then(serde_json::Value::as_str).map(|found| found.to_owned())
}

/// `serde_json::Value::get` of the value of the text, and `serde_json::Value::as_u64` of the field: a
/// function of the text and the name. There is none where the text is no JSON object, where it has no
/// such field, or where the field holds something else than a number that fits.
#[verifier::external_body]
pub(crate) fn json_number_field(text: &str, name: &str) -> (field: Option<u64>)
    ensures
        field == json_number(text@, name@),
{
    let value = serde_json::from_str::<serde_json::Value>(text).ok()?;
    value.get(name).and_then(serde_json::Value::as_u64)
}

/// `serde_json::Value::get` of the value of the text, and the field displayed as JSON again: a function
/// of the text and the name. There is none where the text is no JSON object or has no such field.
#[verifier::external_body]
pub(crate) fn json_member_text(text: &str, name: &str) -> (field: Option<String>)
    ensures
        field.deep_view() == json_member(text@, name@),
{
    let value = serde_json::from_str::<serde_json::Value>(text).ok()?;
    value.get(name).map(|found| found.to_string())
}

/// `serde_json::Value::get` of the value of the text, `serde_json::Value::as_array` of the field, and
/// each item displayed as JSON again, in order: a function of the text and the name. There is none
/// where the text is no JSON object, where it has no such field, or where the field holds something
/// else than an array.
#[verifier::external_body]
pub(crate) fn json_member_items(text: &str, name: &str) -> (items: Option<Vec<String>>)
    ensures
        items.deep_view() == json_items(text@, name@),
{
    let value = serde_json::from_str::<serde_json::Value>(text).ok()?;
    let found = value.get(name).and_then(serde_json::Value::as_array)?;
    Some(found.iter().map(|item| item.to_string()).collect())
}

/// `serde_json::Value::get` of the value of the text, `serde_json::Value::as_object` of the field, and
/// the fields of that object with their values displayed as JSON again, in the order in which
/// `serde_json::Map` holds them: a function of the text and the name. There is none where the text is
/// no JSON object, where it has no such field, or where the field holds something else than an object.
#[verifier::external_body]
pub(crate) fn json_member_entries(text: &str, name: &str) -> (entries: Option<
    Vec<(String, String)>,
>)
    ensures
        entries.deep_view() == json_entries(text@, name@),
{
    let value = serde_json::from_str::<serde_json::Value>(text).ok()?;
    let found = value.get(name).and_then(serde_json::Value::as_object)?;
    Some(found.iter().map(|(key, item)| (key.clone(), item.to_string())).collect())
}

} // verus!
