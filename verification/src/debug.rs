//! Values in the form that std's `Debug` gives them, as they stand in diagnostic messages.
use vstd::prelude::*;

use crate::text::{concat3, decimal_text, join};

verus! {

/// A text in quotation marks, with the escapes of `Debug`.
pub uninterp spec fn quoted(text: Seq<char>) -> Seq<char>;

/// `format!` of std with `{:?}` on a string: the text in quotation marks, escaped. The escapes are
/// not written out: the outcome has the name [`quoted`].
#[verifier::external_body]
pub(crate) fn quote(text: &str) -> (out: String)
    ensures
        out@ == quoted(text@),
{
    format!("{:?}", text)
}

/// A list of texts in brackets, each quoted, with commas between them.
pub open spec fn debug_list(items: Seq<Seq<char>>) -> Seq<char> {
    "["@ + crate::text::joined(items.map_values(|t: Seq<char>| quoted(t)), ", "@) + "]"@
}

/// An optional text: `Some` with the quoted text, or `None`.
pub open spec fn debug_text(text: Option<Seq<char>>) -> Seq<char> {
    match text {
        Some(t) => "Some("@ + quoted(t) + ")"@,
        None => "None"@,
    }
}

/// An optional number: `Some` with the number, or `None`.
pub open spec fn debug_number(number: Option<u128>) -> Seq<char> {
    match number {
        Some(n) => "Some("@ + crate::text::decimal(n as nat) + ")"@,
        None => "None"@,
    }
}

/// The `Debug` form of a list of texts.
pub fn list_text(items: &Vec<String>) -> (out: String)
    ensures
        out@ == debug_list(items.deep_view()),
{
    let mut parts: Vec<String> = Vec::new();
    let ghost want = items.deep_view().map_values(|t: Seq<char>| quoted(t));
    let mut i: usize = 0;
    while i < items.len()
        invariant
            i <= items.len(),
            want == items.deep_view().map_values(|t: Seq<char>| quoted(t)),
            parts.deep_view() =~= want.take(i as int),
        decreases items.len() - i,
    {
        let ghost before = parts.deep_view();
        let part = quote(items[i].as_str());
        parts.push(part);
        assert(parts.deep_view() =~= before.push(part@));
        assert(want[i as int] == part@);
        i += 1;
    }
    assert(want.take(want.len() as int) =~= want);
    concat3("[", join(&parts, ", ").as_str(), "]")
}

/// The `Debug` form of an optional text.
pub fn opt_text(text: &Option<String>) -> (out: String)
    ensures
        out@ == debug_text(text.deep_view()),
{
    match text {
        Some(t) => concat3("Some(", quote(t.as_str()).as_str(), ")"),
        None => "None".to_owned(),
    }
}

/// The `Debug` form of an optional number.
pub fn opt_number(number: Option<u128>) -> (out: String)
    ensures
        out@ == debug_number(number),
{
    match number {
        Some(n) => concat3("Some(", decimal_text(n).as_str(), ")"),
        None => "None".to_owned(),
    }
}

} // verus!
