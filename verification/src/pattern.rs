//! Regular expressions.
use regex::Regex;
use vstd::prelude::*;

verus! {

/// A compiled regular expression.
#[verifier::external_type_specification]
#[verifier::external_body]
pub struct ExRegex(regex::Regex);

/// The text that a regular expression was compiled from.
pub uninterp spec fn source_of(regex: Regex) -> Seq<char>;

/// Why a text is no regular expression.
pub uninterp spec fn regex_fault(pattern: Seq<char>) -> Option<Seq<char>>;

/// The regular expression written as `pattern` matches somewhere in the text.
pub uninterp spec fn regex_matches(pattern: Seq<char>, text: Seq<char>) -> bool;

/// `regex::Regex::new`: whether the text compiles, and the text of the error where it does not, is a
/// function of the text, on machines of one pointer width: the limit on the size of what is compiled
/// counts bytes of memory. What comes out was compiled from the text, as `regex::Regex::as_str` tells.
#[verifier::external_body]
pub(crate) fn compile(pattern: &str) -> (result: Result<Regex, String>)
    ensures
        match result {
            Ok(regex) => regex_fault(pattern@) is None && source_of(regex) == pattern@,
            Err(message) => regex_fault(pattern@) is Some && regex_fault(pattern@)->0 == message@,
        },
{
    Regex::new(pattern).map_err(|error| error.to_string())
}

/// `regex::Regex::is_match`: a function of the text that the regular expression was compiled from, and
/// of the text that is searched.
#[verifier::external_body]
pub(crate) fn is_match(regex: &Regex, text: &str) -> (found: bool)
    ensures
        found == regex_matches(source_of(*regex), text@),
{
    regex.is_match(text)
}

} // verus!
