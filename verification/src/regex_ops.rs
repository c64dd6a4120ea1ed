use vstd::prelude::*;

verus! {

/// Whether the pattern, read as a regular expression, finds a match anywhere
/// in the text. This names the outcome of the regex engine; it is a function
/// of the two strings alone. A pattern that is not a valid regular expression
/// matches no text.
pub uninterp spec fn regex_matches(pattern: Seq<char>, text: Seq<char>) -> bool;

/// Relies on regex::Regex::new and regex::Regex::is_match: compiling the same
/// pattern and asking whether it matches anywhere in the text (a substring
/// search, not a full match) is deterministic in the two strings; a pattern
/// rejected by the compiler matches nothing.
#[verifier::external_body]
pub(crate) fn regex_find(pattern: &str, text: &str) -> (r: bool)
    ensures
        r == regex_matches(pattern@, text@),
{
    match regex::Regex::new(pattern) {
        Ok(re) => re.is_match(text),
        Err(_) => false,
    }
}

} // verus!
