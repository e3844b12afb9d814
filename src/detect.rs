use vstd::prelude::*;

verus! {

/// Whether a pattern compiles under the regex crate's syntax and size limit.
pub uninterp spec fn regex_accepts(pattern: Seq<char>) -> bool;

/// Whether the compiled pattern matches somewhere in the text.
pub uninterp spec fn regex_finds(pattern: Seq<char>, text: Seq<char>) -> bool;

#[verifier::external_type_specification]
#[verifier::external_body]
pub struct ExRegexError(regex::Error);

/// Relies on `regex::Regex::new`, which fails exactly on a pattern it does
/// not accept, and on `regex::Regex::is_match`, which tells whether the
/// compiled pattern matches anywhere in the haystack.
#[verifier::external_body]
fn regex_is_match(pattern: &str, text: &str) -> (r: Result<bool, regex::Error>)
    ensures
        r is Ok <==> regex_accepts(pattern@),
        r matches Ok(found) ==> found == regex_finds(pattern@, text@),
{
    match regex::Regex::new(pattern) {
        Ok(re) => Ok(re.is_match(text)),
        Err(e) => Err(e),
    }
}

/// A phrase that ends in 侍 after at least one other character, line breaks
/// included.
pub const SAMURAI_PATTERN: &'static str = "[\\s\\S]+?侍";

/// Whether the text holds a phrase of the form "...侍".
pub fn contains_samurai_phrase(text: &str) -> (r: bool)
    ensures
        r == (regex_accepts(SAMURAI_PATTERN@) && regex_finds(SAMURAI_PATTERN@, text@)),
{
    match regex_is_match(SAMURAI_PATTERN, text) {
        Ok(found) => found,
        Err(_) => false,
    }
}

} // verus!
