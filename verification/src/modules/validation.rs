//! The rules that decide whether the text of a field is acceptable. A rule
//! is a regular expression that must find a match somewhere in the text;
//! an empty text is never acceptable.

use vstd::prelude::*;

verus! {

/// The error of `regex::Regex::new`.
#[verifier::external_type_specification]
#[verifier::external_body]
pub struct ExPatternError(regex::Error);

/// Whether `regex::Regex::new` compiles `pattern`.
pub uninterp spec fn pattern_compiles(pattern: Seq<char>) -> bool;

/// Whether the expression compiled from `pattern` matches anywhere in
/// `text`, as `regex::Regex::is_match` reports it.
pub uninterp spec fn pattern_found(pattern: Seq<char>, text: Seq<char>) -> bool;

/// Compiles `pattern` with `regex::Regex::new` and searches `text` with
/// `regex::Regex::is_match`. The call fails exactly where the pattern does
/// not compile; otherwise it says whether the expression matches anywhere
/// in the text. Both are taken to depend on the two strings alone.
#[verifier::external_body]
fn search(pattern: &str, text: &str) -> (found: Result<bool, regex::Error>)
    ensures
        found is Ok <==> pattern_compiles(pattern@),
        found matches Ok(hit) ==> hit == pattern_found(pattern@, text@),
{
    let compiled = regex::Regex::new(pattern)?;
    Ok(compiled.is_match(text))
}

/// The rule of a field with the given pattern: the text is not empty, the
/// pattern compiles and it matches somewhere in the text.
pub open spec fn accepts(pattern: Seq<char>, text: Seq<char>) -> bool {
    text.len() > 0 && pattern_compiles(pattern) && pattern_found(pattern, text)
}

/// What the outcome of a search means for a text that is empty or not: a
/// field is acceptable where its text is not empty and the search ended
/// with a match.
pub fn verdict(text_is_empty: bool, outcome: Result<bool, regex::Error>) -> (ok: bool)
    ensures
        ok == (!text_is_empty && outcome == Ok::<bool, regex::Error>(true)),
{
    if text_is_empty {
        false
    } else {
        match outcome {
            Ok(hit) => hit,
            Err(_) => false,
        }
    }
}

/// Whether `text` is acceptable under `pattern`.
pub fn is_acceptable(pattern: &str, text: &str) -> (ok: bool)
    ensures
        ok == accepts(pattern@, text@),
{
    verdict(text.is_empty(), search(pattern, text))
}

/// The pattern of a name: at least one character that is no line break.
pub const NAME_PATTERN: &'static str = ".+";

/// The pattern of an address: four groups of one to three digits with dots
/// between them, or the word `localhost`.
pub const ADDRESS_PATTERN: &'static str =
    "([0-9]{1,3}\\.[0-9]{1,3}\\.[0-9]{1,3}\\.[0-9]{1,3})|(localhost)";

/// The pattern of a port: one to five digits.
pub const PORT_PATTERN: &'static str = "[0-9]{1,5}";

/// The rule of a name field.
pub open spec fn name_rule(text: Seq<char>) -> bool {
    accepts(NAME_PATTERN@, text)
}

/// The rule of an address field.
pub open spec fn address_rule(text: Seq<char>) -> bool {
    accepts(ADDRESS_PATTERN@, text)
}

/// The rule of a port field.
pub open spec fn port_rule(text: Seq<char>) -> bool {
    accepts(PORT_PATTERN@, text)
}

} // verus!
