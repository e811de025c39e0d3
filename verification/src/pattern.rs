//! Searching text with a regular expression.
//!
//! The search itself is the work of the `regex_lite` crate and is not
//! verified here. What it finds has a name, [`regex_group`], so that the
//! callers' contracts can say exactly what they make of it.

use crate::status::SampleError;
use vstd::prelude::*;

verus! {

/// The error of `regex_lite` for a pattern that it cannot compile.
#[verifier::external_type_specification]
#[verifier::external_body]
pub struct ExRegexError(regex_lite::Error);

/// What the first match of `pattern` in `haystack` holds in its capture
/// group `group`: the text of the group, or nothing where there is no match
/// or the group took no part in it; an error where the pattern does not
/// compile.
pub uninterp spec fn regex_group(pattern: Seq<char>, group: nat, haystack: Seq<char>) -> Result<
    Option<Seq<char>>,
    (),
>;

/// What a search for a text found, with the text by its characters.
pub open spec fn found_view(found: Option<String>) -> Option<Seq<char>> {
    match found {
        Some(text) => Some(text@),
        None => None,
    }
}

/// Compiles `pattern` with `regex_lite::Regex::new`, searches `haystack` with
/// `Regex::captures` and reads capture group `group` of the first match with
/// `Captures::get` and `Match::as_str`.
///
/// Trusted: that the outcome is [`regex_group`] of the three arguments, which
/// claims no more than that the same arguments give the same outcome.
#[verifier::external_body]
fn first_group(pattern: &str, group: usize, haystack: &str) -> (found: Result<
    Option<String>,
    regex_lite::Error,
>)
    ensures
        regex_group(pattern@, group as nat, haystack@) == match found {
            Ok(text) => Ok::<Option<Seq<char>>, ()>(found_view(text)),
            Err(_) => Err(()),
        },
{
    let regex = regex_lite::Regex::new(pattern)?;
    Ok(regex.captures(haystack).and_then(|caps| caps.get(group)).map(|m| m.as_str().to_string()))
}

/// Searches `haystack` for the first match of `pattern` and gives the text of
/// the match's capture group `group`, or nothing where there is no match or
/// the group took no part in it. A pattern that does not compile is an error.
pub fn find_group(pattern: &str, group: usize, haystack: &str) -> (found: Result<
    Option<String>,
    SampleError,
>)
    ensures
        match found {
            Ok(text) => regex_group(pattern@, group as nat, haystack@) == Ok::<
                Option<Seq<char>>,
                (),
            >(found_view(text)),
            Err(error) => error == SampleError::BadPattern && regex_group(
                pattern@,
                group as nat,
                haystack@,
            ) is Err,
        },
{
    match first_group(pattern, group, haystack) {
        Ok(text) => Ok(text),
        Err(_) => Err(SampleError::BadPattern),
    }
}

} // verus!
