//! A text field that takes a number.
use vstd::prelude::*;
use regex::Regex;
use crate::decimal::{parse_i32, parsed_i32};

verus! {

/// The pattern that a text has to match to count as a number. The strokes at its ends are
/// part of the pattern.
pub const INT_PATTERN: &'static str = r"/^\d+\.?\d*$/";

/// `regex::Regex`, a compiled regular expression. Nothing is known of what is inside one
/// but what `pattern_of` names.
#[verifier::external_type_specification]
#[verifier::external_body]
pub struct ExRegex(regex::Regex);

/// `regex::Error`, the reason why a pattern was refused. Nothing is known of what is inside
/// one.
#[verifier::external_type_specification]
#[verifier::external_body]
pub struct ExRegexError(regex::Error);

/// Whether the text is a pattern that can be compiled: a valid one that is not too large.
pub uninterp spec fn pattern_compiles(pattern: Seq<char>) -> bool;

/// The pattern from which a compiled expression was made.
pub uninterp spec fn pattern_of(expression: Regex) -> Seq<char>;

/// Whether the expression with the given pattern finds a match anywhere in `haystack`.
pub uninterp spec fn pattern_matches(pattern: Seq<char>, haystack: Seq<char>) -> bool;

/// `regex::Regex::new` compiles a pattern, or refuses it as invalid or too large. Whether
/// it does depends on the pattern alone. What it returns on success is an expression made
/// from that very pattern.
pub assume_specification[ Regex::new ](re: &str) -> (compiled: Result<Regex, regex::Error>)
    ensures
        compiled.is_ok() == pattern_compiles(re@),
        compiled matches Ok(expression) ==> pattern_of(expression) == re@,
;

/// `regex::Regex::is_match` says whether the expression finds a match anywhere in the
/// haystack. The answer depends on the pattern and the haystack alone.
pub assume_specification[ Regex::is_match ](expression: &Regex, haystack: &str) -> (found: bool)
    ensures
        found == pattern_matches(pattern_of(*expression), haystack@),
;

/// A text field whose content is handed on as a number.
pub struct NumberInput<'a> {
    pub number: &'a mut Option<i32>,
}

/// The number that a text field hands on: none where the text is no number, and zero where
/// it is one that cannot be read as a number of this size.
pub fn entered_number(text_is_int: bool, parsed: Option<i32>) -> (number: Option<i32>)
    ensures
        number == if !text_is_int {
            None
        } else if parsed.is_some() {
            parsed
        } else {
            Some(0i32)
        },
{
    if text_is_int {
        match parsed {
            Some(value) => Some(value),
            None => Some(0),
        }
    } else {
        None
    }
}

/// The number that a text field hands on for `text`, given whether the text matches the
/// pattern for numbers.
pub open spec fn number_of(text_is_int: bool, text: Seq<char>) -> Option<i32> {
    if !text_is_int {
        None
    } else if parsed_i32(text).is_some() {
        parsed_i32(text)
    } else {
        Some(0i32)
    }
}

impl<'a> NumberInput<'a> {
    /// Hands on the number that `text` stands for. Where the pattern for numbers cannot be
    /// compiled, nothing is handed on, and the result is `false`.
    pub fn enter(self, text: &str) -> (compiled: bool)
        ensures
            compiled == pattern_compiles(INT_PATTERN@),
            compiled ==> *final(self.number) == number_of(
                pattern_matches(INT_PATTERN@, text@),
                text@,
            ),
            !compiled ==> *final(self.number) == *old(self.number),
    {
        match is_int(text) {
            Some(found) => {
                *self.number = entered_number(found, parse_i32(text));
                true
            },
            None => false,
        }
    }
}

/// Whether `s` matches the pattern for numbers; `None` where the pattern cannot be compiled.
pub fn is_int(s: &str) -> (answer: Option<bool>)
    ensures
        answer == if pattern_compiles(INT_PATTERN@) {
            Some(pattern_matches(INT_PATTERN@, s@))
        } else {
            None
        },
{
    match Regex::new(INT_PATTERN) {
        Ok(re) => Some(re.is_match(s)),
        Err(_) => None,
    }
}

} // verus!
