//! Checking strings: a length bound over characters, then a pattern.
use vstd::prelude::*;
use vstd::string::*;
use crate::validator::{
    Validatable, Validator, breaks_length, count_message, count_text, reports,
};

verus! {

#[verifier::external_type_specification]
#[verifier::external_body]
pub struct ExRegexError(regex::Error);

/// What searching `subject` for `pattern` gives: `None` when the pattern
/// does not compile, else whether it matches somewhere in `subject`.
pub uninterp spec fn regex_verdict(pattern: Seq<char>, subject: Seq<char>) -> Option<bool>;

/// Relies on `regex::Regex::new`, which compiles `pattern` or returns an
/// error, and on `regex::Regex::is_match`, which tells whether the compiled
/// expression matches anywhere in `subject`. Both results depend on the two
/// strings alone.
#[verifier::external_body]
fn search(pattern: &str, subject: &str) -> (r: Result<bool, regex::Error>)
    ensures
        match r {
            Ok(b) => regex_verdict(pattern@, subject@) == Some(b),
            Err(_) => regex_verdict(pattern@, subject@) is None,
        },
{
    let re = regex::Regex::new(pattern)?;
    Ok(re.is_match(subject))
}

/// Trait for string-like values that can be validated.
pub trait StringExt: Validatable {}

/// The failure of a string whose length is checked first and whose pattern
/// is then tested with `verdict`, the outcome of searching it.
pub open spec fn text_failure_given(
    s: Seq<char>,
    validator: Validator,
    verdict: Option<bool>,
) -> Option<Seq<char>> {
    if breaks_length(validator.length, s.len()) {
        let (min, max) = validator.length->Some_0;
        Some(count_text("Length must be between "@, min, max, s.len()))
    } else {
        match validator.pattern_source() {
            Some(p) => match verdict {
                None => Some("Invalid regex pattern: "@ + p),
                Some(false) => Some("Value does not match the pattern: "@ + p),
                Some(true) => None,
            },
            None => None,
        }
    }
}

/// The failure of the string `s` under `validator`.
pub open spec fn text_failure(s: Seq<char>, validator: Validator) -> Option<Seq<char>> {
    let verdict = match validator.pattern_source() {
        Some(p) => regex_verdict(p, s),
        None => None,
    };
    text_failure_given(s, validator, verdict)
}

/// What remains to decide once the pattern has been searched for: the
/// result of checking `s` when `verdict` is what the search gave.
pub fn decide_text(s: &str, validator: &Validator, verdict: Option<bool>) -> (r: Result<(), String>)
    ensures
        reports(r, text_failure_given(s@, *validator, verdict)),
{
    let n = s.unicode_len();
    if let Some((min, max)) = validator.length {
        if n < min || n > max {
            return Err(count_message("Length must be between ", min, max, n));
        }
    }
    match &validator.pattern {
        Some(p) => match verdict {
            None => Err(String::from_str("Invalid regex pattern: ").concat(p.as_str())),
            Some(false) => Err(
                String::from_str("Value does not match the pattern: ").concat(p.as_str()),
            ),
            Some(true) => Ok(()),
        },
        None => Ok(()),
    }
}

/// Checks the string `s`: its length in characters against the length
/// bound, then, if that holds, `s` against the pattern. The numeric bound
/// does not apply to strings.
pub fn validate_text(s: &str, validator: &Validator) -> (r: Result<(), String>)
    ensures
        reports(r, text_failure(s@, *validator)),
{
    let verdict = match &validator.pattern {
        Some(p) => match search(p.as_str(), s) {
            Ok(b) => Some(b),
            Err(_) => None,
        },
        None => None,
    };
    decide_text(s, validator, verdict)
}

impl Validatable for String {
    open spec fn failure(&self, validator: Validator) -> Option<Seq<char>> {
        text_failure(self@, validator)
    }

    fn validate(&self, validator: &Validator) -> (r: Result<(), String>) {
        validate_text(self.as_str(), validator)
    }

    proof fn lemma_no_rule_passes(&self, validator: Validator) {
    }
}

impl<'a> Validatable for &'a str {
    open spec fn failure(&self, validator: Validator) -> Option<Seq<char>> {
        text_failure((*self)@, validator)
    }

    fn validate(&self, validator: &Validator) -> (r: Result<(), String>) {
        validate_text(*self, validator)
    }

    proof fn lemma_no_rule_passes(&self, validator: Validator) {
    }
}

impl StringExt for String {}

impl<'a> StringExt for &'a str {}

} // verus!
