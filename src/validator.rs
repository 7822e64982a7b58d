//! The rule set and the capability of being checked against one.
use vstd::prelude::*;
use vstd::string::*;
use crate::text::{Decimal, digits, digits_text};

verus! {

/// A set of optional validation rules: an inclusive length bound, a regular
/// expression, and an inclusive numeric bound. A rule that is unset never
/// fails.
pub struct Validator {
    pub length: Option<(usize, usize)>,
    pub pattern: Option<String>,
    pub range: Option<(Decimal, Decimal)>,
}

impl Validator {
    /// The numeric bounds, when set, are well-formed decimals.
    pub open spec fn wf(&self) -> bool {
        match self.range {
            Some((lo, hi)) => lo.wf() && hi.wf(),
            None => true,
        }
    }

    /// The pattern's source text, when set.
    pub open spec fn pattern_source(&self) -> Option<Seq<char>> {
        match self.pattern {
            Some(p) => Some(p@),
            None => None,
        }
    }

    /// A rule set with no rule.
    pub fn new() -> (r: Validator)
        ensures
            r.wf(),
            r.length is None,
            r.pattern is None,
            r.range is None,
    {
        Validator { length: None, pattern: None, range: None }
    }

    /// Sets the inclusive length bound `min..=max`, keeping the other rules.
    pub fn length(self, min: usize, max: usize) -> (r: Validator)
        ensures
            r.length == Some((min, max)),
            r.pattern == self.pattern,
            r.range == self.range,
    {
        Validator { length: Some((min, max)), ..self }
    }

    /// Sets the regular expression, keeping the other rules. It is compiled
    /// only when a string is checked.
    pub fn pattern(self, regex: &str) -> (r: Validator)
        ensures
            r.pattern_source() == Some(regex@),
            r.length == self.length,
            r.range == self.range,
    {
        Validator { pattern: Some(String::from_str(regex)), ..self }
    }

    /// Sets the inclusive numeric bound `min..=max`, keeping the other rules.
    pub fn range(self, min: Decimal, max: Decimal) -> (r: Validator)
        ensures
            r.range == Some((min, max)),
            r.length == self.length,
            r.pattern == self.pattern,
    {
        Validator { range: Some((min, max)), ..self }
    }

    /// Whether the numeric bounds, when set, are well-formed decimals, as
    /// checking a value requires.
    pub fn well_formed(&self) -> (r: bool)
        ensures
            r == self.wf(),
    {
        match &self.range {
            Some((lo, hi)) => lo.well_formed() && hi.well_formed(),
            None => true,
        }
    }
}

/// `r` reports `failure`: `Ok` when there is none, else exactly its message.
pub open spec fn reports(r: Result<(), String>, failure: Option<Seq<char>>) -> bool {
    match r {
        Ok(()) => failure is None,
        Err(m) => failure == Some(m@),
    }
}

/// A value that can be checked against a rule set.
pub trait Validatable {
    /// The message of the first rule that `self` breaks under `validator`,
    /// or `None` when it passes.
    spec fn failure(&self, validator: Validator) -> Option<Seq<char>>;

    /// Checks `self` against `validator`.
    fn validate(&self, validator: &Validator) -> (r: Result<(), String>)
        requires
            validator.wf(),
        ensures
            reports(r, self.failure(*validator)),
    ;

    /// A rule set with no rule passes `self`.
    proof fn lemma_no_rule_passes(&self, validator: Validator)
        requires
            validator.length is None,
            validator.pattern is None,
            validator.range is None,
        ensures
            self.failure(validator) is None,
    ;
}

/// Whether `n` lies outside the length bound, when one is set.
pub open spec fn breaks_length(bound: Option<(usize, usize)>, n: nat) -> bool {
    match bound {
        Some((min, max)) => !(min <= n <= max),
        None => false,
    }
}

/// `"<prefix><min> and <max>, but was <actual>"`.
pub open spec fn between_text(
    prefix: Seq<char>,
    min: Seq<char>,
    max: Seq<char>,
    actual: Seq<char>,
) -> Seq<char> {
    prefix + min + " and "@ + max + ", but was "@ + actual
}

/// The message of a count outside `min..=max`.
pub open spec fn count_text(prefix: Seq<char>, min: usize, max: usize, n: nat) -> Seq<char> {
    between_text(prefix, digits(min as nat), digits(max as nat), digits(n))
}

pub fn between_message(prefix: &str, min: &String, max: &String, actual: &String) -> (r: String)
    ensures
        r@ == between_text(prefix@, min@, max@, actual@),
{
    let mut r = String::from_str(prefix);
    r.append(min.as_str());
    r.append(" and ");
    r.append(max.as_str());
    r.append(", but was ");
    r.append(actual.as_str());
    r
}

pub fn count_message(prefix: &str, min: usize, max: usize, n: usize) -> (r: String)
    ensures
        r@ == count_text(prefix@, min, max, n as nat),
{
    between_message(
        prefix,
        &digits_text(min as u128),
        &digits_text(max as u128),
        &digits_text(n as u128),
    )
}

} // verus!
