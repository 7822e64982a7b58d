//! Checking containers: their own length first, then each element against
//! the same rule set, stopping at the first element that fails.
use vstd::prelude::*;
use vstd::string::*;
use std::collections::VecDeque;
use crate::text::{digits, digits_text};
use crate::validator::{
    Validatable, Validator, breaks_length, count_message, count_text, reports,
};

verus! {

/// Trait for collections that can be validated.
pub trait CollectionExt: Validatable {}

/// `"Invalid item at index <index>: <cause>"`.
pub open spec fn item_text(index: nat, cause: Seq<char>) -> Seq<char> {
    "Invalid item at index "@ + digits(index) + ": "@ + cause
}

/// The failure of the first element of `items`, from position `from` on,
/// that fails under `validator`, wrapped with its index.
pub open spec fn first_item_failure<T: Validatable>(
    items: Seq<T>,
    validator: Validator,
    from: int,
) -> Option<Seq<char>>
    decreases items.len() - from,
{
    if from < 0 || from >= items.len() {
        None
    } else {
        match items[from].failure(validator) {
            Some(cause) => Some(item_text(from as nat, cause)),
            None => first_item_failure(items, validator, from + 1),
        }
    }
}

/// Under a rule set with no rule, no element from `from` on fails.
pub proof fn lemma_items_pass_without_rules<T: Validatable>(
    items: Seq<T>,
    validator: Validator,
    from: int,
)
    requires
        validator.length is None,
        validator.pattern is None,
        validator.range is None,
    ensures
        first_item_failure(items, validator, from) is None,
    decreases items.len() - from,
{
    if 0 <= from < items.len() {
        items[from].lemma_no_rule_passes(validator);
        lemma_items_pass_without_rules(items, validator, from + 1);
    }
}

/// Under a rule set with no rule, no entry from `from` on fails.
pub proof fn lemma_entries_pass_without_rules<K: Validatable, V: Validatable>(
    entries: Seq<(K, V)>,
    validator: Validator,
    from: int,
)
    requires
        validator.length is None,
        validator.pattern is None,
        validator.range is None,
    ensures
        first_entry_failure(entries, validator, from) is None,
    decreases entries.len() - from,
{
    if 0 <= from < entries.len() {
        entries[from].0.lemma_no_rule_passes(validator);
        entries[from].1.lemma_no_rule_passes(validator);
        lemma_entries_pass_without_rules(entries, validator, from + 1);
    }
}

/// The failure of a sequence of elements: its length outside the bound,
/// else the first failing element.
pub open spec fn sequence_failure<T: Validatable>(
    items: Seq<T>,
    validator: Validator,
) -> Option<Seq<char>> {
    if breaks_length(validator.length, items.len()) {
        let (min, max) = validator.length->Some_0;
        Some(count_text("Collection length must be between "@, min, max, items.len()))
    } else {
        first_item_failure(items, validator, 0)
    }
}

pub fn item_message(index: usize, cause: String) -> (r: String)
    ensures
        r@ == item_text(index as nat, cause@),
{
    let mut r = String::from_str("Invalid item at index ");
    r.append(digits_text(index as u128).as_str());
    r.append(": ");
    r.append(cause.as_str());
    r
}

/// Checks the elements of `items`, in order, against `validator`; the first
/// one that fails ends the check.
pub fn validate_items<T: Validatable>(items: &[T], validator: &Validator) -> (r: Result<(), String>)
    requires
        validator.wf(),
    ensures
        reports(r, first_item_failure(items@, *validator, 0)),
{
    let mut i: usize = 0;
    while i < items.len()
        invariant
            validator.wf(),
            i <= items@.len(),
            first_item_failure(items@, *validator, 0) == first_item_failure(
                items@,
                *validator,
                i as int,
            ),
        decreases items@.len() - i,
    {
        match items[i].validate(validator) {
            Err(cause) => {
                return Err(item_message(i, cause));
            },
            Ok(()) => {},
        }
        i += 1;
    }
    Ok(())
}

/// Checks a sequence: its length against the length bound, then each
/// element against the whole rule set.
pub fn validate_sequence<T: Validatable>(items: &[T], validator: &Validator) -> (r: Result<(), String>)
    requires
        validator.wf(),
    ensures
        reports(r, sequence_failure(items@, *validator)),
{
    let n = items.len();
    if let Some((min, max)) = validator.length {
        if n < min || n > max {
            return Err(count_message("Collection length must be between ", min, max, n));
        }
    }
    validate_items(items, validator)
}

impl<T: Validatable> Validatable for Vec<T> {
    open spec fn failure(&self, validator: Validator) -> Option<Seq<char>> {
        sequence_failure(self@, validator)
    }

    fn validate(&self, validator: &Validator) -> (r: Result<(), String>) {
        validate_sequence(self.as_slice(), validator)
    }

    proof fn lemma_no_rule_passes(&self, validator: Validator) {
        lemma_items_pass_without_rules(self@, validator, 0);
    }
}

impl<T: Validatable> CollectionExt for Vec<T> {}

impl<T: Validatable> Validatable for VecDeque<T> {
    open spec fn failure(&self, validator: Validator) -> Option<Seq<char>> {
        sequence_failure(self@, validator)
    }

    fn validate(&self, validator: &Validator) -> (r: Result<(), String>) {
        let n = self.len();
        if let Some((min, max)) = validator.length {
            if n < min || n > max {
                return Err(count_message("Collection length must be between ", min, max, n));
            }
        }
        let mut i: usize = 0;
        while i < n
            invariant
                validator.wf(),
                n == self@.len(),
                !breaks_length(validator.length, n as nat),
                i <= n,
                first_item_failure(self@, *validator, 0) == first_item_failure(
                    self@,
                    *validator,
                    i as int,
                ),
            decreases n - i,
        {
            match self[i].validate(validator) {
                Err(cause) => {
                    return Err(item_message(i, cause));
                },
                Ok(()) => {},
            }
            i += 1;
        }
        Ok(())
    }

    proof fn lemma_no_rule_passes(&self, validator: Validator) {
        lemma_items_pass_without_rules(self@, validator, 0);
    }
}

impl<T: Validatable> CollectionExt for VecDeque<T> {}

/// Which part of a map entry failed.
pub open spec fn entry_text(part: Seq<char>, index: nat, cause: Seq<char>) -> Seq<char> {
    "Invalid "@ + part + " of entry "@ + digits(index) + ": "@ + cause
}

/// The failure of the first entry of `entries`, from position `from` on,
/// whose key, or else whose value, fails under `validator`.
pub open spec fn first_entry_failure<K: Validatable, V: Validatable>(
    entries: Seq<(K, V)>,
    validator: Validator,
    from: int,
) -> Option<Seq<char>>
    decreases entries.len() - from,
{
    if from < 0 || from >= entries.len() {
        None
    } else {
        match entries[from].0.failure(validator) {
            Some(cause) => Some(entry_text("key"@, from as nat, cause)),
            None => match entries[from].1.failure(validator) {
                Some(cause) => Some(entry_text("value"@, from as nat, cause)),
                None => first_entry_failure(entries, validator, from + 1),
            },
        }
    }
}

/// The failure of a map given by its entries: their number outside the
/// length bound, else the first failing key or value.
pub open spec fn map_failure<K: Validatable, V: Validatable>(
    entries: Seq<(K, V)>,
    validator: Validator,
) -> Option<Seq<char>> {
    if breaks_length(validator.length, entries.len()) {
        let (min, max) = validator.length->Some_0;
        Some(count_text("HashMap length must be between "@, min, max, entries.len()))
    } else {
        first_entry_failure(entries, validator, 0)
    }
}

fn entry_message(part: &str, index: usize, cause: String) -> (r: String)
    ensures
        r@ == entry_text(part@, index as nat, cause@),
{
    let mut r = String::from_str("Invalid ");
    r.append(part);
    r.append(" of entry ");
    r.append(digits_text(index as u128).as_str());
    r.append(": ");
    r.append(cause.as_str());
    r
}

/// Checks a map given by its entries, in the order given: their number
/// against the length bound, then for each entry its key and then its
/// value against the whole rule set. The first failure ends the check and
/// names the part that failed.
pub fn validate_entries<K: Validatable, V: Validatable>(
    entries: &[(K, V)],
    validator: &Validator,
) -> (r: Result<(), String>)
    requires
        validator.wf(),
    ensures
        reports(r, map_failure(entries@, *validator)),
{
    let n = entries.len();
    if let Some((min, max)) = validator.length {
        if n < min || n > max {
            return Err(count_message("HashMap length must be between ", min, max, n));
        }
    }
    let mut i: usize = 0;
    while i < n
        invariant
            validator.wf(),
            n == entries@.len(),
            !breaks_length(validator.length, n as nat),
            i <= n,
            first_entry_failure(entries@, *validator, 0) == first_entry_failure(
                entries@,
                *validator,
                i as int,
            ),
        decreases n - i,
    {
        let entry = &entries[i];
        assert(*entry == entries@[i as int]);
        match entry.0.validate(validator) {
            Err(cause) => {
                return Err(entry_message("key", i, cause));
            },
            Ok(()) => {},
        }
        match entry.1.validate(validator) {
            Err(cause) => {
                return Err(entry_message("value", i, cause));
            },
            Ok(()) => {},
        }
        i += 1;
    }
    Ok(())
}

} // verus!
