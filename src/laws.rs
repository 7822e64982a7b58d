//! Properties that hold of every validation.
use vstd::prelude::*;
use crate::collection::{
    lemma_entries_pass_without_rules,
    entry_text, first_entry_failure, first_item_failure, item_text, map_failure,
    sequence_failure,
};
use crate::number::{decimal_le_whole, number_failure, whole_failure, whole_le_decimal};
use crate::string::{regex_verdict, text_failure};
use crate::structures::{accumulated, field_text};
use crate::text::{Decimal, pow10};
use crate::validator::{Validatable, Validator, breaks_length, count_text};

verus! {

/// A string passes a length bound `min..=max` (and no pattern) exactly when
/// its number of characters lies in `min..=max`; one character fewer than
/// `min` or more than `max` fails.
pub proof fn lemma_string_length_bound(s: Seq<char>, validator: Validator, min: usize, max: usize)
    requires
        validator.length == Some((min, max)),
        validator.pattern is None,
    ensures
        text_failure(s, validator) is None <==> min <= s.len() <= max,
        !(min <= s.len() <= max) ==> text_failure(s, validator) == Some(
            count_text("Length must be between "@, min, max, s.len()),
        ),
{
}

/// A container passes its length check exactly when its number of elements
/// lies in `min..=max`: outside, that is its failure; inside, the elements
/// decide.
pub proof fn lemma_container_length_bound<T: Validatable>(
    items: Seq<T>,
    validator: Validator,
    min: usize,
    max: usize,
)
    requires
        validator.length == Some((min, max)),
    ensures
        !(min <= items.len() <= max) ==> sequence_failure(items, validator) == Some(
            count_text("Collection length must be between "@, min, max, items.len()),
        ),
        min <= items.len() <= max ==> sequence_failure(items, validator) == first_item_failure(
            items,
            validator,
            0,
        ),
{
}

/// A number passes a numeric bound `lo..=hi` exactly when `lo <= x <= hi`;
/// both ends pass when the bound is not empty.
pub proof fn lemma_numeric_bound(x: Decimal, validator: Validator, lo: Decimal, hi: Decimal)
    requires
        validator.range == Some((lo, hi)),
    ensures
        number_failure(x, validator) is None <==> lo.spec_le(x) && x.spec_le(hi),
        lo.spec_le(hi) ==> number_failure(lo, validator) is None,
        lo.spec_le(hi) ==> number_failure(hi, validator) is None,
{
}

/// A whole number `x` passes a numeric bound `lo..=hi` exactly when
/// `lo <= x <= hi`; with whole bounds `a..=b` that is `a <= x <= b`, so `a`
/// and `b` themselves pass.
pub proof fn lemma_whole_bound(x: int, validator: Validator, lo: Decimal, hi: Decimal)
    requires
        validator.range == Some((lo, hi)),
    ensures
        whole_failure(x, validator) is None <==> decimal_le_whole(lo, x) && whole_le_decimal(x, hi),
        lo.scale == 0 && hi.scale == 0 ==> (whole_failure(x, validator) is None <==> lo.mantissa
            <= x <= hi.mantissa),
{
    assert(pow10(0) == 1);
}

/// Checking a string against a pattern depends on the pattern and the
/// string alone: two rule sets with the same length bound and pattern agree,
/// whatever their numeric bounds. A pattern that does not compile gives a
/// failure that names it.
pub proof fn lemma_pattern_outcome(s: Seq<char>, v1: Validator, v2: Validator, p: Seq<char>)
    requires
        v1.length == v2.length,
        v1.pattern_source() == Some(p),
        v2.pattern_source() == Some(p),
    ensures
        text_failure(s, v1) == text_failure(s, v2),
        v1.length is None ==> text_failure(s, v1) == match regex_verdict(p, s) {
            None => Some("Invalid regex pattern: "@ + p),
            Some(false) => Some("Value does not match the pattern: "@ + p),
            Some(true) => None,
        },
{
}

proof fn lemma_first_item_from<T: Validatable>(items: Seq<T>, validator: Validator, i: int, k: int)
    requires
        0 <= k <= i < items.len(),
        items[i].failure(validator) is Some,
        forall|j: int| 0 <= j < i ==> (#[trigger] items[j].failure(validator)) is None,
    ensures
        first_item_failure(items, validator, k) == Some(
            item_text(i as nat, items[i].failure(validator)->Some_0),
        ),
    decreases i - k,
{
    if k < i {
        lemma_first_item_from(items, validator, i, k + 1);
    }
}

/// Containers fail fast: when the length check passes, the failure reported
/// is that of the first failing element, at its index, whatever fails after
/// it.
pub proof fn lemma_container_fail_fast<T: Validatable>(items: Seq<T>, validator: Validator, i: int)
    requires
        validator.length is None || (validator.length->Some_0.0 <= items.len()
            <= validator.length->Some_0.1),
        0 <= i < items.len(),
        items[i].failure(validator) is Some,
        forall|j: int| 0 <= j < i ==> (#[trigger] items[j].failure(validator)) is None,
    ensures
        sequence_failure(items, validator) == Some(
            item_text(i as nat, items[i].failure(validator)->Some_0),
        ),
{
    lemma_first_item_from(items, validator, i, 0);
}

/// Structures accumulate: two failing fields are both reported, each under
/// its name, in the order the fields were checked.
pub proof fn lemma_fields_accumulate(
    first: Seq<char>,
    first_cause: Seq<char>,
    second: Seq<char>,
    second_cause: Seq<char>,
)
    ensures
        accumulated(seq![(first, Some(first_cause)), (second, Some(second_cause))]) == seq![
            field_text(first, first_cause),
            field_text(second, second_cause),
        ],
{
    let empty = Seq::<(Seq<char>, Option<Seq<char>>)>::empty();
    lemma_field_contribution(empty, first, Some(first_cause));
    let one = empty.push((first, Some(first_cause)));
    lemma_field_contribution(one, second, Some(second_cause));
    assert(one.push((second, Some(second_cause))) =~= seq![
        (first, Some(first_cause)),
        (second, Some(second_cause)),
    ]);
    assert(accumulated(one.push((second, Some(second_cause)))) =~= seq![
        field_text(first, first_cause),
        field_text(second, second_cause),
    ]);
}

/// A field that passes adds nothing; one that fails adds exactly its
/// message, after those of the fields before it.
pub proof fn lemma_field_contribution(
    outcomes: Seq<(Seq<char>, Option<Seq<char>>)>,
    field: Seq<char>,
    failure: Option<Seq<char>>,
)
    ensures
        accumulated(outcomes.push((field, failure))) == match failure {
            Some(cause) => accumulated(outcomes).push(field_text(field, cause)),
            None => accumulated(outcomes),
        },
{
    assert(outcomes.push((field, failure)).drop_last() =~= outcomes);
}

proof fn lemma_first_entry_from<K: Validatable, V: Validatable>(
    entries: Seq<(K, V)>,
    validator: Validator,
    i: int,
    k: int,
)
    requires
        0 <= k <= i < entries.len(),
        forall|j: int|
            0 <= j < i ==> (#[trigger] entries[j].0.failure(validator)) is None
                && entries[j].1.failure(validator) is None,
    ensures
        first_entry_failure(entries, validator, k) == first_entry_failure(entries, validator, i),
    decreases i - k,
{
    if k < i {
        lemma_first_entry_from(entries, validator, i, k + 1);
    }
}

/// Maps fail fast and check each entry's key before its value: when the
/// length check passes, the failure reported is that of the first failing
/// entry, whatever fails after it; a failing key is reported as the key,
/// else the failing value as the value.
pub proof fn lemma_map_key_before_value<K: Validatable, V: Validatable>(
    entries: Seq<(K, V)>,
    validator: Validator,
    i: int,
)
    requires
        !breaks_length(validator.length, entries.len()),
        0 <= i < entries.len(),
        forall|j: int|
            0 <= j < i ==> (#[trigger] entries[j].0.failure(validator)) is None
                && entries[j].1.failure(validator) is None,
    ensures
        entries[i].0.failure(validator) is Some ==> map_failure(entries, validator) == Some(
            entry_text("key"@, i as nat, entries[i].0.failure(validator)->Some_0),
        ),
        entries[i].0.failure(validator) is None && entries[i].1.failure(validator) is Some
            ==> map_failure(entries, validator) == Some(
            entry_text("value"@, i as nat, entries[i].1.failure(validator)->Some_0),
        ),
{
    lemma_first_entry_from(entries, validator, i, 0);
}

/// A map passes its length check exactly when its number of entries lies in
/// `min..=max`: outside, that is its failure; inside, the entries decide.
pub proof fn lemma_map_length_bound<K: Validatable, V: Validatable>(
    entries: Seq<(K, V)>,
    validator: Validator,
    min: usize,
    max: usize,
)
    requires
        validator.length == Some((min, max)),
    ensures
        !(min <= entries.len() <= max) ==> map_failure(entries, validator) == Some(
            count_text("HashMap length must be between "@, min, max, entries.len()),
        ),
        min <= entries.len() <= max ==> map_failure(entries, validator) == first_entry_failure(
            entries,
            validator,
            0,
        ),
{
}

/// A rule set with no rule passes every map, whatever its keys and values.
pub proof fn lemma_no_rule_passes_map<K: Validatable, V: Validatable>(
    entries: Seq<(K, V)>,
    validator: Validator,
)
    requires
        validator.length is None,
        validator.pattern is None,
        validator.range is None,
    ensures
        map_failure(entries, validator) is None,
{
    lemma_entries_pass_without_rules(entries, validator, 0);
}

/// A rule set with no rule passes every value of every type.
pub proof fn lemma_no_rule_passes_all<T: Validatable>(subject: T, validator: Validator)
    requires
        validator.length is None,
        validator.pattern is None,
        validator.range is None,
    ensures
        subject.failure(validator) is None,
{
    subject.lemma_no_rule_passes(validator);
}

} // verus!
