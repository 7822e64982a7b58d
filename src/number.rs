//! Checking numbers against the inclusive numeric bound.
use vstd::prelude::*;
use vstd::string::*;
use crate::text::{Decimal, MAX_MANTISSA, decimal_text, digits, digits_text, pow10};
use crate::text::{lemma_pow10_bounded, power_of_ten};
use crate::validator::{Validatable, Validator, between_message, between_text, reports};

verus! {

/// Trait for numbers that can be validated.
pub trait NumberExt: Validatable {}

/// The failure of the number `x` under `validator`: outside the numeric
/// bound `lo..=hi`, when one is set.
pub open spec fn number_failure(x: Decimal, validator: Validator) -> Option<Seq<char>> {
    match validator.range {
        Some((lo, hi)) => if lo.spec_le(x) && x.spec_le(hi) {
            None
        } else {
            Some(
                between_text(
                    "Value must be between "@,
                    decimal_text(lo),
                    decimal_text(hi),
                    decimal_text(x),
                ),
            )
        },
        None => None,
    }
}

/// Checks the number `x` against the numeric bound, inclusive at both ends.
/// The length bound and the pattern do not apply to numbers.
pub fn validate_number(x: &Decimal, validator: &Validator) -> (r: Result<(), String>)
    requires
        validator.range is Some ==> x.wf(),
        validator.wf(),
    ensures
        reports(r, number_failure(*x, *validator)),
{
    match &validator.range {
        Some((lo, hi)) => if lo.le(x) && x.le(hi) {
            Ok(())
        } else {
            Err(
                between_message(
                    "Value must be between ",
                    &lo.to_text(),
                    &hi.to_text(),
                    &x.to_text(),
                ),
            )
        },
        None => Ok(()),
    }
}

impl Validatable for Decimal {
    /// A decimal outside the supported magnitude or scale fails any
    /// numeric bound.
    open spec fn failure(&self, validator: Validator) -> Option<Seq<char>> {
        if validator.range is None || self.wf() {
            number_failure(*self, validator)
        } else {
            Some("Value is not a well-formed decimal"@)
        }
    }

    fn validate(&self, validator: &Validator) -> (r: Result<(), String>) {
        if validator.range.is_some() && !self.well_formed() {
            return Err(String::from_str("Value is not a well-formed decimal"));
        }
        validate_number(self, validator)
    }

    proof fn lemma_no_rule_passes(&self, validator: Validator) {
    }
}

impl NumberExt for Decimal {}

/// `d <= x`, for a decimal `d` and a whole number `x`.
pub open spec fn decimal_le_whole(d: Decimal, x: int) -> bool {
    d.mantissa <= x * pow10(d.scale as nat)
}

/// `x <= d`, for a whole number `x` and a decimal `d`.
pub open spec fn whole_le_decimal(x: int, d: Decimal) -> bool {
    x * pow10(d.scale as nat) <= d.mantissa
}

/// The decimal text of the whole number `x`, with a minus sign when it is
/// negative.
pub open spec fn signed_digits(x: int) -> Seq<char> {
    if x < 0 {
        seq!['-'] + digits((-x) as nat)
    } else {
        digits(x as nat)
    }
}

/// The failure of the whole number `x` under `validator`: outside the
/// numeric bound `lo..=hi`, when one is set.
pub open spec fn whole_failure(x: int, validator: Validator) -> Option<Seq<char>> {
    match validator.range {
        Some((lo, hi)) => if decimal_le_whole(lo, x) && whole_le_decimal(x, hi) {
            None
        } else {
            Some(
                between_text(
                    "Value must be between "@,
                    decimal_text(lo),
                    decimal_text(hi),
                    signed_digits(x),
                ),
            )
        },
        None => None,
    }
}

/// Compares the whole number `x` with both ends of the well-formed bound
/// `lo..=hi`.
fn whole_within(negative: bool, magnitude: u128, lo: &Decimal, hi: &Decimal) -> (r: bool)
    requires
        lo.wf(),
        hi.wf(),
    ensures
        ({
            let x = if negative { -(magnitude as int) } else { magnitude as int };
            r == (decimal_le_whole(*lo, x) && whole_le_decimal(x, *hi))
        }),
{
    let ghost x = if negative { -(magnitude as int) } else { magnitude as int };
    proof {
        lemma_pow10_bounded(lo.scale as nat);
        lemma_pow10_bounded(hi.scale as nat);
    }
    let ghost (pl, ph) = (pow10(lo.scale as nat) as int, pow10(hi.scale as nat) as int);
    if magnitude > MAX_MANTISSA as u128 {
        proof {
            if negative {
                assert(x * pl <= x) by (nonlinear_arith)
                    requires
                        x < 0,
                        pl >= 1,
                ;
            } else {
                assert(x * ph >= x) by (nonlinear_arith)
                    requires
                        x > 0,
                        ph >= 1,
                ;
            }
        }
        return false;
    }
    let m: i128 = if negative { -(magnitude as i128) } else { magnitude as i128 };
    proof {
        assert(-0x1_0000_0000_0000_0000 * 1_000_000_000_000_000_000 <= x * pl
            <= 0x1_0000_0000_0000_0000 * 1_000_000_000_000_000_000) by (nonlinear_arith)
            requires
                -MAX_MANTISSA <= x <= MAX_MANTISSA,
                1 <= pl <= 1_000_000_000_000_000_000,
        ;
        assert(-0x1_0000_0000_0000_0000 * 1_000_000_000_000_000_000 <= x * ph
            <= 0x1_0000_0000_0000_0000 * 1_000_000_000_000_000_000) by (nonlinear_arith)
            requires
                -MAX_MANTISSA <= x <= MAX_MANTISSA,
                1 <= ph <= 1_000_000_000_000_000_000,
        ;
    }
    let pl = power_of_ten(lo.scale) as i128;
    let ph = power_of_ten(hi.scale) as i128;
    lo.mantissa <= m * pl && m * ph <= hi.mantissa
}

/// Checks the whole number `x`, given by its sign and magnitude, against the
/// numeric bound, inclusive at both ends.
pub fn validate_whole(negative: bool, magnitude: u128, validator: &Validator) -> (r: Result<(), String>)
    requires
        validator.wf(),
    ensures
        reports(
            r,
            whole_failure(if negative { -(magnitude as int) } else { magnitude as int }, *validator),
        ),
{
    match &validator.range {
        Some((lo, hi)) => if whole_within(negative, magnitude, lo, hi) {
            Ok(())
        } else {
            let mut actual = if negative && magnitude > 0 {
                String::from_str("-")
            } else {
                String::new()
            };
            proof {
                reveal_strlit("-");
            }
            actual.append(digits_text(magnitude).as_str());
            assert(actual@ == signed_digits(
                if negative { -(magnitude as int) } else { magnitude as int },
            ));
            Err(between_message("Value must be between ", &lo.to_text(), &hi.to_text(), &actual))
        },
        None => Ok(()),
    }
}

impl Validatable for u8 {
    open spec fn failure(&self, validator: Validator) -> Option<Seq<char>> {
        whole_failure(*self as int, validator)
    }

    fn validate(&self, validator: &Validator) -> (r: Result<(), String>) {
        validate_whole(false, *self as u128, validator)
    }

    proof fn lemma_no_rule_passes(&self, validator: Validator) {
    }
}

impl NumberExt for u8 {}

impl Validatable for u16 {
    open spec fn failure(&self, validator: Validator) -> Option<Seq<char>> {
        whole_failure(*self as int, validator)
    }

    fn validate(&self, validator: &Validator) -> (r: Result<(), String>) {
        validate_whole(false, *self as u128, validator)
    }

    proof fn lemma_no_rule_passes(&self, validator: Validator) {
    }
}

impl NumberExt for u16 {}

impl Validatable for u32 {
    open spec fn failure(&self, validator: Validator) -> Option<Seq<char>> {
        whole_failure(*self as int, validator)
    }

    fn validate(&self, validator: &Validator) -> (r: Result<(), String>) {
        validate_whole(false, *self as u128, validator)
    }

    proof fn lemma_no_rule_passes(&self, validator: Validator) {
    }
}

impl NumberExt for u32 {}

impl Validatable for u64 {
    open spec fn failure(&self, validator: Validator) -> Option<Seq<char>> {
        whole_failure(*self as int, validator)
    }

    fn validate(&self, validator: &Validator) -> (r: Result<(), String>) {
        validate_whole(false, *self as u128, validator)
    }

    proof fn lemma_no_rule_passes(&self, validator: Validator) {
    }
}

impl NumberExt for u64 {}

impl Validatable for u128 {
    open spec fn failure(&self, validator: Validator) -> Option<Seq<char>> {
        whole_failure(*self as int, validator)
    }

    fn validate(&self, validator: &Validator) -> (r: Result<(), String>) {
        validate_whole(false, *self as u128, validator)
    }

    proof fn lemma_no_rule_passes(&self, validator: Validator) {
    }
}

impl NumberExt for u128 {}

impl Validatable for usize {
    open spec fn failure(&self, validator: Validator) -> Option<Seq<char>> {
        whole_failure(*self as int, validator)
    }

    fn validate(&self, validator: &Validator) -> (r: Result<(), String>) {
        validate_whole(false, *self as u128, validator)
    }

    proof fn lemma_no_rule_passes(&self, validator: Validator) {
    }
}

impl NumberExt for usize {}

impl Validatable for i8 {
    open spec fn failure(&self, validator: Validator) -> Option<Seq<char>> {
        whole_failure(*self as int, validator)
    }

    fn validate(&self, validator: &Validator) -> (r: Result<(), String>) {
        if *self < 0 {
            validate_whole(true, (-(*self as i128 + 1)) as u128 + 1, validator)
        } else {
            validate_whole(false, *self as u128, validator)
        }
    }

    proof fn lemma_no_rule_passes(&self, validator: Validator) {
    }
}

impl NumberExt for i8 {}

impl Validatable for i16 {
    open spec fn failure(&self, validator: Validator) -> Option<Seq<char>> {
        whole_failure(*self as int, validator)
    }

    fn validate(&self, validator: &Validator) -> (r: Result<(), String>) {
        if *self < 0 {
            validate_whole(true, (-(*self as i128 + 1)) as u128 + 1, validator)
        } else {
            validate_whole(false, *self as u128, validator)
        }
    }

    proof fn lemma_no_rule_passes(&self, validator: Validator) {
    }
}

impl NumberExt for i16 {}

impl Validatable for i32 {
    open spec fn failure(&self, validator: Validator) -> Option<Seq<char>> {
        whole_failure(*self as int, validator)
    }

    fn validate(&self, validator: &Validator) -> (r: Result<(), String>) {
        if *self < 0 {
            validate_whole(true, (-(*self as i128 + 1)) as u128 + 1, validator)
        } else {
            validate_whole(false, *self as u128, validator)
        }
    }

    proof fn lemma_no_rule_passes(&self, validator: Validator) {
    }
}

impl NumberExt for i32 {}

impl Validatable for i64 {
    open spec fn failure(&self, validator: Validator) -> Option<Seq<char>> {
        whole_failure(*self as int, validator)
    }

    fn validate(&self, validator: &Validator) -> (r: Result<(), String>) {
        if *self < 0 {
            validate_whole(true, (-(*self as i128 + 1)) as u128 + 1, validator)
        } else {
            validate_whole(false, *self as u128, validator)
        }
    }

    proof fn lemma_no_rule_passes(&self, validator: Validator) {
    }
}

impl NumberExt for i64 {}

impl Validatable for i128 {
    open spec fn failure(&self, validator: Validator) -> Option<Seq<char>> {
        whole_failure(*self as int, validator)
    }

    fn validate(&self, validator: &Validator) -> (r: Result<(), String>) {
        if *self < 0 {
            validate_whole(true, (-(*self as i128 + 1)) as u128 + 1, validator)
        } else {
            validate_whole(false, *self as u128, validator)
        }
    }

    proof fn lemma_no_rule_passes(&self, validator: Validator) {
    }
}

impl NumberExt for i128 {}

impl Validatable for isize {
    open spec fn failure(&self, validator: Validator) -> Option<Seq<char>> {
        whole_failure(*self as int, validator)
    }

    fn validate(&self, validator: &Validator) -> (r: Result<(), String>) {
        if *self < 0 {
            validate_whole(true, (-(*self as i128 + 1)) as u128 + 1, validator)
        } else {
            validate_whole(false, *self as u128, validator)
        }
    }

    proof fn lemma_no_rule_passes(&self, validator: Validator) {
    }
}

impl NumberExt for isize {}

} // verus!
