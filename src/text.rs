//! Decimal numbers and their rendering as text.
use vstd::prelude::*;
use vstd::string::*;

verus! {

/// The largest magnitude a `Decimal` mantissa may have (`u64::MAX`).
pub const MAX_MANTISSA: i128 = 18446744073709551615;

/// The largest number of fractional digits a `Decimal` may carry.
pub const MAX_SCALE: u8 = 18;

/// `10` raised to `n`.
pub open spec fn pow10(n: nat) -> nat
    decreases n,
{
    if n == 0 {
        1
    } else {
        10 * pow10((n - 1) as nat)
    }
}

pub proof fn lemma_pow10_positive(n: nat)
    ensures
        pow10(n) >= 1,
    decreases n,
{
    if n > 0 {
        lemma_pow10_positive((n - 1) as nat);
    }
}

pub proof fn lemma_pow10_monotonic(a: nat, b: nat)
    requires
        a <= b,
    ensures
        pow10(a) <= pow10(b),
    decreases b,
{
    if a < b {
        lemma_pow10_monotonic(a, (b - 1) as nat);
        lemma_pow10_positive((b - 1) as nat);
    }
}

pub proof fn lemma_pow10_bounded(n: nat)
    requires
        n <= MAX_SCALE,
    ensures
        1 <= pow10(n) <= 1_000_000_000_000_000_000,
{
    lemma_pow10_positive(n);
    lemma_pow10_monotonic(n, 18);
    assert(pow10(18) == 1_000_000_000_000_000_000) by {
        reveal_with_fuel(pow10, 19);
    }
}

/// An exact decimal number: `mantissa / 10^scale`.
pub struct Decimal {
    pub mantissa: i128,
    pub scale: u8,
}

impl Decimal {
    pub open spec fn wf(&self) -> bool {
        &&& -MAX_MANTISSA <= self.mantissa <= MAX_MANTISSA
        &&& self.scale <= MAX_SCALE
    }

    /// `self <= other` as rational numbers (denominators are positive, so
    /// cross-multiplying keeps the order).
    pub open spec fn spec_le(&self, other: Decimal) -> bool {
        self.mantissa * pow10(other.scale as nat) <= other.mantissa * pow10(self.scale as nat)
    }

    /// Whether the mantissa and scale lie within the supported limits.
    pub fn well_formed(&self) -> (r: bool)
        ensures
            r == self.wf(),
    {
        -MAX_MANTISSA <= self.mantissa && self.mantissa <= MAX_MANTISSA && self.scale <= MAX_SCALE
    }

    /// The integer `n`, exactly.
    pub open spec fn of_int(n: int) -> Decimal {
        Decimal { mantissa: n as i128, scale: 0 }
    }

    /// `mantissa / 10^scale`.
    pub fn new(mantissa: i64, scale: u8) -> (r: Decimal)
        requires
            scale <= MAX_SCALE,
        ensures
            r.wf(),
            r == (Decimal { mantissa: mantissa as i128, scale }),
    {
        Decimal { mantissa: mantissa as i128, scale }
    }

    /// The signed integer `n`.
    pub fn from_i64(n: i64) -> (r: Decimal)
        ensures
            r.wf(),
            r == Decimal::of_int(n as int),
    {
        Decimal { mantissa: n as i128, scale: 0 }
    }

    /// The unsigned integer `n`.
    pub fn from_u64(n: u64) -> (r: Decimal)
        ensures
            r.wf(),
            r == Decimal::of_int(n as int),
    {
        Decimal { mantissa: n as i128, scale: 0 }
    }

    /// Whether `self <= other` as numbers.
    pub fn le(&self, other: &Decimal) -> (r: bool)
        requires
            self.wf(),
            other.wf(),
        ensures
            r == self.spec_le(*other),
    {
        proof {
            lemma_pow10_bounded(self.scale as nat);
            lemma_pow10_bounded(other.scale as nat);
            let (a, b) = (self.mantissa as int, other.mantissa as int);
            let (pa, pb) = (pow10(self.scale as nat) as int, pow10(other.scale as nat) as int);
            assert(-0x1_0000_0000_0000_0000 * 1_000_000_000_000_000_000 <= a * pb
                <= 0x1_0000_0000_0000_0000 * 1_000_000_000_000_000_000) by (nonlinear_arith)
                requires
                    -MAX_MANTISSA <= a <= MAX_MANTISSA,
                    1 <= pb <= 1_000_000_000_000_000_000,
            ;
            assert(-0x1_0000_0000_0000_0000 * 1_000_000_000_000_000_000 <= b * pa
                <= 0x1_0000_0000_0000_0000 * 1_000_000_000_000_000_000) by (nonlinear_arith)
                requires
                    -MAX_MANTISSA <= b <= MAX_MANTISSA,
                    1 <= pa <= 1_000_000_000_000_000_000,
            ;
        }
        let pa = power_of_ten(self.scale) as i128;
        let pb = power_of_ten(other.scale) as i128;
        self.mantissa * pb <= other.mantissa * pa
    }

    /// The text of this number: an optional minus sign, the integer digits,
    /// then, when `scale > 0`, a point and exactly `scale` fractional digits.
    pub fn to_text(&self) -> (r: String)
        requires
            self.wf(),
        ensures
            r@ == decimal_text(*self),
    {
        proof {
            lemma_pow10_bounded(self.scale as nat);
            reveal_strlit("-");
            reveal_strlit(".");
        }
        let magnitude: u128 = if self.mantissa < 0 {
            (-self.mantissa) as u128
        } else {
            self.mantissa as u128
        };
        let unit = power_of_ten(self.scale) as u128;
        let mut out = if self.mantissa < 0 {
            String::from_str("-")
        } else {
            String::new()
        };
        assert(out@ == (if self.mantissa < 0 { seq!['-'] } else { Seq::<char>::empty() }));
        let whole = digits_text(magnitude / unit);
        out.append(whole.as_str());
        if self.scale > 0 {
            out.append(".");
            let frac = padded_digits_text(magnitude % unit, self.scale);
            out.append(frac.as_str());
        }
        out
    }
}

/// `10^n`, for the scales a `Decimal` may have.
pub fn power_of_ten(n: u8) -> (r: u64)
    requires
        n <= MAX_SCALE,
    ensures
        r as nat == pow10(n as nat),
    decreases n,
{
    proof {
        lemma_pow10_bounded(n as nat);
    }
    if n == 0 {
        1
    } else {
        proof {
            lemma_pow10_bounded((n - 1) as nat);
        }
        10 * power_of_ten(n - 1)
    }
}

/// The character of a decimal digit.
pub open spec fn digit_char(d: nat) -> char {
    if d == 0 { '0' }
    else if d == 1 { '1' }
    else if d == 2 { '2' }
    else if d == 3 { '3' }
    else if d == 4 { '4' }
    else if d == 5 { '5' }
    else if d == 6 { '6' }
    else if d == 7 { '7' }
    else if d == 8 { '8' }
    else { '9' }
}

/// The decimal digits of `n`, most significant first, without leading zeros
/// (`0` is written `"0"`).
pub open spec fn digits(n: nat) -> Seq<char>
    decreases n,
{
    if n < 10 {
        seq![digit_char(n)]
    } else {
        digits(n / 10) + seq![digit_char(n % 10)]
    }
}

/// The last `width` decimal digits of `n`, with leading zeros.
pub open spec fn padded_digits(n: nat, width: nat) -> Seq<char>
    decreases width,
{
    if width == 0 {
        Seq::empty()
    } else {
        padded_digits(n / 10, (width - 1) as nat) + seq![digit_char(n % 10)]
    }
}

/// The text of a decimal number, as `Decimal::to_text` writes it.
pub open spec fn decimal_text(d: Decimal) -> Seq<char> {
    let magnitude: nat = if d.mantissa < 0 { (-d.mantissa) as nat } else { d.mantissa as nat };
    let unit = pow10(d.scale as nat);
    let sign = if d.mantissa < 0 { seq!['-'] } else { Seq::empty() };
    let whole = sign + digits(magnitude / unit);
    if d.scale > 0 {
        whole + seq!['.'] + padded_digits(magnitude % unit, d.scale as nat)
    } else {
        whole
    }
}

fn digit_text(d: u128) -> (r: &'static str)
    requires
        d < 10,
    ensures
        r@ == seq![digit_char(d as nat)],
{
    proof {
        reveal_strlit("0");
        reveal_strlit("1");
        reveal_strlit("2");
        reveal_strlit("3");
        reveal_strlit("4");
        reveal_strlit("5");
        reveal_strlit("6");
        reveal_strlit("7");
        reveal_strlit("8");
        reveal_strlit("9");
    }
    if d == 0 { "0" }
    else if d == 1 { "1" }
    else if d == 2 { "2" }
    else if d == 3 { "3" }
    else if d == 4 { "4" }
    else if d == 5 { "5" }
    else if d == 6 { "6" }
    else if d == 7 { "7" }
    else if d == 8 { "8" }
    else { "9" }
}

/// The decimal digits of `n`.
pub fn digits_text(n: u128) -> (r: String)
    ensures
        r@ == digits(n as nat),
    decreases n,
{
    if n < 10 {
        String::from_str(digit_text(n))
    } else {
        let mut r = digits_text(n / 10);
        r.append(digit_text(n % 10));
        r
    }
}

/// The last `width` decimal digits of `n`, with leading zeros.
fn padded_digits_text(n: u128, width: u8) -> (r: String)
    ensures
        r@ == padded_digits(n as nat, width as nat),
    decreases width,
{
    if width == 0 {
        String::new()
    } else {
        let mut r = padded_digits_text(n / 10, width - 1);
        r.append(digit_text(n % 10));
        r
    }
}

} // verus!
