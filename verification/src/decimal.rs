//! Fixed-point decimal values and the arithmetic the indicators are built on.
//!
//! A [`Dec`] is the pair of integers that `rust_decimal::Decimal` stores: a
//! signed mantissa of at most 96 bits and a scale between 0 and 28, standing
//! for `mantissa / 10^scale`. The four arithmetic operations are carried out
//! by `rust_decimal`; they round and may overflow, so their results are named
//! here rather than defined, apart from the cases with a zero or unit operand
//! that the implementation answers before doing any arithmetic.

use rust_decimal::Decimal;
use vstd::prelude::*;

verus! {

/// Largest magnitude of a mantissa, `2^96 - 1`.
pub const MAX_MANTISSA: i128 = 79_228_162_514_264_337_593_543_950_335;

/// Largest scale, the number of digits right of the decimal point.
pub const MAX_SCALE: u32 = 28;

/// A decimal number `mantissa / 10^scale`.
///
/// `==` compares the representation: `1.0` and `1.00` are different values of
/// this type although they stand for the same number. Use [`Dec::value_eq`]
/// in contracts to compare what two values stand for.
#[derive(Clone, Copy, Debug, PartialEq, Eq, Structural)]
pub struct Dec {
    pub mantissa: i128,
    pub scale: u32,
}

/// `10^e`.
pub open spec fn pow10(e: nat) -> int
    decreases e,
{
    if e == 0 {
        1
    } else {
        10 * pow10((e - 1) as nat)
    }
}

/// What `Decimal::checked_add` returns for two operands that are both
/// non-zero: the rounded sum, or `None` on overflow.
pub uninterp spec fn decimal_sum(a: Dec, b: Dec) -> Option<Dec>;

/// What `Decimal::checked_sub` returns for two operands that are both
/// non-zero: the rounded difference, or `None` on overflow.
pub uninterp spec fn decimal_difference(a: Dec, b: Dec) -> Option<Dec>;

/// What `Decimal::checked_mul` returns for two operands that are both
/// non-zero: the rounded product, or `None` on overflow.
pub uninterp spec fn decimal_product(a: Dec, b: Dec) -> Option<Dec>;

/// What `Decimal::checked_div` returns for a non-zero dividend and a divisor
/// that is neither zero nor the integer one: the rounded quotient, or `None`
/// on overflow.
pub uninterp spec fn decimal_quotient(a: Dec, b: Dec) -> Option<Dec>;

/// The sum `a + b` as the decimal arithmetic computes it.
///
/// A zero operand leaves the other operand as it is, scale included.
pub open spec fn sum_of(a: Dec, b: Dec) -> Option<Dec> {
    if a.mantissa == 0 {
        Some(b)
    } else if b.mantissa == 0 {
        Some(a)
    } else {
        decimal_sum(a, b)
    }
}

/// The difference `a - b` as the decimal arithmetic computes it.
///
/// Subtracting from zero negates `b` and keeps its scale; subtracting zero
/// leaves `a` as it is.
pub open spec fn difference_of(a: Dec, b: Dec) -> Option<Dec> {
    if a.mantissa == 0 {
        Some(b.negated())
    } else if b.mantissa == 0 {
        Some(a)
    } else {
        decimal_difference(a, b)
    }
}

/// The product `a * b` as the decimal arithmetic computes it.
///
/// A zero operand gives the zero of scale 0.
pub open spec fn product_of(a: Dec, b: Dec) -> Option<Dec> {
    if a.mantissa == 0 || b.mantissa == 0 {
        Some(Dec::zero_value())
    } else {
        decimal_product(a, b)
    }
}

/// The quotient `a / b` as the decimal arithmetic computes it.
///
/// There is no quotient by zero. Zero divided by anything else is the zero of
/// scale 0, and division by the integer one leaves `a` as it is.
pub open spec fn quotient_of(a: Dec, b: Dec) -> Option<Dec> {
    if b.mantissa == 0 {
        None
    } else if a.mantissa == 0 {
        Some(Dec::zero_value())
    } else if b == Dec::one_value() {
        Some(a)
    } else {
        decimal_quotient(a, b)
    }
}

impl Dec {
    /// The mantissa fits in 96 bits and the scale is at most 28.
    pub open spec fn wf(self) -> bool {
        &&& -MAX_MANTISSA <= self.mantissa <= MAX_MANTISSA
        &&& self.scale <= MAX_SCALE
    }

    /// The integer zero.
    pub open spec fn zero_value() -> Dec {
        Dec { mantissa: 0, scale: 0 }
    }

    /// The integer one.
    pub open spec fn one_value() -> Dec {
        Dec { mantissa: 1, scale: 0 }
    }

    /// The integer one hundred.
    pub open spec fn hundred_value() -> Dec {
        Dec { mantissa: 100, scale: 0 }
    }

    /// The integer `n`.
    pub open spec fn of_nat(n: nat) -> Dec {
        Dec { mantissa: n as i128, scale: 0 }
    }

    /// `-self`, with the same scale.
    pub open spec fn negated(self) -> Dec {
        Dec { mantissa: (-self.mantissa) as i128, scale: self.scale }
    }

    /// `|self|`, with the same scale.
    pub open spec fn magnitude(self) -> Dec {
        if self.mantissa < 0 {
            self.negated()
        } else {
            self
        }
    }

    /// `self` stands for a smaller number than `other`.
    pub open spec fn value_lt(self, other: Dec) -> bool {
        self.mantissa * pow10(other.scale as nat) < other.mantissa * pow10(self.scale as nat)
    }

    /// `self` and `other` stand for the same number.
    pub open spec fn value_eq(self, other: Dec) -> bool {
        self.mantissa * pow10(other.scale as nat) == other.mantissa * pow10(self.scale as nat)
    }

    /// The larger of two values; `self` where they stand for the same number.
    pub open spec fn value_max(self, other: Dec) -> Dec {
        if self.value_lt(other) {
            other
        } else {
            self
        }
    }

    /// Builds a decimal from its two parts, if they are in range.
    pub fn new(mantissa: i128, scale: u32) -> (r: Option<Dec>)
        ensures
            r == (if (Dec { mantissa, scale }).wf() {
                Some(Dec { mantissa, scale })
            } else {
                None
            }),
    {
        if -MAX_MANTISSA <= mantissa && mantissa <= MAX_MANTISSA && scale <= MAX_SCALE {
            Some(Dec { mantissa, scale })
        } else {
            None
        }
    }

    /// The integer zero.
    pub fn zero() -> (r: Dec)
        ensures
            r == Dec::zero_value(),
            r.wf(),
    {
        Dec { mantissa: 0, scale: 0 }
    }

    /// The integer one.
    pub fn one() -> (r: Dec)
        ensures
            r == Dec::one_value(),
            r.wf(),
    {
        Dec { mantissa: 1, scale: 0 }
    }

    /// The integer one hundred.
    pub fn hundred() -> (r: Dec)
        ensures
            r == Dec::hundred_value(),
            r.wf(),
    {
        Dec { mantissa: 100, scale: 0 }
    }

    /// The integer `n`.
    pub fn from_usize(n: usize) -> (r: Dec)
        ensures
            r == Dec::of_nat(n as nat),
            r.wf(),
    {
        Dec { mantissa: n as i128, scale: 0 }
    }

    /// Whether the value stands for zero.
    pub fn is_zero(self) -> (r: bool)
        ensures
            r == (self.mantissa == 0),
    {
        self.mantissa == 0
    }

    /// The absolute value.
    pub fn abs(self) -> (r: Dec)
        requires
            self.wf(),
        ensures
            r == self.magnitude(),
            r.wf(),
    {
        if self.mantissa < 0 {
            Dec { mantissa: -self.mantissa, scale: self.scale }
        } else {
            self
        }
    }

    /// Whether `self` stands for a smaller number than `other`.
    pub fn lt(self, other: Dec) -> (r: bool)
        requires
            self.wf(),
            other.wf(),
        ensures
            r == self.value_lt(other),
    {
        less_than(self, other)
    }

    /// The larger of two values; `self` where they stand for the same number.
    pub fn max(self, other: Dec) -> (r: Dec)
        requires
            self.wf(),
            other.wf(),
        ensures
            r == self.value_max(other),
            r.wf(),
    {
        if less_than(self, other) {
            other
        } else {
            self
        }
    }
}

/// `Decimal::checked_add` on the two values.
///
/// Trusted: the result is the sum that `rust_decimal` computes, which is the
/// other operand unchanged when one operand is zero, and every result is a
/// valid decimal. The first clause is [`sum_of`] written out.
#[verifier::external_body]
pub(crate) fn checked_sum(a: Dec, b: Dec) -> (r: Option<Dec>)
    requires
        a.wf(),
        b.wf(),
    ensures
        r == (if a.mantissa == 0 {
            Some(b)
        } else if b.mantissa == 0 {
            Some(a)
        } else {
            decimal_sum(a, b)
        }),
        r matches Some(d) ==> d.wf(),
{
    let x = Decimal::from_i128_with_scale(a.mantissa, a.scale);
    let y = Decimal::from_i128_with_scale(b.mantissa, b.scale);
    match x.checked_add(y) {
        Some(d) => Some(Dec { mantissa: d.mantissa(), scale: d.scale() }),
        None => None,
    }
}

/// `Decimal::checked_sub` on the two values.
///
/// Trusted: the result is the difference that `rust_decimal` computes, which
/// is `a` unchanged when `b` is zero and `b` with its sign flipped when `a`
/// is zero, and every result is a valid decimal. The first clause is
/// [`difference_of`] written out.
#[verifier::external_body]
pub(crate) fn checked_difference(a: Dec, b: Dec) -> (r: Option<Dec>)
    requires
        a.wf(),
        b.wf(),
    ensures
        r == (if a.mantissa == 0 {
            Some(b.negated())
        } else if b.mantissa == 0 {
            Some(a)
        } else {
            decimal_difference(a, b)
        }),
        r matches Some(d) ==> d.wf(),
{
    let x = Decimal::from_i128_with_scale(a.mantissa, a.scale);
    let y = Decimal::from_i128_with_scale(b.mantissa, b.scale);
    match x.checked_sub(y) {
        Some(d) => Some(Dec { mantissa: d.mantissa(), scale: d.scale() }),
        None => None,
    }
}

/// `Decimal::checked_mul` on the two values.
///
/// Trusted: the result is the product that `rust_decimal` computes, which is
/// the zero of scale 0 when an operand is zero, and every result is a valid
/// decimal. The first clause is [`product_of`] written out.
#[verifier::external_body]
pub(crate) fn checked_product(a: Dec, b: Dec) -> (r: Option<Dec>)
    requires
        a.wf(),
        b.wf(),
    ensures
        r == (if a.mantissa == 0 || b.mantissa == 0 {
            Some(Dec::zero_value())
        } else {
            decimal_product(a, b)
        }),
        r matches Some(d) ==> d.wf(),
{
    let x = Decimal::from_i128_with_scale(a.mantissa, a.scale);
    let y = Decimal::from_i128_with_scale(b.mantissa, b.scale);
    match x.checked_mul(y) {
        Some(d) => Some(Dec { mantissa: d.mantissa(), scale: d.scale() }),
        None => None,
    }
}

/// `Decimal::checked_div` on the two values.
///
/// Trusted: the result is the quotient that `rust_decimal` computes. It is
/// `None` for a zero divisor, the zero of scale 0 for a zero dividend, and
/// `a` unchanged for the divisor one; every result is a valid decimal. The
/// first clause is [`quotient_of`] written out.
#[verifier::external_body]
pub(crate) fn checked_quotient(a: Dec, b: Dec) -> (r: Option<Dec>)
    requires
        a.wf(),
        b.wf(),
    ensures
        r == (if b.mantissa == 0 {
            None
        } else if a.mantissa == 0 {
            Some(Dec::zero_value())
        } else if b == Dec::one_value() {
            Some(a)
        } else {
            decimal_quotient(a, b)
        }),
        r matches Some(d) ==> d.wf(),
{
    let x = Decimal::from_i128_with_scale(a.mantissa, a.scale);
    let y = Decimal::from_i128_with_scale(b.mantissa, b.scale);
    match x.checked_div(y) {
        Some(d) => Some(Dec { mantissa: d.mantissa(), scale: d.scale() }),
        None => None,
    }
}

/// `<` of `Decimal` on the two values.
///
/// Trusted: `rust_decimal` orders decimals by the numbers they stand for.
#[verifier::external_body]
pub(crate) fn less_than(a: Dec, b: Dec) -> (r: bool)
    requires
        a.wf(),
        b.wf(),
    ensures
        r == a.value_lt(b),
{
    let x = Decimal::from_i128_with_scale(a.mantissa, a.scale);
    let y = Decimal::from_i128_with_scale(b.mantissa, b.scale);
    x < y
}

/// Every power of ten is positive.
pub proof fn lemma_pow10_positive(e: nat)
    ensures
        pow10(e) > 0,
    decreases e,
{
    if e > 0 {
        lemma_pow10_positive((e - 1) as nat);
    }
}

/// `value_lt` is a strict order on the numbers that decimals stand for: no
/// value is below itself, two values are never below each other, and the
/// relation is transitive.
pub proof fn lemma_value_lt_is_strict_order(a: Dec, b: Dec, c: Dec)
    ensures
        !a.value_lt(a),
        a.value_lt(b) ==> !b.value_lt(a),
        a.value_lt(b) && b.value_lt(c) ==> a.value_lt(c),
{
    let pa = pow10(a.scale as nat);
    let pb = pow10(b.scale as nat);
    let pc = pow10(c.scale as nat);
    lemma_pow10_positive(a.scale as nat);
    lemma_pow10_positive(b.scale as nat);
    lemma_pow10_positive(c.scale as nat);
    let am = a.mantissa as int;
    let bm = b.mantissa as int;
    let cm = c.mantissa as int;
    if a.value_lt(b) && b.value_lt(c) {
        assert(am * pc < cm * pa) by (nonlinear_arith)
            requires
                am * pb < bm * pa,
                bm * pc < cm * pb,
                pa > 0,
                pb > 0,
                pc > 0,
        {
            assert((am * pb) * pc < (bm * pa) * pc);
            assert((bm * pc) * pa < (cm * pb) * pa);
            assert((am * pc) * pb < (cm * pa) * pb);
        }
    }
}

} // verus!
