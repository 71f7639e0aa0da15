//! Fixed-precision decimal amounts.
//!
//! An [`Amount`] stands for the number `mantissa / 10^scale`, with a mantissa of
//! at most 96 bits and a scale of at most 28. The arithmetic itself is done by
//! `rust_decimal`; this module holds the value as two integers, so that the
//! rest of the library can state what it computes.

use vstd::prelude::*;
use rust_decimal::Decimal;
use std::cmp::Ordering;

verus! {

/// The largest scale (number of fractional digits) an amount can have.
pub const MAX_SCALE: u32 = 28;

/// The largest absolute value of a mantissa: `2^96 - 1`.
pub const MAX_MANTISSA: i128 = 0xFFFF_FFFF_FFFF_FFFF_FFFF_FFFF;

/// `10^n`.
pub open spec fn pow10(n: nat) -> int
    decreases n,
{
    if n == 0 {
        1
    } else {
        10 * pow10((n - 1) as nat)
    }
}

/// A decimal number `mantissa / 10^scale`.
#[derive(Clone, Copy, Debug)]
pub struct Amount {
    mantissa: i128,
    scale: u32,
}

/// What `Decimal::checked_add` gives for two amounts: `None` on overflow.
pub uninterp spec fn decimal_sum(a: Amount, b: Amount) -> Option<Amount>;

/// What `Decimal::checked_sub` gives for two amounts: `None` on overflow.
pub uninterp spec fn decimal_difference(a: Amount, b: Amount) -> Option<Amount>;

/// What `Decimal::checked_mul` gives for two amounts: `None` on overflow.
pub uninterp spec fn decimal_product(a: Amount, b: Amount) -> Option<Amount>;

/// What `Decimal::checked_div` gives for two amounts: `None` on overflow and
/// for a zero divisor.
pub uninterp spec fn decimal_quotient(a: Amount, b: Amount) -> Option<Amount>;

/// The text that `Decimal`'s `Display` writes for an amount.
pub uninterp spec fn decimal_text(a: Amount) -> Seq<char>;

impl Amount {
    #[verifier::type_invariant]
    pub closed spec fn in_range(self) -> bool {
        &&& -MAX_MANTISSA <= self.mantissa <= MAX_MANTISSA
        &&& self.scale <= MAX_SCALE
    }

    /// The integer `m` of `m / 10^e`.
    pub closed spec fn mantissa_spec(self) -> int {
        self.mantissa as int
    }

    /// The exponent `e` of `m / 10^e`.
    pub closed spec fn scale_spec(self) -> nat {
        self.scale as nat
    }

    /// The amount with the given mantissa and scale.
    pub closed spec fn of(mantissa: int, scale: nat) -> Amount {
        Amount { mantissa: mantissa as i128, scale: scale as u32 }
    }

    /// The amount `0`, with scale 0.
    pub open spec fn zero_spec() -> Amount {
        Amount::of(0, 0)
    }

    /// The amount `1`, with scale 0.
    pub open spec fn one_spec() -> Amount {
        Amount::of(1, 0)
    }

    pub open spec fn is_zero_spec(self) -> bool {
        self.mantissa_spec() == 0
    }

    /// `self` and `other` are the same number, whatever their scales.
    pub open spec fn eq_value(self, other: Amount) -> bool {
        self.mantissa_spec() * pow10(other.scale_spec()) == other.mantissa_spec() * pow10(
            self.scale_spec(),
        )
    }

    /// `self` is a smaller number than `other`.
    pub open spec fn lt_value(self, other: Amount) -> bool {
        self.mantissa_spec() * pow10(other.scale_spec()) < other.mantissa_spec() * pow10(
            self.scale_spec(),
        )
    }

    /// `self` is at most `other`.
    pub open spec fn le_value(self, other: Amount) -> bool {
        self.lt_value(other) || self.eq_value(other)
    }

    /// The absolute value, at the same scale.
    pub open spec fn abs_spec(self) -> Amount {
        if self.mantissa_spec() < 0 {
            Amount::of(-self.mantissa_spec(), self.scale_spec())
        } else {
            self
        }
    }

    /// `Amount::of` gives back what it was made of, within the range of the type.
    pub proof fn lemma_of(mantissa: int, scale: nat)
        requires
            -MAX_MANTISSA <= mantissa <= MAX_MANTISSA,
            scale <= MAX_SCALE,
        ensures
            Amount::of(mantissa, scale).mantissa_spec() == mantissa,
            Amount::of(mantissa, scale).scale_spec() == scale,
    {
    }

    /// The amount `num / 10^scale`.
    pub fn new(num: i64, scale: u32) -> (r: Amount)
        requires
            scale <= MAX_SCALE,
        ensures
            r == Amount::of(num as int, scale as nat),
            r.mantissa_spec() == num,
            r.scale_spec() == scale,
    {
        Amount { mantissa: num as i128, scale }
    }

    /// The amount `mantissa / 10^scale`, if both are within the range of the type.
    pub fn from_parts(mantissa: i128, scale: u32) -> (r: Option<Amount>)
        ensures
            r is Some <==> (-MAX_MANTISSA <= mantissa <= MAX_MANTISSA && scale <= MAX_SCALE),
            r matches Some(a) ==> a == Amount::of(mantissa as int, scale as nat)
                && a.mantissa_spec() == mantissa && a.scale_spec() == scale,
    {
        if -MAX_MANTISSA <= mantissa && mantissa <= MAX_MANTISSA && scale <= MAX_SCALE {
            Some(Amount { mantissa, scale })
        } else {
            None
        }
    }

    pub fn zero() -> (r: Amount)
        ensures
            r == Amount::zero_spec(),
            r.is_zero_spec(),
    {
        Amount { mantissa: 0, scale: 0 }
    }

    pub fn one() -> (r: Amount)
        ensures
            r == Amount::one_spec(),
            !r.is_zero_spec(),
    {
        Amount { mantissa: 1, scale: 0 }
    }

    pub fn mantissa(&self) -> (r: i128)
        ensures
            r == self.mantissa_spec(),
            -MAX_MANTISSA <= r <= MAX_MANTISSA,
    {
        proof {
            use_type_invariant(self);
        }
        self.mantissa
    }

    pub fn scale(&self) -> (r: u32)
        ensures
            r == self.scale_spec(),
            r <= MAX_SCALE,
    {
        proof {
            use_type_invariant(self);
        }
        self.scale
    }

    pub fn is_zero(&self) -> (r: bool)
        ensures
            r == self.is_zero_spec(),
    {
        self.mantissa == 0
    }

    /// Whether the two amounts are the same number.
    pub fn same_value(&self, other: &Amount) -> (r: bool)
        ensures
            r == self.eq_value(*other),
    {
        match ordering_of(*self, *other) {
            Ordering::Equal => true,
            _ => false,
        }
    }

    /// Whether `self` is a smaller number than `other`.
    pub fn less_than(&self, other: &Amount) -> (r: bool)
        ensures
            r == self.lt_value(*other),
    {
        match ordering_of(*self, *other) {
            Ordering::Less => true,
            _ => false,
        }
    }

    /// Whether `self` is at most `other`.
    pub fn at_most(&self, other: &Amount) -> (r: bool)
        ensures
            r == self.le_value(*other),
    {
        match ordering_of(*self, *other) {
            Ordering::Greater => false,
            _ => true,
        }
    }

    /// Whether `self` is a larger number than `other`.
    pub fn greater_than(&self, other: &Amount) -> (r: bool)
        ensures
            r == other.lt_value(*self),
    {
        match ordering_of(*self, *other) {
            Ordering::Greater => true,
            _ => false,
        }
    }

    /// The absolute value.
    pub fn abs(&self) -> (r: Amount)
        ensures
            r == self.abs_spec(),
            r.scale_spec() == self.scale_spec(),
            r.mantissa_spec() == (if self.mantissa_spec() < 0 {
                -self.mantissa_spec()
            } else {
                self.mantissa_spec()
            }),
    {
        proof {
            use_type_invariant(self);
        }
        absolute_of(*self)
    }

    /// The rounded sum, or `None` where it does not fit.
    pub fn checked_add(self, other: Amount) -> (r: Option<Amount>)
        ensures
            r == decimal_sum(self, other),
    {
        sum_of(self, other)
    }

    /// The rounded difference, or `None` where it does not fit.
    pub fn checked_sub(self, other: Amount) -> (r: Option<Amount>)
        ensures
            r == decimal_difference(self, other),
    {
        difference_of(self, other)
    }

    /// The rounded product, or `None` where it does not fit.
    pub fn checked_mul(self, other: Amount) -> (r: Option<Amount>)
        ensures
            r == decimal_product(self, other),
    {
        product_of(self, other)
    }

    /// The rounded quotient, or `None` where it does not fit or `other` is zero.
    pub fn checked_div(self, other: Amount) -> (r: Option<Amount>)
        ensures
            r == decimal_quotient(self, other),
    {
        quotient_of(self, other)
    }

    /// The amount written out in decimal notation.
    pub fn to_text(&self) -> (r: String)
        ensures
            r@ == decimal_text(*self),
    {
        text_of(*self)
    }
}

impl PartialEq for Amount {
    /// Two amounts are equal when they are the same number: `1.0 == 1.00`.
    fn eq(&self, other: &Amount) -> (r: bool) {
        self.same_value(other)
    }
}

impl vstd::std_specs::cmp::PartialEqSpecImpl for Amount {
    open spec fn obeys_eq_spec() -> bool {
        true
    }

    open spec fn eq_spec(&self, other: &Amount) -> bool {
        self.eq_value(*other)
    }
}

/// `Decimal::cmp`: orders two decimals as numbers, whatever their scales.
#[verifier::external_body]
fn ordering_of(a: Amount, b: Amount) -> (r: Ordering)
    ensures
        match r {
            Ordering::Less => a.lt_value(b),
            Ordering::Equal => a.eq_value(b),
            Ordering::Greater => b.lt_value(a),
        },
{
    let x = Decimal::from_i128_with_scale(a.mantissa, a.scale);
    let y = Decimal::from_i128_with_scale(b.mantissa, b.scale);
    x.cmp(&y)
}

/// `Decimal::abs`: clears the sign and leaves the digits and the scale.
#[verifier::external_body]
fn absolute_of(a: Amount) -> (r: Amount)
    ensures
        r == a.abs_spec(),
{
    let d = Decimal::from_i128_with_scale(a.mantissa, a.scale).abs();
    Amount { mantissa: d.mantissa(), scale: d.scale() }
}

/// `Decimal::checked_add`: the sum as `rust_decimal` rounds it, `None` on
/// overflow. The contract only names the result.
#[verifier::external_body]
fn sum_of(a: Amount, b: Amount) -> (r: Option<Amount>)
    ensures
        r == decimal_sum(a, b),
{
    let x = Decimal::from_i128_with_scale(a.mantissa, a.scale);
    let y = Decimal::from_i128_with_scale(b.mantissa, b.scale);
    match x.checked_add(y) {
        Some(d) => Some(Amount { mantissa: d.mantissa(), scale: d.scale() }),
        None => None,
    }
}

/// `Decimal::checked_sub`: the difference as `rust_decimal` rounds it, `None`
/// on overflow. The contract only names the result.
#[verifier::external_body]
fn difference_of(a: Amount, b: Amount) -> (r: Option<Amount>)
    ensures
        r == decimal_difference(a, b),
{
    let x = Decimal::from_i128_with_scale(a.mantissa, a.scale);
    let y = Decimal::from_i128_with_scale(b.mantissa, b.scale);
    match x.checked_sub(y) {
        Some(d) => Some(Amount { mantissa: d.mantissa(), scale: d.scale() }),
        None => None,
    }
}

/// `Decimal::checked_mul`: the product as `rust_decimal` rounds it, `None` on
/// overflow. The contract only names the result.
#[verifier::external_body]
fn product_of(a: Amount, b: Amount) -> (r: Option<Amount>)
    ensures
        r == decimal_product(a, b),
{
    let x = Decimal::from_i128_with_scale(a.mantissa, a.scale);
    let y = Decimal::from_i128_with_scale(b.mantissa, b.scale);
    match x.checked_mul(y) {
        Some(d) => Some(Amount { mantissa: d.mantissa(), scale: d.scale() }),
        None => None,
    }
}

/// `Decimal::checked_div`: the quotient as `rust_decimal` rounds it, `None` on
/// overflow and for a zero divisor. The contract only names the result.
#[verifier::external_body]
fn quotient_of(a: Amount, b: Amount) -> (r: Option<Amount>)
    ensures
        r == decimal_quotient(a, b),
{
    let x = Decimal::from_i128_with_scale(a.mantissa, a.scale);
    let y = Decimal::from_i128_with_scale(b.mantissa, b.scale);
    match x.checked_div(y) {
        Some(d) => Some(Amount { mantissa: d.mantissa(), scale: d.scale() }),
        None => None,
    }
}

/// `Decimal`'s `Display`, through `to_string`. The contract only names the text.
#[verifier::external_body]
fn text_of(a: Amount) -> (r: String)
    ensures
        r@ == decimal_text(a),
{
    Decimal::from_i128_with_scale(a.mantissa, a.scale).to_string()
}

} // verus!
