//! Decimal amounts of money.
//!
//! An [`Amount`] is a signed 96-bit mantissa together with a scale, the number
//! of digits after the decimal point. It stands for `mantissa / 10^scale`.
//! The arithmetic itself is done by the `rust_decimal` crate.

use rust_decimal::Decimal;
use vstd::arithmetic::power::pow;
use vstd::prelude::*;

verus! {

/// The largest magnitude of a mantissa, `2^96 - 1`.
pub const MAX_MANTISSA: i128 = 79_228_162_514_264_337_593_543_950_335;

/// The largest scale.
pub const MAX_SCALE: u32 = 28;

/// What `Decimal::checked_add` returns for two decimals, each given by its
/// mantissa and its scale: the mantissa and scale of the sum, or `None` where
/// the sum cannot be held. The crate rounds a sum that needs more digits than
/// a mantissa has, so this is not always the exact sum.
pub uninterp spec fn decimal_sum(
    a_mantissa: int,
    a_scale: int,
    b_mantissa: int,
    b_scale: int,
) -> Option<(int, int)>;

/// What `Decimal::checked_sub` returns for two decimals, each given by its
/// mantissa and its scale: the mantissa and scale of the first less the
/// second, or `None` where the difference cannot be held.
pub uninterp spec fn decimal_difference(
    a_mantissa: int,
    a_scale: int,
    b_mantissa: int,
    b_scale: int,
) -> Option<(int, int)>;

/// The operation whose result was too large to hold.
#[derive(Clone, Copy, Debug, PartialEq, Eq, Structural)]
pub enum Overflow {
    Addition,
    Subtraction,
}

/// A decimal number with at most 28 digits after the point.
#[derive(Clone, Copy, Debug)]
pub struct Amount {
    mantissa: i128,
    scale: u32,
}

impl Amount {
    /// Every amount keeps its mantissa within 96 bits and its scale within 28.
    #[verifier::type_invariant]
    pub closed spec fn in_range(self) -> bool {
        &&& -MAX_MANTISSA <= self.mantissa <= MAX_MANTISSA
        &&& self.scale <= MAX_SCALE
    }

    /// The mantissa.
    pub closed spec fn spec_mantissa(&self) -> i128 {
        self.mantissa
    }

    /// The scale.
    pub closed spec fn spec_scale(&self) -> u32 {
        self.scale
    }

    /// The amount counted in units of `10^-28`, in which every amount is a
    /// whole number.
    pub open spec fn units(self) -> int {
        self.mantissa() * pow(10, (MAX_SCALE - self.scale()) as nat)
    }

    /// The amount with the given mantissa and scale.
    pub closed spec fn from_parts(mantissa: int, scale: int) -> Amount {
        Amount { mantissa: mantissa as i128, scale: scale as u32 }
    }

    /// The number zero, with scale zero.
    pub open spec fn spec_zero() -> Amount {
        Amount::from_parts(0, 0)
    }

    /// The sum of two amounts as `rust_decimal` computes it, or `None` where
    /// it cannot be held.
    pub open spec fn sum(self, other: Amount) -> Option<Amount> {
        match decimal_sum(
            self.mantissa() as int,
            self.scale() as int,
            other.mantissa() as int,
            other.scale() as int,
        ) {
            Some((mantissa, scale)) => Some(Amount::from_parts(mantissa, scale)),
            None => None,
        }
    }

    /// This amount less another as `rust_decimal` computes it, or `None`
    /// where it cannot be held.
    pub open spec fn difference(self, other: Amount) -> Option<Amount> {
        match decimal_difference(
            self.mantissa() as int,
            self.scale() as int,
            other.mantissa() as int,
            other.scale() as int,
        ) {
            Some((mantissa, scale)) => Some(Amount::from_parts(mantissa, scale)),
            None => None,
        }
    }

    /// The sum was computed without rounding.
    pub open spec fn sum_is_exact(self, other: Amount) -> bool {
        self.sum(other) matches Some(total) && total.units() == self.units() + other.units()
    }

    /// The difference was computed without rounding.
    pub open spec fn difference_is_exact(self, other: Amount) -> bool {
        self.difference(other) matches Some(rest) && rest.units() == self.units() - other.units()
    }

    /// Zero counts no units.
    pub proof fn lemma_zero_units()
        ensures
            Amount::zero().units() == 0,
            Amount::zero().mantissa() == 0,
            Amount::zero().scale() == 0,
    {
        assert(Amount::zero().mantissa() == 0);
    }

    /// The number zero, with scale zero.
    #[verifier::when_used_as_spec(spec_zero)]
    pub fn zero() -> (r: Amount)
        ensures
            r == Amount::spec_zero(),
            r.mantissa() == 0,
            r.scale() == 0,
            r.units() == 0,
    {
        Amount { mantissa: 0, scale: 0 }
    }

    /// The amount `mantissa / 10^scale`, where it can be held.
    pub fn new(mantissa: i128, scale: u32) -> (r: Option<Amount>)
        ensures
            r is Some <==> -MAX_MANTISSA <= mantissa <= MAX_MANTISSA && scale <= MAX_SCALE,
            r matches Some(a) ==> a.mantissa() == mantissa && a.scale() == scale,
    {
        if scale <= MAX_SCALE && -MAX_MANTISSA <= mantissa && mantissa <= MAX_MANTISSA {
            Some(Amount { mantissa, scale })
        } else {
            None
        }
    }

    /// The mantissa: the amount without its decimal point.
    #[verifier::when_used_as_spec(spec_mantissa)]
    pub fn mantissa(&self) -> (m: i128)
        ensures
            m == self.spec_mantissa(),
            -MAX_MANTISSA <= m <= MAX_MANTISSA,
    {
        proof {
            use_type_invariant(self);
        }
        self.mantissa
    }

    /// The scale: how many digits of the mantissa stand after the point.
    #[verifier::when_used_as_spec(spec_scale)]
    pub fn scale(&self) -> (s: u32)
        ensures
            s == self.spec_scale(),
            s <= MAX_SCALE,
    {
        proof {
            use_type_invariant(self);
        }
        self.scale
    }

    /// Adds two amounts. `None` where the sum cannot be held.
    pub fn checked_add(self, other: Amount) -> (r: Option<Amount>)
        ensures
            r == self.sum(other),
    {
        proof {
            use_type_invariant(self);
            use_type_invariant(other);
        }
        decimal_checked_add(self, other)
    }

    /// Takes another amount from this one. `None` where the difference
    /// cannot be held.
    pub fn checked_sub(self, other: Amount) -> (r: Option<Amount>)
        ensures
            r == self.difference(other),
    {
        proof {
            use_type_invariant(self);
            use_type_invariant(other);
        }
        decimal_checked_sub(self, other)
    }

    /// Whether this amount is at most the other. Amounts are ordered by the
    /// number they stand for, whatever their scales.
    pub fn le(&self, other: &Amount) -> (r: bool)
        ensures
            r == (self.units() <= other.units()),
    {
        proof {
            use_type_invariant(self);
            use_type_invariant(other);
        }
        decimal_le(*self, *other)
    }

    /// Whether the two amounts stand for the same number.
    pub fn same_value(&self, other: &Amount) -> (r: bool)
        ensures
            r == (self.units() == other.units()),
    {
        self.le(other) && other.le(self)
    }

    /// Whether this amount is below zero.
    pub fn is_negative(&self) -> (r: bool)
        ensures
            r == (self.units() < 0),
    {
        !Amount::zero().le(self)
    }

    /// This amount, or zero where it is below zero.
    pub fn floor_at_zero(self) -> (r: Amount)
        ensures
            r == (if self.units() < 0 {
                Amount::zero()
            } else {
                self
            }),
            r.units() >= 0,
    {
        if self.is_negative() {
            Amount::zero()
        } else {
            self
        }
    }
}

/// Calls `Decimal::checked_add` of `rust_decimal`. Nothing is proved of the
/// sum but that it is the one the crate computes for these two decimals.
#[verifier::external_body]
fn decimal_checked_add(a: Amount, b: Amount) -> (r: Option<Amount>)
    requires
        a.in_range(),
        b.in_range(),
    ensures
        r matches Some(c) ==> c.in_range(),
        match r {
            Some(c) => decimal_sum(
                a.mantissa() as int,
                a.scale() as int,
                b.mantissa() as int,
                b.scale() as int,
            ) == Some((c.mantissa() as int, c.scale() as int)),
            None => decimal_sum(
                a.mantissa() as int,
                a.scale() as int,
                b.mantissa() as int,
                b.scale() as int,
            ) is None,
        },
{
    let x = Decimal::from_i128_with_scale(a.mantissa, a.scale);
    let y = Decimal::from_i128_with_scale(b.mantissa, b.scale);
    match x.checked_add(y) {
        Some(z) => Some(Amount { mantissa: z.mantissa(), scale: z.scale() }),
        None => None,
    }
}

/// Calls `Decimal::checked_sub` of `rust_decimal`. Nothing is proved of the
/// difference but that it is the one the crate computes for these two
/// decimals.
#[verifier::external_body]
fn decimal_checked_sub(a: Amount, b: Amount) -> (r: Option<Amount>)
    requires
        a.in_range(),
        b.in_range(),
    ensures
        r matches Some(c) ==> c.in_range(),
        match r {
            Some(c) => decimal_difference(
                a.mantissa() as int,
                a.scale() as int,
                b.mantissa() as int,
                b.scale() as int,
            ) == Some((c.mantissa() as int, c.scale() as int)),
            None => decimal_difference(
                a.mantissa() as int,
                a.scale() as int,
                b.mantissa() as int,
                b.scale() as int,
            ) is None,
        },
{
    let x = Decimal::from_i128_with_scale(a.mantissa, a.scale);
    let y = Decimal::from_i128_with_scale(b.mantissa, b.scale);
    match x.checked_sub(y) {
        Some(z) => Some(Amount { mantissa: z.mantissa(), scale: z.scale() }),
        None => None,
    }
}

/// Calls `<=` on two `Decimal`s of `rust_decimal`, which orders decimals by
/// the number they stand for: the crate brings both to one scale and then
/// looks at the mantissas.
#[verifier::external_body]
fn decimal_le(a: Amount, b: Amount) -> (r: bool)
    requires
        a.in_range(),
        b.in_range(),
    ensures
        r == (a.units() <= b.units()),
{
    let x = Decimal::from_i128_with_scale(a.mantissa, a.scale);
    let y = Decimal::from_i128_with_scale(b.mantissa, b.scale);
    x <= y
}

} // verus!
