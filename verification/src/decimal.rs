//! Decimal amounts: the parts of a `rust_decimal::Decimal` held as plain integers, with the
//! arithmetic of that crate behind a handful of wrappers.
use rust_decimal::Decimal;
use vstd::prelude::*;

verus! {

/// Largest number of digits behind the decimal point.
pub const MAX_PLACES: u32 = 28;

/// Largest magnitude of the digits (96 bits).
pub const MAX_DIGITS: i128 = 79_228_162_514_264_337_593_543_950_335;

/// Ten to the power `n`.
pub open spec fn pow10(n: nat) -> int
    decreases n,
{
    if n == 0 {
        1
    } else {
        10 * pow10((n - 1) as nat)
    }
}

/// Whether `units` (a multiple of ten to the power of -28) is the value of some amount.
pub open spec fn representable(units: int) -> bool {
    exists|digits: int, places: nat|
        places <= MAX_PLACES && -MAX_DIGITS <= digits <= MAX_DIGITS && units == #[trigger] scaled(
            digits,
            places,
        )
}

/// `digits` with `places` of them behind the point, counted in units of ten to the power of -28.
pub open spec fn scaled(digits: int, places: nat) -> int {
    digits * pow10((MAX_PLACES - places) as nat)
}

/// A decimal number: `mantissa` with `scale` of its digits behind the point. There is a `Decimal`
/// with the digits and places of every amount, and an amount with those of every `Decimal`.
#[derive(Clone, Copy, Debug)]
pub struct Amount {
    mantissa: i128,
    scale: u32,
}

/// What `Decimal::checked_add` returns on the numbers with these digits and places, as digits
/// and places.
pub uninterp spec fn decimal_sum(
    a_digits: i128,
    a_places: u32,
    b_digits: i128,
    b_places: u32,
) -> Option<(i128, u32)>;

/// What `Decimal::checked_sub` returns on the numbers with these digits and places, as digits
/// and places.
pub uninterp spec fn decimal_difference(
    a_digits: i128,
    a_places: u32,
    b_digits: i128,
    b_places: u32,
) -> Option<(i128, u32)>;

/// What `Decimal::checked_mul` returns on the numbers with these digits and places, as digits
/// and places.
pub uninterp spec fn decimal_product(
    a_digits: i128,
    a_places: u32,
    b_digits: i128,
    b_places: u32,
) -> Option<(i128, u32)>;

impl View for Amount {
    type V = int;

    /// The value, in units of ten to the power of -28.
    open spec fn view(&self) -> int {
        scaled(self.digits() as int, self.places() as nat)
    }
}

impl Amount {
    /// The signed digits.
    pub closed spec fn digits(self) -> i128 {
        self.mantissa
    }

    /// How many of the digits stand behind the point.
    pub closed spec fn places(self) -> u32 {
        self.scale
    }

    /// The amount with these digits and places.
    pub closed spec fn of(digits: i128, places: u32) -> Amount {
        Amount { mantissa: digits, scale: places }
    }

    /// At most 28 places and at most 96 bits of digits.
    #[verifier::type_invariant]
    pub closed spec fn valid(self) -> bool {
        self.scale <= MAX_PLACES && -MAX_DIGITS <= self.mantissa <= MAX_DIGITS
    }

    /// The amount that digits and places stand for, if any.
    pub open spec fn of_parts(parts: Option<(i128, u32)>) -> Option<Amount> {
        match parts {
            Some(p) => Some(Amount::of(p.0, p.1)),
            None => None,
        }
    }

    /// The sum as decimal arithmetic gives it: rounded to what 96 bits of digits can hold,
    /// `None` where nothing can.
    pub open spec fn sum(a: Amount, b: Amount) -> Option<Amount> {
        Amount::of_parts(decimal_sum(a.digits(), a.places(), b.digits(), b.places()))
    }

    /// The difference as decimal arithmetic gives it.
    pub open spec fn difference(a: Amount, b: Amount) -> Option<Amount> {
        Amount::of_parts(decimal_difference(a.digits(), a.places(), b.digits(), b.places()))
    }

    /// The product as decimal arithmetic gives it.
    pub open spec fn product(a: Amount, b: Amount) -> Option<Amount> {
        Amount::of_parts(decimal_product(a.digits(), a.places(), b.digits(), b.places()))
    }

    /// Zero with no places.
    pub open spec fn nothing() -> Amount {
        Amount::of(0, 0)
    }

    /// The larger of the two by value, `a` where they are equal.
    pub open spec fn larger(a: Amount, b: Amount) -> Amount {
        if a@ < b@ {
            b
        } else {
            a
        }
    }

    /// The magnitude.
    pub open spec fn magnitude(a: Amount) -> Amount {
        if a.digits() < 0 {
            Amount::of((-a.digits()) as i128, a.places())
        } else {
            a
        }
    }

    /// The amount with the given digits and places; `None` where the digits take more than 96
    /// bits or more than 28 places are asked for.
    pub fn new(mantissa: i128, scale: u32) -> (r: Option<Amount>)
        ensures
            r is Some <==> scale <= MAX_PLACES && -MAX_DIGITS <= mantissa <= MAX_DIGITS,
            r matches Some(a) ==> a == Amount::of(mantissa, scale) && a.digits() == mantissa
                && a.places() == scale,
    {
        if scale <= MAX_PLACES && -MAX_DIGITS <= mantissa && mantissa <= MAX_DIGITS {
            Some(Amount { mantissa, scale })
        } else {
            None
        }
    }

    /// The signed digits.
    pub fn mantissa(&self) -> (r: i128)
        ensures
            r == self.digits(),
    {
        self.mantissa
    }

    /// How many of the digits stand behind the point.
    pub fn scale(&self) -> (r: u32)
        ensures
            r == self.places(),
    {
        self.scale
    }

    /// Zero.
    pub fn zero() -> (r: Amount)
        ensures
            r == Amount::nothing(),
            r@ == 0,
    {
        Amount { mantissa: 0, scale: 0 }
    }

    /// One.
    pub fn one() -> (r: Amount)
        ensures
            r == Amount::of(1, 0),
            r@ == pow10(28),
    {
        Amount { mantissa: 1, scale: 0 }
    }

    /// The largest amount.
    pub fn max_value() -> (r: Amount)
        ensures
            r == Amount::of(MAX_DIGITS, 0),
    {
        Amount { mantissa: MAX_DIGITS, scale: 0 }
    }

    /// Whether `self` is at most `other`.
    pub fn le(&self, other: &Amount) -> (r: bool)
        ensures
            r == (self@ <= other@),
    {
        decimal_le(*self, *other)
    }

    /// Whether `self` is below `other`.
    pub fn lt(&self, other: &Amount) -> (r: bool)
        ensures
            r == (self@ < other@),
    {
        !decimal_le(*other, *self)
    }

    /// The larger of the two, `self` where they are equal.
    pub fn max(&self, other: &Amount) -> (r: Amount)
        ensures
            r == Amount::larger(*self, *other),
    {
        if self.lt(other) {
            *other
        } else {
            *self
        }
    }

    /// The magnitude.
    pub fn abs(&self) -> (r: Amount)
        ensures
            r == Amount::magnitude(*self),
    {
        proof {
            use_type_invariant(self);
        }
        if self.mantissa < 0 {
            Amount { mantissa: -self.mantissa, scale: self.scale }
        } else {
            *self
        }
    }

    /// The sum, `None` where it is too large.
    pub fn checked_add(&self, other: &Amount) -> (r: Option<Amount>)
        ensures
            r == Amount::sum(*self, *other),
            representable(self@ + other@) ==> r is Some && r->0@ == self@ + other@,
            self@ >= 0 && other@ >= 0 && r is Some ==> r->0@ >= 0,
            r matches Some(s) ==> s.valid(),
    {
        let r = decimal_add(*self, *other);
        if let Some(s) = r {
            proof {
                use_type_invariant(&s);
            }
        }
        r
    }

    /// The difference, `None` where it is too large.
    pub fn checked_sub(&self, other: &Amount) -> (r: Option<Amount>)
        ensures
            r == Amount::difference(*self, *other),
            representable(self@ - other@) ==> r is Some && r->0@ == self@ - other@,
            self@ >= 0 && other@ >= 0 ==> r is Some && -other@ <= r->0@ <= self@,
            r matches Some(s) ==> s.valid(),
    {
        let r = decimal_sub(*self, *other);
        if let Some(s) = r {
            proof {
                use_type_invariant(&s);
            }
        }
        r
    }

    /// The product, `None` where it is too large.
    pub fn checked_mul(&self, other: &Amount) -> (r: Option<Amount>)
        ensures
            r == Amount::product(*self, *other),
            forall|units: int| #[trigger]
                representable(units) && units * pow10(28) == self@ * other@ ==> r is Some
                    && r->0@ == units,
            self@ >= 0 && other@ >= 0 && r is Some ==> r->0@ >= 0,
            r matches Some(s) ==> s.valid(),
    {
        let r = decimal_mul(*self, *other);
        if let Some(s) = r {
            proof {
                use_type_invariant(&s);
            }
        }
        r
    }
}

/// Calls `Decimal::checked_add`. Claimed of it: the result depends on the digits and places of
/// the two numbers alone; where the exact sum has at most 28 places and 96 bits of digits the
/// result is that sum; and two numbers that are not negative have no negative sum.
#[verifier::external_body]
fn decimal_add(a: Amount, b: Amount) -> (r: Option<Amount>)
    ensures
        r == Amount::of_parts(decimal_sum(a.digits(), a.places(), b.digits(), b.places())),
        representable(a@ + b@) ==> r is Some && r->0@ == a@ + b@,
        a@ >= 0 && b@ >= 0 && r is Some ==> r->0@ >= 0,
{
    let x = Decimal::from_i128_with_scale(a.mantissa, a.scale);
    let y = Decimal::from_i128_with_scale(b.mantissa, b.scale);
    x.checked_add(y).map(|d| Amount { mantissa: d.mantissa(), scale: d.scale() })
}

/// Calls `Decimal::checked_sub`. Claimed of it: the result depends on the digits and places of
/// the two numbers alone; where the exact difference has at most 28 places and 96 bits of digits
/// the result is that difference; and of two numbers that are not negative the difference is
/// always found, and rounding takes it neither above the first nor below the second negated.
#[verifier::external_body]
fn decimal_sub(a: Amount, b: Amount) -> (r: Option<Amount>)
    ensures
        r == Amount::of_parts(decimal_difference(a.digits(), a.places(), b.digits(), b.places())),
        representable(a@ - b@) ==> r is Some && r->0@ == a@ - b@,
        a@ >= 0 && b@ >= 0 ==> r is Some && -b@ <= r->0@ <= a@,
{
    let x = Decimal::from_i128_with_scale(a.mantissa, a.scale);
    let y = Decimal::from_i128_with_scale(b.mantissa, b.scale);
    x.checked_sub(y).map(|d| Amount { mantissa: d.mantissa(), scale: d.scale() })
}

/// Calls `Decimal::checked_mul`. Claimed of it: the result depends on the digits and places of
/// the two numbers alone; where the exact product has at most 28 places and 96 bits of digits the
/// result is that product; and two numbers that are not negative have no negative product.
#[verifier::external_body]
fn decimal_mul(a: Amount, b: Amount) -> (r: Option<Amount>)
    ensures
        r == Amount::of_parts(decimal_product(a.digits(), a.places(), b.digits(), b.places())),
        forall|units: int| #[trigger]
            representable(units) && units * pow10(28) == a@ * b@ ==> r is Some && r->0@ == units,
        a@ >= 0 && b@ >= 0 && r is Some ==> r->0@ >= 0,
{
    let x = Decimal::from_i128_with_scale(a.mantissa, a.scale);
    let y = Decimal::from_i128_with_scale(b.mantissa, b.scale);
    x.checked_mul(y).map(|d| Amount { mantissa: d.mantissa(), scale: d.scale() })
}

/// Compares two `Decimal`s with `<=`. Claimed of it: the comparison is that of the values.
#[verifier::external_body]
fn decimal_le(a: Amount, b: Amount) -> (r: bool)
    ensures
        r == (a@ <= b@),
{
    let x = Decimal::from_i128_with_scale(a.mantissa, a.scale);
    let y = Decimal::from_i128_with_scale(b.mantissa, b.scale);
    x <= y
}

/// The value of every amount is representable.
pub proof fn lemma_value_representable(a: Amount)
    requires
        a.valid(),
    ensures
        representable(a@),
{
    assert(a@ == scaled(a.digits() as int, a.places() as nat));
}

/// The magnitude of an amount has the magnitude of its value.
pub proof fn lemma_magnitude(a: Amount)
    requires
        a.valid(),
    ensures
        Amount::magnitude(a).valid(),
        Amount::magnitude(a)@ == (if a@ < 0 {
            -a@
        } else {
            a@
        }),
{
    let unit = pow10((MAX_PLACES - a.places()) as nat);
    lemma_pow10_positive((MAX_PLACES - a.places()) as nat);
    let digits = a.digits() as int;
    assert(digits < 0 ==> digits * unit < 0 && (-digits) * unit == -(digits * unit))
        by (nonlinear_arith)
        requires
            unit > 0,
    ;
    assert(digits >= 0 ==> digits * unit >= 0) by (nonlinear_arith)
        requires
            unit > 0,
    ;
}

proof fn lemma_pow10_positive(n: nat)
    ensures
        pow10(n) > 0,
    decreases n,
{
    if n > 0 {
        lemma_pow10_positive((n - 1) as nat);
    }
}

/// Nothing has the value zero.
pub proof fn lemma_nothing()
    ensures
        Amount::nothing().valid(),
        Amount::nothing()@ == 0,
        Amount::nothing().digits() == 0,
        Amount::nothing().places() == 0,
{
    assert(0 * pow10(28) == 0);
}

/// The larger of two amounts is one of them and not below either.
pub proof fn law_the_larger_amount(a: Amount, b: Amount)
    ensures
        Amount::larger(a, b) == a || Amount::larger(a, b) == b,
        Amount::larger(a, b)@ >= a@,
        Amount::larger(a, b)@ >= b@,
{
}

} // verus!
