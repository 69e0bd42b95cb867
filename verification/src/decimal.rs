//! Arbitrary-precision decimal amounts.
//!
//! A `Decimal` is an integer of any size together with a scale: the number of
//! digits that stand after the decimal point. The arithmetic itself is done
//! by the `bigdecimal` crate; this module holds the amount as plain values
//! and states what each operation yields.

use bigdecimal::BigDecimal;
use num_bigint::{BigInt, Sign};
use std::str::FromStr;
use vstd::arithmetic::power::{lemma_pow_positive, pow};
use vstd::prelude::*;

verus! {

/// The largest scale, in either direction, that an amount may carry. It
/// bounds the work of bringing two amounts to a common scale.
pub const SCALE_LIMIT: i64 = 16_383;

/// What a `Decimal` stands for: the number `unscaled * 10^(-scale)`,
/// with the scale kept apart from the digits, so that `1.0` and `1.00` are
/// told apart.
pub struct Quantity {
    pub unscaled: int,
    pub scale: int,
}

/// The number that little-endian base-256 digits spell.
pub open spec fn magnitude_value(bytes: Seq<u8>) -> nat
    decreases bytes.len(),
{
    if bytes.len() == 0 {
        0
    } else {
        bytes[0] as nat + 256 * magnitude_value(bytes.drop_first())
    }
}

/// The quantity that a sign, a magnitude and a scale make up.
pub open spec fn quantity_of(negative: bool, magnitude: Seq<u8>, scale: int) -> Quantity {
    Quantity {
        unscaled: if negative {
            -(magnitude_value(magnitude) as int)
        } else {
            magnitude_value(magnitude) as int
        },
        scale,
    }
}

/// Whether a scale lies within `SCALE_LIMIT` of zero.
pub open spec fn scale_in_range(scale: int) -> bool {
    -SCALE_LIMIT <= scale <= SCALE_LIMIT
}

/// The larger of two scales.
pub open spec fn common_scale(a: Quantity, b: Quantity) -> int {
    if a.scale >= b.scale {
        a.scale
    } else {
        b.scale
    }
}

impl Quantity {
    /// The integer that this quantity is at the scale `s`: its digits with
    /// `s - scale` zeros appended. Meant for `s >= self.scale`, where no
    /// digit is lost.
    pub open spec fn scaled(self, s: int) -> int
        recommends
            s >= self.scale,
    {
        self.unscaled * pow(10, (s - self.scale) as nat)
    }

    /// The sum: both brought to the larger scale, then added.
    pub open spec fn plus(self, other: Quantity) -> Quantity {
        let s = common_scale(self, other);
        Quantity { unscaled: self.scaled(s) + other.scaled(s), scale: s }
    }

    /// The difference. Taking zero away leaves the quantity as it is, scale
    /// included; taking something from zero negates it at its own scale;
    /// otherwise both are brought to the larger scale and subtracted.
    pub open spec fn minus(self, other: Quantity) -> Quantity {
        if other.unscaled == 0 {
            self
        } else if self.unscaled == 0 {
            Quantity { unscaled: -other.unscaled, scale: other.scale }
        } else {
            let s = common_scale(self, other);
            Quantity { unscaled: self.scaled(s) - other.scaled(s), scale: s }
        }
    }

    /// Whether this quantity is no larger than `other`, as numbers.
    pub open spec fn at_most(self, other: Quantity) -> bool {
        let s = common_scale(self, other);
        self.scaled(s) <= other.scaled(s)
    }

    /// Whether the scale is one that an amount may carry.
    pub open spec fn in_range(self) -> bool {
        scale_in_range(self.scale)
    }

    /// The quantity as text.
    pub open spec fn text(self) -> Seq<char> {
        rendered_decimal(self.unscaled, self.scale)
    }
}

/// What `bigdecimal` reads out of a text: the digits and the scale of the
/// decimal it parses, or `None` where it rejects the text.
pub uninterp spec fn parsed_decimal(text: Seq<char>) -> Option<(int, int)>;

/// The quantity that a text spells: what `bigdecimal` reads out of it, where
/// the scale of that is in range.
pub open spec fn parsed_quantity(text: Seq<char>) -> Option<Quantity> {
    match parsed_decimal(text) {
        Some((unscaled, scale)) => if scale_in_range(scale) {
            Some(Quantity { unscaled, scale })
        } else {
            None
        },
        None => None,
    }
}

/// The text that `bigdecimal` displays for the decimal `unscaled * 10^(-scale)`.
pub uninterp spec fn rendered_decimal(unscaled: int, scale: int) -> Seq<char>;

/// A decimal amount of any size.
#[derive(Debug)]
pub struct Decimal {
    negative: bool,
    magnitude: Vec<u8>,
    scale: i64,
}

impl View for Decimal {
    type V = Quantity;

    closed spec fn view(&self) -> Quantity {
        quantity_of(self.negative, self.magnitude@, self.scale as int)
    }
}

/// `BigDecimal::from_str`: the decimal that the crate parses out of `text`,
/// handed over as sign, little-endian bytes (`BigInt::to_bytes_le`) and scale.
/// The contract names the outcome and claims nothing more of it.
#[verifier::external_body]
fn decimal_from_text(text: &str) -> (r: Option<Decimal>)
    ensures
        match parsed_decimal(text@) {
            Some((unscaled, scale)) => r is Some && r.unwrap()@ == (Quantity { unscaled, scale }),
            None => r is None,
        },
{
    match BigDecimal::from_str(text) {
        Ok(parsed) => {
            let (digits, scale) = parsed.into_bigint_and_exponent();
            let (sign, magnitude) = digits.to_bytes_le();
            Some(Decimal { negative: matches!(sign, Sign::Minus), magnitude, scale })
        },
        Err(_) => None,
    }
}

/// `BigDecimal + BigDecimal`, both operands owned: the crate brings the
/// operand of smaller scale up to the larger scale and adds the integers, so
/// the result carries the larger scale. With both scales in range the
/// alignment multiplies by at most `10^(2 * SCALE_LIMIT)`.
#[verifier::external_body]
fn decimal_sum(a: &Decimal, b: &Decimal) -> (r: Decimal)
    requires
        a@.in_range(),
        b@.in_range(),
    ensures
        r@ == a@.plus(b@),
{
    let sign = if a.negative { Sign::Minus } else { Sign::Plus };
    let x = BigDecimal::new(BigInt::from_bytes_le(sign, &a.magnitude), a.scale);
    let sign = if b.negative { Sign::Minus } else { Sign::Plus };
    let y = BigDecimal::new(BigInt::from_bytes_le(sign, &b.magnitude), b.scale);
    let (digits, scale) = (x + y).into_bigint_and_exponent();
    let (sign, magnitude) = digits.to_bytes_le();
    Decimal { negative: matches!(sign, Sign::Minus), magnitude, scale }
}

/// `BigDecimal - BigDecimal`, both operands owned: the crate returns the left
/// operand untouched where the right one is zero, the negated right operand
/// where the left one is zero, and otherwise aligns both to the larger scale
/// and subtracts the integers.
#[verifier::external_body]
fn decimal_difference(a: &Decimal, b: &Decimal) -> (r: Decimal)
    requires
        a@.in_range(),
        b@.in_range(),
    ensures
        r@ == a@.minus(b@),
{
    let sign = if a.negative { Sign::Minus } else { Sign::Plus };
    let x = BigDecimal::new(BigInt::from_bytes_le(sign, &a.magnitude), a.scale);
    let sign = if b.negative { Sign::Minus } else { Sign::Plus };
    let y = BigDecimal::new(BigInt::from_bytes_le(sign, &b.magnitude), b.scale);
    let (digits, scale) = (x - y).into_bigint_and_exponent();
    let (sign, magnitude) = digits.to_bytes_le();
    Decimal { negative: matches!(sign, Sign::Minus), magnitude, scale }
}

/// `BigDecimal <= BigDecimal`: the crate orders decimals by the numbers they
/// stand for, whatever their scales.
#[verifier::external_body]
fn decimal_at_most(a: &Decimal, b: &Decimal) -> (r: bool)
    requires
        a@.in_range(),
        b@.in_range(),
    ensures
        r == a@.at_most(b@),
{
    let sign = if a.negative { Sign::Minus } else { Sign::Plus };
    let x = BigDecimal::new(BigInt::from_bytes_le(sign, &a.magnitude), a.scale);
    let sign = if b.negative { Sign::Minus } else { Sign::Plus };
    let y = BigDecimal::new(BigInt::from_bytes_le(sign, &b.magnitude), b.scale);
    x <= y
}

/// `BigDecimal`'s `Display`, through `to_string`: plain digits with the
/// decimal point set by the scale, or an exponent form where the crate's
/// thresholds on leading and trailing zeros are passed. The contract names
/// the text and claims nothing more of it.
#[verifier::external_body]
fn decimal_text(a: &Decimal) -> (r: String)
    requires
        a@.in_range(),
    ensures
        r@ == rendered_decimal(a@.unscaled, a@.scale),
{
    let sign = if a.negative { Sign::Minus } else { Sign::Plus };
    BigDecimal::new(BigInt::from_bytes_le(sign, &a.magnitude), a.scale).to_string()
}

impl Decimal {
    /// Whether the scale is within `SCALE_LIMIT` of zero. Every amount that
    /// this module hands out is well formed.
    pub open spec fn wf(&self) -> bool {
        self@.in_range()
    }

    /// The amount `0`, at scale zero.
    pub fn zero() -> (r: Decimal)
        ensures
            r@ == (Quantity { unscaled: 0, scale: 0 }),
            r.wf(),
    {
        Decimal { negative: false, magnitude: Vec::new(), scale: 0 }
    }

    /// The amount with the given sign, little-endian base-256 magnitude and
    /// scale; `None` where the scale is out of range.
    pub fn from_parts(negative: bool, magnitude: Vec<u8>, scale: i64) -> (r: Option<Decimal>)
        ensures
            r is Some <==> scale_in_range(scale as int),
            r is Some ==> r.unwrap()@ == quantity_of(negative, magnitude@, scale as int),
            r is Some ==> r.unwrap().wf(),
    {
        if -SCALE_LIMIT <= scale && scale <= SCALE_LIMIT {
            Some(Decimal { negative, magnitude, scale })
        } else {
            None
        }
    }

    /// Keeps an amount whose scale is in range and drops any other.
    pub fn bounded(self) -> (r: Option<Decimal>)
        ensures
            self.wf() ==> r == Some(self),
            !self.wf() ==> r is None,
    {
        if -SCALE_LIMIT <= self.scale && self.scale <= SCALE_LIMIT {
            Some(self)
        } else {
            None
        }
    }

    /// Reads an amount out of `text`. It is there exactly when the text
    /// parses as a decimal whose scale is in range.
    pub fn parse(text: &str) -> (r: Option<Decimal>)
        ensures
            match parsed_quantity(text@) {
                Some(q) => r is Some && r.unwrap()@ == q && r.unwrap().wf(),
                None => r is None,
            },
    {
        match decimal_from_text(text) {
            Some(parsed) => parsed.bounded(),
            None => None,
        }
    }

    /// The sum of two amounts, at the larger of their scales.
    pub fn plus(&self, other: &Decimal) -> (r: Decimal)
        requires
            self.wf(),
            other.wf(),
        ensures
            r@ == self@.plus(other@),
            r.wf(),
    {
        decimal_sum(self, other)
    }

    /// The difference of two amounts.
    pub fn minus(&self, other: &Decimal) -> (r: Decimal)
        requires
            self.wf(),
            other.wf(),
        ensures
            r@ == self@.minus(other@),
            r.wf(),
    {
        decimal_difference(self, other)
    }

    /// Whether this amount is no larger than `other`.
    pub fn at_most(&self, other: &Decimal) -> (r: bool)
        requires
            self.wf(),
            other.wf(),
        ensures
            r == self@.at_most(other@),
    {
        decimal_at_most(self, other)
    }

    /// Whether this amount is larger than zero.
    pub fn is_positive(&self) -> (r: bool)
        requires
            self.wf(),
        ensures
            r == (self@.unscaled > 0),
    {
        let zero_or_less = self.at_most(&Decimal::zero());
        proof {
            lemma_at_most_zero(self@);
        }
        !zero_or_less
    }

    /// The amount as text.
    pub fn to_text(&self) -> (r: String)
        requires
            self.wf(),
        ensures
            r@ == self@.text(),
    {
        decimal_text(self)
    }

    /// The sign, the little-endian base-256 magnitude and the scale that
    /// make up the amount.
    pub fn to_parts(&self) -> (r: (bool, Vec<u8>, i64))
        ensures
            quantity_of(r.0, r.1@, r.2 as int) == self@,
    {
        (self.negative, self.magnitude.clone(), self.scale)
    }

    /// The scale: how many digits stand after the decimal point.
    pub fn scale(&self) -> (r: i64)
        ensures
            r == self@.scale,
    {
        self.scale
    }
}

impl Clone for Decimal {
    fn clone(&self) -> (r: Decimal)
        ensures
            r@ == self@,
    {
        Decimal { negative: self.negative, magnitude: self.magnitude.clone(), scale: self.scale }
    }
}

/// A quantity is at most zero exactly when its digits are.
pub proof fn lemma_at_most_zero(q: Quantity)
    ensures
        q.at_most(Quantity { unscaled: 0, scale: 0 }) <==> q.unscaled <= 0,
{
    let zero = Quantity { unscaled: 0, scale: 0 };
    let s = common_scale(q, zero);
    lemma_pow_positive(10, (s - q.scale) as nat);
    let p = pow(10, (s - q.scale) as nat);
    assert(0 * pow(10, (s - 0) as nat) == 0);
    assert(q.unscaled * p <= 0 <==> q.unscaled <= 0) by (nonlinear_arith)
        requires
            p > 0,
    ;
}

} // verus!
