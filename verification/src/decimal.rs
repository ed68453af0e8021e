//! Exact decimal amounts.
//!
//! A [`Decimal`] is an integer of up to 128 bits together with the number of its
//! digits that stand behind the decimal point. Its meaning is the fraction
//! `unscaled / 10^scale`; the contracts below speak of that fraction by cross
//! multiplication, so no rounding enters anywhere.

use bigdecimal::BigDecimal;
use bigdecimal::ToPrimitive;
use std::str::FromStr;
use vstd::arithmetic::div_mod::*;
use vstd::arithmetic::mul::*;
use vstd::arithmetic::power::*;
use vstd::prelude::*;

verus! {

/// Ten to the power `n`.
pub open spec fn pow10(n: nat) -> int {
    pow(10, n)
}

/// Whether `x` is a value of `i128`.
pub open spec fn fits_i128(x: int) -> bool {
    i128::MIN <= x <= i128::MAX
}

/// The quotient of `a` by a positive `b`, rounded toward zero.
pub open spec fn trunc_div(a: int, b: int) -> int
    recommends
        b > 0,
{
    if a >= 0 {
        a / b
    } else {
        -((-a) / b)
    }
}

/// Powers of ten are positive, and each is ten times the one before it.
pub proof fn lemma_pow10_step(n: nat)
    ensures
        pow10(n) > 0,
        pow10(n + 1) == 10 * pow10(n),
        pow10(0) == 1,
{
    lemma_pow_positive(10, n);
    reveal(pow);
}

/// Powers of ten grow with the exponent.
pub proof fn lemma_pow10_grows(lo: nat, hi: nat)
    requires
        lo <= hi,
    ensures
        0 < pow10(lo) <= pow10(hi),
        pow10(hi) == pow10(lo) * pow10((hi - lo) as nat),
{
    lemma_pow_positive(10, lo);
    lemma_pow_increases(10, lo, hi);
    lemma_pow_adds(10, lo, (hi - lo) as nat);
}

/// A product with a power of ten moves away from zero as the exponent grows.
proof fn lemma_scaling_moves_outward(x: int, lo: nat, hi: nat)
    requires
        lo <= hi,
    ensures
        x > 0 ==> x * pow10(hi) >= x * pow10(lo) >= x,
        x < 0 ==> x * pow10(hi) <= x * pow10(lo) <= x,
        x == 0 ==> x * pow10(hi) == 0,
{
    lemma_pow10_grows(lo, hi);
    let a = pow10(lo);
    let b = pow10(hi);
    assert(x > 0 ==> x * b >= x * a >= x) by (nonlinear_arith)
        requires
            1 <= a <= b,
    ;
    assert(x < 0 ==> x * b <= x * a <= x) by (nonlinear_arith)
        requires
            1 <= a <= b,
    ;
}

/// Rounding toward zero twice in a row is rounding once by the product.
proof fn lemma_trunc_div_twice(x: int, c: int, d: int)
    requires
        0 < c,
        0 < d,
    ensures
        0 < c * d,
        trunc_div(trunc_div(x, c), d) == trunc_div(x, c * d),
{
    if x >= 0 {
        lemma_div_denominator(x, c, d);
    } else {
        lemma_div_denominator(-x, c, d);
    }
}

/// A common positive factor of numerator and denominator drops out of a quotient
/// rounded toward zero.
pub proof fn lemma_trunc_div_cancel(x: int, d: int, f: int)
    requires
        0 < d,
        0 < f,
    ensures
        0 < d * f,
        trunc_div(x * f, d * f) == trunc_div(x, d),
        trunc_div(x * d, d) == x,
{
    lemma_mul_strictly_positive(d, f);
    if x >= 0 {
        lemma_mul_nonnegative(x, f);
        lemma_div_multiples_vanish_quotient(f, x, d);
        lemma_mul_nonnegative(x, d);
        lemma_div_multiples_vanish(x, d);
    } else {
        assert(-(x * f) == (-x) * f) by (nonlinear_arith);
        lemma_div_multiples_vanish_quotient(f, -x, d);
        assert(-(x * d) == (-x) * d) by (nonlinear_arith);
        lemma_div_multiples_vanish(-x, d);
        assert(d * (-x) == (-x) * d) by (nonlinear_arith);
    }
}

/// Rounding a quotient that is not negative toward zero never rounds it up.
pub proof fn lemma_trunc_div_rounds_down(x: int, d: int)
    requires
        0 <= x,
        0 < d,
    ensures
        0 <= trunc_div(x, d),
        trunc_div(x, d) * d <= x,
{
    lemma_fundamental_div_mod(x, d);
    lemma_mod_bound(x, d);
    lemma_div_pos_is_pos(x, d);
    lemma_mul_is_commutative(d, x / d);
}

/// `x * 10^k`, or `None` when the product is no `i128`.
pub fn checked_mul_pow10(x: i128, k: u64) -> (r: Option<i128>)
    ensures
        r == if fits_i128(x * pow10(k as nat)) {
            Some((x * pow10(k as nat)) as i128)
        } else {
            None::<i128>
        },
{
    if x == 0 {
        return Some(0);
    }
    let mut acc: i128 = x;
    let mut done: u64 = 0;
    proof {
        lemma_pow10_step(0);
    }
    while done < k
        invariant
            done <= k,
            x != 0,
            acc == x * pow10(done as nat),
        decreases k - done,
    {
        proof {
            lemma_pow10_step(done as nat);
            assert(x * (10 * pow10(done as nat)) == (x * pow10(done as nat)) * 10)
                by (nonlinear_arith);
            lemma_scaling_moves_outward(x as int, (done + 1) as nat, k as nat);
        }
        match acc.checked_mul(10) {
            Some(next) => {
                acc = next;
                done = done + 1;
            },
            None => {
                return None;
            },
        }
    }
    Some(acc)
}

/// `x / 10^k`, rounded toward zero.
pub fn div_pow10(x: i128, k: u64) -> (r: i128)
    ensures
        r == trunc_div(x as int, pow10(k as nat)),
{
    let mut acc: i128 = x;
    let mut done: u64 = 0;
    proof {
        lemma_pow10_step(0);
    }
    while done < k && acc != 0
        invariant
            done <= k,
            acc == trunc_div(x as int, pow10(done as nat)),
        decreases k - done,
    {
        proof {
            lemma_pow10_step(done as nat);
            lemma_trunc_div_twice(x as int, pow10(done as nat), 10);
        }
        acc = acc / 10;
        done = done + 1;
    }
    proof {
        if done < k {
            let rest = (k - done) as nat;
            lemma_pow10_grows(done as nat, k as nat);
            lemma_pow10_step(rest);
            lemma_trunc_div_twice(x as int, pow10(done as nat), pow10(rest));
        }
    }
    acc
}

/// What `BigDecimal::from_str` of the bigdecimal crate reads from `text`: the
/// digits as one integer and the scale, or `None` where it rejects the text.
pub uninterp spec fn decimal_literal(text: Seq<char>) -> Option<(int, i64)>;

/// Calls `BigDecimal::from_str` and hands out the integer and the scale that
/// `BigDecimal::into_bigint_and_exponent` gives for the parsed number.
///
/// Trusted: the pair is [`decimal_literal`] of the text, the integer converted by
/// `to_i128`; the result is `None` where the text is rejected, and also where
/// the integer is no `i128`.
#[verifier::external_body]
fn read_decimal_literal(text: &str) -> (r: Option<(i128, i64)>)
    ensures
        r == match decimal_literal(text@) {
            Some((digits, scale)) => if fits_i128(digits) {
                Some((digits as i128, scale))
            } else {
                None
            },
            None => None::<(i128, i64)>,
        },
{
    let (digits, scale) = BigDecimal::from_str(text).ok()?.into_bigint_and_exponent();
    digits.to_i128().map(|unscaled| (unscaled, scale))
}

/// A decimal number: `unscaled / 10^scale`.
///
/// Two values with different scales may stand for the same number (`1.0` and
/// `1.00`); `==` compares the representation, [`Decimal::same_value`] the number.
#[derive(Clone, Copy, Debug, PartialEq, Eq, Structural)]
pub struct Decimal {
    /// All digits of the number, read as one integer.
    pub unscaled: i128,
    /// How many of those digits stand behind the decimal point.
    pub scale: u64,
}

impl Decimal {
    /// The denominator of the fraction that `self` stands for.
    pub open spec fn den(self) -> int {
        pow10(self.scale as nat)
    }

    /// Whether `self` and `other` stand for the same number.
    pub open spec fn same_value(self, other: Decimal) -> bool {
        self.unscaled * other.den() == other.unscaled * self.den()
    }

    /// Whether `self` stands for a greater number than `other`.
    pub open spec fn exceeds(self, other: Decimal) -> bool {
        self.unscaled * other.den() > other.unscaled * self.den()
    }

    /// The number `self * 10^places`, rounded toward zero.
    pub open spec fn shifted_trunc(self, places: nat) -> int {
        trunc_div(self.unscaled * pow10(places), self.den())
    }

    /// The digits of `self` written out with `scale` digits behind the point.
    pub open spec fn raised(self, scale: u64) -> int
        recommends
            self.scale <= scale,
    {
        self.unscaled * pow10((scale - self.scale) as nat)
    }

    /// The larger of the two scales.
    pub open spec fn common_scale(self, other: Decimal) -> u64 {
        if self.scale >= other.scale {
            self.scale
        } else {
            other.scale
        }
    }

    /// `self - other` at their common scale, where both operands and the
    /// difference can be written with 128 bits at that scale.
    pub open spec fn minus(self, other: Decimal) -> Option<Decimal> {
        let scale = self.common_scale(other);
        let a = self.raised(scale);
        let b = other.raised(scale);
        if fits_i128(a) && fits_i128(b) && fits_i128(a - b) {
            Some(Decimal { unscaled: (a - b) as i128, scale })
        } else {
            None
        }
    }

    /// The number with digits `unscaled` and exponent `-scale`, as
    /// a `Decimal`: one with a negative `scale` is written out in full.
    pub open spec fn of_parts(unscaled: int, scale: int) -> Option<Decimal> {
        if !fits_i128(unscaled) || scale < i64::MIN || scale > i64::MAX {
            None
        } else if scale >= 0 {
            Some(Decimal { unscaled: unscaled as i128, scale: scale as u64 })
        } else if fits_i128(unscaled * pow10((-scale) as nat)) {
            Some(Decimal { unscaled: (unscaled * pow10((-scale) as nat)) as i128, scale: 0 })
        } else {
            None
        }
    }

    /// The decimal that `text` denotes: what the bigdecimal crate reads from it,
    /// where that can be held.
    pub open spec fn of_text(text: Seq<char>) -> Option<Decimal> {
        match decimal_literal(text) {
            Some((digits, scale)) => Decimal::of_parts(digits, scale as int),
            None => None,
        }
    }

    /// The decimal `unscaled / 10^scale`.
    pub fn new(unscaled: i128, scale: u64) -> (d: Decimal)
        ensures
            d.unscaled == unscaled,
            d.scale == scale,
    {
        Decimal { unscaled, scale }
    }

    /// Whether the number is zero.
    pub fn is_zero(&self) -> (r: bool)
        ensures
            r == (self.unscaled == 0),
            r == self.same_value(Decimal { unscaled: 0, scale: 0 }),
    {
        proof {
            lemma_pow10_step(0);
            assert(self.unscaled * 1 == self.unscaled) by (nonlinear_arith);
        }
        self.unscaled == 0
    }

    /// Whether `self` is the greater number.
    pub fn gt(&self, other: &Decimal) -> (r: bool)
        ensures
            r == self.exceeds(*other),
    {
        if self.scale <= other.scale {
            let k: u64 = other.scale - self.scale;
            proof {
                lemma_pow10_grows(self.scale as nat, other.scale as nat);
                lemma_scaling_moves_outward(self.unscaled as int, 0, k as nat);
                let (a, b) = (self.unscaled as int, other.unscaled as int);
                let (p, q, f) = (pow10(self.scale as nat), pow10(other.scale as nat), pow10(k as nat));
                assert((a * q > b * p) == (a * f > b)) by (nonlinear_arith)
                    requires
                        q == p * f,
                        p > 0,
                ;
            }
            match checked_mul_pow10(self.unscaled, k) {
                Some(raised) => raised > other.unscaled,
                None => self.unscaled > 0,
            }
        } else {
            let k: u64 = self.scale - other.scale;
            proof {
                lemma_pow10_grows(other.scale as nat, self.scale as nat);
                lemma_scaling_moves_outward(other.unscaled as int, 0, k as nat);
                let (a, b) = (self.unscaled as int, other.unscaled as int);
                let (p, q, f) = (pow10(self.scale as nat), pow10(other.scale as nat), pow10(k as nat));
                assert((a * q > b * p) == (a > b * f)) by (nonlinear_arith)
                    requires
                        p == q * f,
                        q > 0,
                ;
            }
            match checked_mul_pow10(other.unscaled, k) {
                Some(raised) => self.unscaled > raised,
                None => other.unscaled < 0,
            }
        }
    }

    /// `self - other`, exactly, or `None` where the operands or the difference
    /// need more than 128 bits at the common scale.
    pub fn checked_sub(&self, other: &Decimal) -> (r: Option<Decimal>)
        ensures
            r == self.minus(*other),
    {
        let scale: u64 = if self.scale >= other.scale {
            self.scale
        } else {
            other.scale
        };
        let a = match checked_mul_pow10(self.unscaled, scale - self.scale) {
            Some(a) => a,
            None => {
                return None;
            },
        };
        let b = match checked_mul_pow10(other.unscaled, scale - other.scale) {
            Some(b) => b,
            None => {
                return None;
            },
        };
        match a.checked_sub(b) {
            Some(unscaled) => Some(Decimal { unscaled, scale }),
            None => None,
        }
    }

    /// The number `self * 10^places` rounded toward zero, or `None` when that
    /// integer is no `i128`.
    pub fn shifted_trunc_i128(&self, places: u32) -> (r: Option<i128>)
        ensures
            r == if fits_i128(self.shifted_trunc(places as nat)) {
                Some(self.shifted_trunc(places as nat) as i128)
            } else {
                None::<i128>
            },
    {
        if self.scale <= places as u64 {
            let k: u64 = places as u64 - self.scale;
            proof {
                lemma_pow10_grows(self.scale as nat, places as nat);
                let (u, d, f) = (self.unscaled as int, self.den(), pow10(k as nat));
                assert(u * (d * f) == (u * f) * d) by (nonlinear_arith);
                lemma_trunc_div_cancel(u * f, d, 1);
            }
            checked_mul_pow10(self.unscaled, k)
        } else {
            let k: u64 = self.scale - places as u64;
            proof {
                lemma_pow10_grows(places as nat, self.scale as nat);
                lemma_pow10_grows(0, k as nat);
                let (u, p, f) = (self.unscaled as int, pow10(places as nat), pow10(k as nat));
                lemma_trunc_div_cancel(u, f, p);
                assert(f * p == p * f) by (nonlinear_arith);
            }
            Some(div_pow10(self.unscaled, k))
        }
    }

    /// The number `self * 10^places` rounded toward zero, or `None` when that
    /// integer is no `u64`.
    pub fn shifted_trunc_u64(&self, places: u32) -> (r: Option<u64>)
        ensures
            r == if 0 <= self.shifted_trunc(places as nat) <= u64::MAX {
                Some(self.shifted_trunc(places as nat) as u64)
            } else {
                None::<u64>
            },
    {
        match self.shifted_trunc_i128(places) {
            Some(whole) => {
                if 0 <= whole && whole <= u64::MAX as i128 {
                    Some(whole as u64)
                } else {
                    None
                }
            },
            None => None,
        }
    }

    /// Reads a decimal number from its text, such as `"1234.56"`, `"-0.3575"` or
    /// `"1.5e3"`. `None` where the text is no number, or has more digits than a
    /// `Decimal` holds.
    pub fn parse(text: &str) -> (r: Option<Decimal>)
        ensures
            r == Decimal::of_text(text@),
    {
        match read_decimal_literal(text) {
            Some((unscaled, scale)) => Decimal::from_parts(unscaled, scale),
            None => None,
        }
    }

    /// The decimal with digits `unscaled` and exponent `-scale`.
    pub fn from_parts(unscaled: i128, scale: i64) -> (r: Option<Decimal>)
        ensures
            r == Decimal::of_parts(unscaled as int, scale as int),
    {
        if scale >= 0 {
            Some(Decimal { unscaled, scale: scale as u64 })
        } else {
            let up: u64 = (-(scale + 1)) as u64 + 1;
            match checked_mul_pow10(unscaled, up) {
                Some(written_out) => Some(Decimal { unscaled: written_out, scale: 0 }),
                None => None,
            }
        }
    }
}

/// What [`Decimal::minus`] returns stands for the difference of the two numbers.
pub proof fn lemma_minus_is_subtraction(a: Decimal, b: Decimal)
    requires
        a.minus(b) is Some,
    ensures
        a.minus(b).unwrap().unscaled * (a.den() * b.den()) == (a.unscaled * b.den() - b.unscaled
            * a.den()) * a.minus(b).unwrap().den(),
{
    let s = a.common_scale(b);
    lemma_pow10_grows(a.scale as nat, s as nat);
    lemma_pow10_grows(b.scale as nat, s as nat);
    let (au, bu) = (a.unscaled as int, b.unscaled as int);
    let (ad, bd, sd) = (a.den(), b.den(), pow10(s as nat));
    let (fa, fb) = (pow10((s - a.scale) as nat), pow10((s - b.scale) as nat));
    let c = ad * bd;
    assert((au * fa) * c == (au * bd) * (ad * fa)) by (nonlinear_arith)
        requires
            c == ad * bd,
    ;
    assert((bu * fb) * c == (bu * ad) * (bd * fb)) by (nonlinear_arith)
        requires
            c == ad * bd,
    ;
    lemma_mul_is_distributive_sub_other_way(c, au * fa, bu * fb);
    lemma_mul_is_distributive_sub_other_way(sd, au * bd, bu * ad);
}

/// The number `(a - b) * 10^places`, rounded toward zero.
pub open spec fn difference_shifted_trunc(a: Decimal, b: Decimal, places: nat) -> int {
    trunc_div(
        (a.unscaled * b.den() - b.unscaled * a.den()) * pow10(places),
        a.den() * b.den(),
    )
}

/// Shifting and rounding what [`Decimal::minus`] returns is shifting and
/// rounding the difference of the two numbers.
pub proof fn lemma_minus_shifted_trunc(a: Decimal, b: Decimal, places: nat)
    requires
        a.minus(b) is Some,
    ensures
        a.minus(b).unwrap().shifted_trunc(places) == difference_shifted_trunc(a, b, places),
{
    let d = a.minus(b).unwrap();
    let x = d.unscaled as int;
    let sd = d.den();
    let y = a.unscaled * b.den() - b.unscaled * a.den();
    let c = a.den() * b.den();
    let p = pow10(places);
    lemma_minus_is_subtraction(a, b);
    lemma_pow10_step(a.scale as nat);
    lemma_pow10_step(b.scale as nat);
    lemma_mul_strictly_positive(a.den(), b.den());
    lemma_trunc_div_cancel(x * p, sd, c);
    lemma_trunc_div_cancel(y * p, c, sd);
    assert((x * p) * c == (y * p) * sd) by (nonlinear_arith)
        requires
            x * c == y * sd,
    ;
}

} // verus!
