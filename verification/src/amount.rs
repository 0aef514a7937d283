//! Monetary amounts: decimal numbers of up to 96 bits of mantissa and up to
//! 28 fractional digits, added and subtracted by `rust_decimal`.

use crate::decimal::{
    checked_difference, checked_sum, decimal_checked_add, decimal_checked_sub, exact_difference,
    exact_sum, representable, rescaled, units_of, MAX_MANTISSA, MAX_SCALE,
};
use vstd::arithmetic::power::{lemma_pow_adds, lemma_pow_positive, pow};
use vstd::prelude::*;
use vstd::std_specs::cmp::PartialEqSpecImpl;

verus! {

/// The decimal number `mantissa * 10^-scale`.
///
/// Two amounts of one value may differ in scale (`5` and `5.0000`). In
/// contracts `==` tells them apart; in executable code `==` compares values.
#[derive(Clone, Copy, Debug)]
pub struct Amount {
    mantissa: i128,
    scale: u32,
}

impl Amount {
    /// Every amount is a decimal that `rust_decimal` can hold.
    #[verifier::type_invariant]
    pub open spec fn wf(self) -> bool {
        representable(self.spec_mantissa() as int, self.spec_scale() as int)
    }

    pub closed spec fn spec_mantissa(self) -> i128 {
        self.mantissa
    }

    pub closed spec fn spec_scale(self) -> u32 {
        self.scale
    }

    /// The amount with the given mantissa and scale.
    pub closed spec fn of(mantissa: i128, scale: u32) -> Amount {
        Amount { mantissa, scale }
    }

    /// The amount made of a mantissa and a scale has that mantissa and that
    /// scale.
    pub proof fn lemma_of(mantissa: i128, scale: u32)
        ensures
            Amount::of(mantissa, scale).mantissa() == mantissa,
            Amount::of(mantissa, scale).scale() == scale,
    {
    }

    /// An amount is made of its mantissa and its scale, and of nothing else.
    pub proof fn lemma_parts(self)
        ensures
            self == Amount::of(self.mantissa(), self.scale()),
    {
    }

    /// The value of the amount as a whole number of units of `10^-28`.
    pub open spec fn units(self) -> int {
        units_of(self.mantissa() as int, self.scale() as int)
    }

    /// What adding `other` to this amount gives; `None` on overflow. The
    /// addition is `rust_decimal`'s, which rounds where the exact sum cannot
    /// be held.
    pub open spec fn sum(self, other: Amount) -> Option<Amount> {
        match checked_sum(self.mantissa(), self.scale(), other.mantissa(), other.scale()) {
            Some((m, s)) => Some(Amount::of(m, s)),
            None => None,
        }
    }

    /// What taking `other` from this amount gives; `None` on overflow. The
    /// subtraction is `rust_decimal`'s, which rounds where the exact
    /// difference cannot be held.
    pub open spec fn difference(self, other: Amount) -> Option<Amount> {
        match checked_difference(self.mantissa(), self.scale(), other.mantissa(), other.scale()) {
            Some((m, s)) => Some(Amount::of(m, s)),
            None => None,
        }
    }

    /// Whether one of the two amounts is zero, or their exact sum, written at
    /// the larger of the two scales, fits in 96 bits.
    pub open spec fn sum_fits(self, other: Amount) -> bool {
        exact_sum(
            self.mantissa() as int,
            self.scale() as int,
            other.mantissa() as int,
            other.scale() as int,
        ) is Some
    }

    /// Whether one of the two amounts is zero, or their exact difference,
    /// written at the larger of the two scales, fits in 96 bits.
    pub open spec fn difference_fits(self, other: Amount) -> bool {
        exact_difference(
            self.mantissa() as int,
            self.scale() as int,
            other.mantissa() as int,
            other.scale() as int,
        ) is Some
    }

    /// Whether adding `other` succeeds without rounding.
    pub open spec fn adds_exactly(self, other: Amount) -> bool {
        self.sum(other) matches Some(r) && r.units() == self.units() + other.units()
    }

    /// Whether taking `other` away succeeds without rounding.
    pub open spec fn subtracts_exactly(self, other: Amount) -> bool {
        self.difference(other) matches Some(r) && r.units() == self.units() - other.units()
    }

    /// Where the sum fits, the addition succeeds without rounding.
    pub proof fn lemma_sum_exact(self, other: Amount)
        requires
            self.wf(),
            other.wf(),
            self.sum_fits(other),
        ensures
            self.adds_exactly(other),
            self.sum(other).unwrap().wf(),
    {
        let m1 = self.mantissa() as int;
        let s1 = self.scale() as int;
        let m2 = other.mantissa() as int;
        let s2 = other.scale() as int;
        let (m, s) = exact_sum(m1, s1, m2, s2).unwrap();
        Amount::lemma_of(m as i128, s as u32);
        if m1 != 0 && m2 != 0 {
            lemma_rescaled_units(m1, s1, s);
            lemma_rescaled_units(m2, s2, s);
            assert(units_of(m, s) == units_of(m1, s1) + units_of(m2, s2)) by (nonlinear_arith)
                requires
                    m == rescaled(m1, s1, s) + rescaled(m2, s2, s),
                    units_of(m, s) == m * pow(10, (MAX_SCALE - s) as nat),
                    units_of(m1, s1) == rescaled(m1, s1, s) * pow(10, (MAX_SCALE - s) as nat),
                    units_of(m2, s2) == rescaled(m2, s2, s) * pow(10, (MAX_SCALE - s) as nat),
            ;
        } else {
            lemma_zero_units(s1);
            lemma_zero_units(s2);
        }
    }

    /// Where the difference fits, the subtraction succeeds without rounding.
    pub proof fn lemma_difference_exact(self, other: Amount)
        requires
            self.wf(),
            other.wf(),
            self.difference_fits(other),
        ensures
            self.subtracts_exactly(other),
            self.difference(other).unwrap().wf(),
    {
        let m1 = self.mantissa() as int;
        let s1 = self.scale() as int;
        let m2 = other.mantissa() as int;
        let s2 = other.scale() as int;
        let (m, s) = exact_difference(m1, s1, m2, s2).unwrap();
        Amount::lemma_of(m as i128, s as u32);
        if m1 != 0 && m2 != 0 {
            lemma_rescaled_units(m1, s1, s);
            lemma_rescaled_units(m2, s2, s);
            assert(units_of(m, s) == units_of(m1, s1) - units_of(m2, s2)) by (nonlinear_arith)
                requires
                    m == rescaled(m1, s1, s) - rescaled(m2, s2, s),
                    units_of(m, s) == m * pow(10, (MAX_SCALE - s) as nat),
                    units_of(m1, s1) == rescaled(m1, s1, s) * pow(10, (MAX_SCALE - s) as nat),
                    units_of(m2, s2) == rescaled(m2, s2, s) * pow(10, (MAX_SCALE - s) as nat),
            ;
        } else if m1 == 0 {
            lemma_zero_units(s1);
            assert(units_of(-m2, s2) == -units_of(m2, s2)) by (nonlinear_arith)
                requires
                    units_of(-m2, s2) == (-m2) * pow(10, (MAX_SCALE - s2) as nat),
                    units_of(m2, s2) == m2 * pow(10, (MAX_SCALE - s2) as nat),
            ;
        } else {
            lemma_zero_units(s2);
        }
    }

    /// Zero, with no fractional digits.
    pub fn zero() -> (a: Amount)
        ensures
            a == Amount::of(0, 0),
            a.mantissa() == 0,
            a.scale() == 0,
    {
        Amount { mantissa: 0, scale: 0 }
    }

    /// The amount `num * 10^-scale`.
    pub fn new(num: i64, scale: u32) -> (a: Amount)
        requires
            scale <= MAX_SCALE,
        ensures
            a == Amount::of(num as i128, scale),
            a.mantissa() == num,
            a.scale() == scale,
    {
        Amount { mantissa: num as i128, scale }
    }

    /// The amount `mantissa * 10^-scale`, where that is representable.
    pub fn try_new(mantissa: i128, scale: u32) -> (r: Option<Amount>)
        ensures
            representable(mantissa as int, scale as int) ==> r == Some(Amount::of(mantissa, scale)),
            !representable(mantissa as int, scale as int) ==> r is None,
    {
        if scale <= MAX_SCALE && -MAX_MANTISSA <= mantissa && mantissa <= MAX_MANTISSA {
            Some(Amount { mantissa, scale })
        } else {
            None
        }
    }

    #[verifier::when_used_as_spec(spec_mantissa)]
    pub fn mantissa(self) -> (m: i128)
        ensures
            m == self.spec_mantissa(),
    {
        self.mantissa
    }

    #[verifier::when_used_as_spec(spec_scale)]
    pub fn scale(self) -> (s: u32)
        ensures
            s == self.spec_scale(),
    {
        self.scale
    }

    /// Adds `other`, by `rust_decimal`.
    pub fn checked_add(self, other: Amount) -> (r: Option<Amount>)
        ensures
            r == self.sum(other),
    {
        proof {
            use_type_invariant(&self);
            use_type_invariant(&other);
        }
        match decimal_checked_add(self.mantissa, self.scale, other.mantissa, other.scale) {
            Some((m, s)) => Some(Amount { mantissa: m, scale: s }),
            None => None,
        }
    }

    /// Takes `other` away, by `rust_decimal`.
    pub fn checked_sub(self, other: Amount) -> (r: Option<Amount>)
        ensures
            r == self.difference(other),
    {
        proof {
            use_type_invariant(&self);
            use_type_invariant(&other);
        }
        match decimal_checked_sub(self.mantissa, self.scale, other.mantissa, other.scale) {
            Some((m, s)) => Some(Amount { mantissa: m, scale: s }),
            None => None,
        }
    }
}

/// Zero is zero units at every scale.
pub proof fn lemma_zero_units(scale: int)
    ensures
        units_of(0, scale) == 0,
{
    assert(0 * pow(10, (MAX_SCALE - scale) as nat) == 0) by (nonlinear_arith);
}

/// Rewriting a decimal with more fractional digits keeps its value.
proof fn lemma_rescaled_units(mantissa: int, scale: int, target: int)
    requires
        0 <= scale <= target <= MAX_SCALE,
    ensures
        units_of(mantissa, scale) == rescaled(mantissa, scale, target) * pow(
            10,
            (MAX_SCALE - target) as nat,
        ),
{
    let gap = (target - scale) as nat;
    let tail = (MAX_SCALE - target) as nat;
    lemma_pow_adds(10, gap, tail);
    assert((mantissa * pow(10, gap)) * pow(10, tail) == mantissa * pow(10, gap + tail))
        by (nonlinear_arith)
        requires
            pow(10, gap + tail) == pow(10, gap) * pow(10, tail),
    ;
}

/// Whether `mantissa`, with `digits` more fractional digits, is `target`.
fn scaled_equals(mantissa: i128, target: i128, digits: u32) -> (r: bool)
    requires
        -MAX_MANTISSA <= mantissa <= MAX_MANTISSA,
        -MAX_MANTISSA <= target <= MAX_MANTISSA,
    ensures
        r == (mantissa * pow(10, digits as nat) == target),
{
    let mut scaled: i128 = mantissa;
    let mut done: u32 = 0;
    proof {
        reveal_with_fuel(pow, 1);
    }
    while done < digits
        invariant
            done <= digits,
            scaled == mantissa * pow(10, done as nat),
            -MAX_MANTISSA <= scaled <= MAX_MANTISSA,
            -MAX_MANTISSA <= target <= MAX_MANTISSA,
        decreases digits - done,
    {
        let ghost rest = (digits - done - 1) as nat;
        proof {
            lemma_pow_adds(10, 1, rest);
            lemma_pow_adds(10, done as nat, (rest + 1) as nat);
            lemma_pow_adds(10, done as nat, 1);
            lemma_pow_positive(10, rest);
            reveal_with_fuel(pow, 2);
            assert(pow(10, 1) == 10);
            assert(mantissa * pow(10, digits as nat) == (scaled * 10) * pow(10, rest))
                by (nonlinear_arith)
                requires
                    scaled == mantissa * pow(10, done as nat),
                    pow(10, digits as nat) == pow(10, done as nat) * pow(10, (rest + 1) as nat),
                    pow(10, (rest + 1) as nat) == 10 * pow(10, rest),
            ;
            assert(mantissa * pow(10, (done + 1) as nat) == scaled * 10) by (nonlinear_arith)
                requires
                    scaled == mantissa * pow(10, done as nat),
                    pow(10, (done + 1) as nat) == pow(10, done as nat) * 10,
            ;
        }
        if scaled > MAX_MANTISSA / 10 || scaled < -(MAX_MANTISSA / 10) {
            proof {
                let p = pow(10, rest);
                let x = scaled * 10;
                assert(x > MAX_MANTISSA || x < -MAX_MANTISSA);
                assert(x * p > MAX_MANTISSA || x * p < -MAX_MANTISSA) by (nonlinear_arith)
                    requires
                        p >= 1,
                        x > MAX_MANTISSA || x < -MAX_MANTISSA,
                        MAX_MANTISSA > 0,
                ;
            }
            return false;
        }
        scaled = scaled * 10;
        done = done + 1;
    }
    scaled == target
}

/// Two amounts of equal scale distance have one value exactly when the
/// mantissa of the coarser one, rewritten at the finer scale, is the
/// mantissa of the finer one.
proof fn lemma_units_equal(a: Amount, b: Amount)
    requires
        a.wf(),
        b.wf(),
        a.scale() <= b.scale(),
    ensures
        (a.units() == b.units()) == (a.mantissa() * pow(10, (b.scale() - a.scale()) as nat)
            == b.mantissa()),
{
    let gap = (b.scale() - a.scale()) as nat;
    let tail = (MAX_SCALE - b.scale()) as nat;
    let am = a.mantissa() as int;
    let bm = b.mantissa() as int;
    lemma_pow_adds(10, gap, tail);
    lemma_pow_positive(10, tail);
    assert((am * pow(10, gap)) * pow(10, tail) == am * pow(10, gap + tail)) by (nonlinear_arith)
        requires
            pow(10, gap + tail) == pow(10, gap) * pow(10, tail),
    ;
    assert(((am * pow(10, gap)) * pow(10, tail) == bm * pow(10, tail)) == (am * pow(10, gap)
        == bm)) by (nonlinear_arith)
        requires
            pow(10, tail) > 0,
    ;
}

impl PartialEq for Amount {
    /// Whether the two amounts have one value, whatever their scales.
    fn eq(&self, other: &Amount) -> (r: bool) {
        proof {
            use_type_invariant(self);
            use_type_invariant(other);
        }
        if self.scale <= other.scale {
            proof {
                lemma_units_equal(*self, *other);
            }
            scaled_equals(self.mantissa, other.mantissa, other.scale - self.scale)
        } else {
            proof {
                lemma_units_equal(*other, *self);
            }
            scaled_equals(other.mantissa, self.mantissa, self.scale - other.scale)
        }
    }
}

impl PartialEqSpecImpl for Amount {
    open spec fn obeys_eq_spec() -> bool {
        true
    }

    open spec fn eq_spec(&self, other: &Amount) -> bool {
        self.units() == other.units()
    }
}

} // verus!
