//! The boundary to `rust_decimal`: what a decimal number is made of, and the
//! two arithmetic calls that the ledger makes, with what is taken on trust
//! about them.

use rust_decimal::Decimal;
use vstd::arithmetic::power::pow;
use vstd::prelude::*;

verus! {

/// The largest magnitude a mantissa can have: `2^96 - 1`.
pub const MAX_MANTISSA: i128 = 79_228_162_514_264_337_593_543_950_335;

/// The largest number of fractional digits.
pub const MAX_SCALE: u32 = 28;

/// Whether `mantissa * 10^-scale` is a decimal number that `rust_decimal` can hold.
pub open spec fn representable(mantissa: int, scale: int) -> bool {
    &&& -MAX_MANTISSA <= mantissa <= MAX_MANTISSA
    &&& 0 <= scale <= MAX_SCALE
}

/// The number `mantissa * 10^-scale`, counted in units of `10^-28`. Every
/// representable decimal is a whole number of such units, so sums and
/// differences of these counts are exact.
pub open spec fn units_of(mantissa: int, scale: int) -> int {
    mantissa * pow(10, (MAX_SCALE - scale) as nat)
}

/// The mantissa of `mantissa * 10^-scale` when it is rewritten with `target`
/// fractional digits, `target >= scale`.
pub open spec fn rescaled(mantissa: int, scale: int, target: int) -> int {
    mantissa * pow(10, (target - scale) as nat)
}

/// The larger of two scales.
pub open spec fn wider_scale(s1: int, s2: int) -> int {
    if s1 >= s2 {
        s1
    } else {
        s2
    }
}

/// The mantissa of the exact sum of two decimals, written at the larger of
/// their scales.
pub open spec fn aligned_sum(m1: int, s1: int, m2: int, s2: int) -> int {
    rescaled(m1, s1, wider_scale(s1, s2)) + rescaled(m2, s2, wider_scale(s1, s2))
}

/// The mantissa of the exact difference of two decimals, written at the
/// larger of their scales.
pub open spec fn aligned_difference(m1: int, s1: int, m2: int, s2: int) -> int {
    rescaled(m1, s1, wider_scale(s1, s2)) - rescaled(m2, s2, wider_scale(s1, s2))
}

/// Whether the exact sum of two decimals, written at the larger of their
/// scales, has a mantissa of at most 96 bits.
pub open spec fn sum_fits(m1: int, s1: int, m2: int, s2: int) -> bool {
    -MAX_MANTISSA <= aligned_sum(m1, s1, m2, s2) <= MAX_MANTISSA
}

/// Whether the exact difference of two decimals, written at the larger of
/// their scales, has a mantissa of at most 96 bits.
pub open spec fn difference_fits(m1: int, s1: int, m2: int, s2: int) -> bool {
    -MAX_MANTISSA <= aligned_difference(m1, s1, m2, s2) <= MAX_MANTISSA
}

/// The sum of `m1 * 10^-s1` and `m2 * 10^-s2` as mantissa and scale, where
/// it needs no rounding: added to zero a decimal stays as it is, and two
/// decimals other than zero give their exact sum at the larger of their
/// scales, if that fits in 96 bits. `None` otherwise.
pub open spec fn exact_sum(m1: int, s1: int, m2: int, s2: int) -> Option<(int, int)> {
    if m1 == 0 {
        Some((m2, s2))
    } else if m2 == 0 {
        Some((m1, s1))
    } else if sum_fits(m1, s1, m2, s2) {
        Some((aligned_sum(m1, s1, m2, s2), wider_scale(s1, s2)))
    } else {
        None
    }
}

/// The difference of `m1 * 10^-s1` and `m2 * 10^-s2` as mantissa and scale,
/// where it needs no rounding: taken from zero a decimal is negated at its
/// own scale, with zero taken from it a decimal stays as it is, and two
/// decimals other than zero give their exact difference at the larger of
/// their scales, if that fits in 96 bits. `None` otherwise.
pub open spec fn exact_difference(m1: int, s1: int, m2: int, s2: int) -> Option<(int, int)> {
    if m1 == 0 {
        Some((-m2, s2))
    } else if m2 == 0 {
        Some((m1, s1))
    } else if difference_fits(m1, s1, m2, s2) {
        Some((aligned_difference(m1, s1, m2, s2), wider_scale(s1, s2)))
    } else {
        None
    }
}

/// What `Decimal::checked_add` returns for the decimals `m1 * 10^-s1` and
/// `m2 * 10^-s2`, as mantissa and scale; `None` where it reports overflow.
/// Contracts turn to this name only where `exact_sum` gives no answer: there
/// the call rounds to fewer fractional digits, or overflows.
pub uninterp spec fn decimal_sum(m1: i128, s1: u32, m2: i128, s2: u32) -> Option<(i128, u32)>;

/// What `Decimal::checked_sub` returns for the decimals `m1 * 10^-s1` and
/// `m2 * 10^-s2`, as mantissa and scale; `None` where it reports overflow.
/// Contracts turn to this name only where `exact_difference` gives no
/// answer: there the call rounds to fewer fractional digits, or overflows.
pub uninterp spec fn decimal_difference(m1: i128, s1: u32, m2: i128, s2: u32) -> Option<
    (i128, u32),
>;

/// The outcome of adding two decimals: the exact sum where `exact_sum` gives
/// it, and what `rust_decimal` makes of the operands otherwise.
pub open spec fn checked_sum(m1: i128, s1: u32, m2: i128, s2: u32) -> Option<(i128, u32)> {
    match exact_sum(m1 as int, s1 as int, m2 as int, s2 as int) {
        Some((m, s)) => Some((m as i128, s as u32)),
        None => decimal_sum(m1, s1, m2, s2),
    }
}

/// The outcome of subtracting two decimals: the exact difference where
/// `exact_difference` gives it, and what `rust_decimal` makes of the operands
/// otherwise.
pub open spec fn checked_difference(m1: i128, s1: u32, m2: i128, s2: u32) -> Option<(i128, u32)> {
    match exact_difference(m1 as int, s1 as int, m2 as int, s2 as int) {
        Some((m, s)) => Some((m as i128, s as u32)),
        None => decimal_difference(m1, s1, m2, s2),
    }
}

/// Calls `Decimal::checked_add` on the decimals built by
/// `Decimal::from_i128_with_scale` from the two mantissa and scale pairs, and
/// hands back `Decimal::mantissa` and `Decimal::scale` of what it returns.
///
/// Taken on trust: a decimal that comes back is representable. With a zero
/// operand the other operand comes back as it is. With two operands other
/// than zero whose exact sum, written at the larger of the two scales, fits
/// in 96 bits, that sum comes back at that scale. In every other case the
/// outcome depends on the operands alone.
#[verifier::external_body]
pub(crate) fn decimal_checked_add(m1: i128, s1: u32, m2: i128, s2: u32) -> (r: Option<(i128, u32)>)
    requires
        representable(m1 as int, s1 as int),
        representable(m2 as int, s2 as int),
    ensures
        exact_sum(m1 as int, s1 as int, m2 as int, s2 as int) matches Some((m, s)) ==> r == Some(
            (m as i128, s as u32),
        ),
        exact_sum(m1 as int, s1 as int, m2 as int, s2 as int) is None ==> r == decimal_sum(
            m1,
            s1,
            m2,
            s2,
        ),
        r matches Some((m, s)) ==> representable(m as int, s as int),
{
    let a = Decimal::from_i128_with_scale(m1, s1);
    let b = Decimal::from_i128_with_scale(m2, s2);
    match a.checked_add(b) {
        Some(d) => Some((d.mantissa(), d.scale())),
        None => None,
    }
}

/// Calls `Decimal::checked_sub` on the decimals built by
/// `Decimal::from_i128_with_scale` from the two mantissa and scale pairs, and
/// hands back `Decimal::mantissa` and `Decimal::scale` of what it returns.
///
/// Taken on trust: a decimal that comes back is representable. Taken from
/// zero, the other operand comes back negated at its own scale; with zero
/// taken from it, the first operand comes back as it is. With two operands
/// other than zero whose exact difference, written at the larger of the two
/// scales, fits in 96 bits, that difference comes back at that scale. In
/// every other case the outcome depends on the operands alone.
#[verifier::external_body]
pub(crate) fn decimal_checked_sub(m1: i128, s1: u32, m2: i128, s2: u32) -> (r: Option<(i128, u32)>)
    requires
        representable(m1 as int, s1 as int),
        representable(m2 as int, s2 as int),
    ensures
        exact_difference(m1 as int, s1 as int, m2 as int, s2 as int) matches Some((m, s)) ==> r
            == Some((m as i128, s as u32)),
        exact_difference(m1 as int, s1 as int, m2 as int, s2 as int) is None ==> r
            == decimal_difference(m1, s1, m2, s2),
        r matches Some((m, s)) ==> representable(m as int, s as int),
{
    let a = Decimal::from_i128_with_scale(m1, s1);
    let b = Decimal::from_i128_with_scale(m2, s2);
    match a.checked_sub(b) {
        Some(d) => Some((d.mantissa(), d.scale())),
        None => None,
    }
}

} // verus!
