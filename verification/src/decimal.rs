//! Decimal numbers at the edge of the library.
//!
//! Inside, every number is a whole count of hundredths or ten-thousandths.
//! Outside they are `rust_decimal::Decimal` values: a sign, a magnitude
//! below 2^96 and a scale, standing for `magnitude / 10^scale`. A decimal
//! comes in only where it is a whole number of the unit asked for; nothing
//! is ever rounded.

use vstd::prelude::*;
use vstd::arithmetic::div_mod::{
    lemma_div_multiples_vanish, lemma_fundamental_div_mod, lemma_mod_multiples_basic,
};
use rust_decimal::Decimal;

verus! {

#[verifier::external_type_specification]
#[verifier::external_body]
pub struct ExDecimal(rust_decimal::Decimal);

/// Largest magnitude a `Decimal` can hold: 2^96 - 1.
pub const MAX_MANTISSA: i128 = 0x0000_0000_FFFF_FFFF_FFFF_FFFF_FFFF_FFFF;

/// Largest scale a `Decimal` can be made with.
pub const MAX_SCALE: u32 = 28;

/// Decimals of a quantity or a unit cost.
pub const QTY_PLACES: u32 = 2;

/// Decimals of a monetary value.
pub const MONEY_PLACES: u32 = 4;

pub open spec fn pow10(n: nat) -> nat
    decreases n,
{
    if n == 0 {
        1
    } else {
        10 * pow10((n - 1) as nat)
    }
}

/// The number `magnitude / 10^scale` as a count of units of `10^-places`,
/// where it is a whole number of them.
pub open spec fn rescaled(magnitude: nat, scale: nat, places: nat) -> Option<nat> {
    if scale <= places {
        Some(magnitude * pow10((places - scale) as nat))
    } else if magnitude % pow10((scale - places) as nat) == 0 {
        Some(magnitude / pow10((scale - places) as nat))
    } else {
        None
    }
}

pub open spec fn magnitude_of(mantissa: int) -> nat {
    if mantissa < 0 {
        (-mantissa) as nat
    } else {
        mantissa as nat
    }
}

/// The number `mantissa / 10^scale` as a signed count of units of
/// `10^-places`, where it is a whole number of them.
pub open spec fn fixed_of(mantissa: int, scale: nat, places: nat) -> Option<int> {
    match rescaled(magnitude_of(mantissa), scale, places) {
        Some(v) => Some(
            if mantissa < 0 {
                -(v as int)
            } else {
                v as int
            },
        ),
        None => None,
    }
}

/// `fixed_of`, where the count fits between `low` and `high`.
pub open spec fn fixed_within(mantissa: int, scale: nat, places: nat, low: int, high: int)
    -> Option<int> {
    match fixed_of(mantissa, scale, places) {
        Some(v) => if low <= v <= high {
            Some(v)
        } else {
            None
        },
        None => None,
    }
}

proof fn lemma_pow10_positive(n: nat)
    ensures
        pow10(n) > 0,
    decreases n,
{
    if n > 0 {
        lemma_pow10_positive((n - 1) as nat);
    }
}

proof fn lemma_pow10_grows(a: nat, b: nat)
    requires
        a <= b,
    ensures
        pow10(a) <= pow10(b),
    decreases b,
{
    if a < b {
        lemma_pow10_grows(a, (b - 1) as nat);
    }
}

/// `10^b` is `10^a` times ten times a further power of ten, for `a < b`.
proof fn lemma_pow10_split(a: nat, b: nat)
    requires
        a < b,
    ensures
        pow10(b) == pow10(a) * 10 * pow10((b - a - 1) as nat),
    decreases b,
{
    if b == a + 1 {
        assert(pow10(a) * 10 * 1 == 10 * pow10(a)) by (nonlinear_arith);
    } else {
        lemma_pow10_split(a, (b - 1) as nat);
        let rest = pow10((b - 1 - a - 1) as nat);
        assert(10 * (pow10(a) * 10 * rest) == pow10(a) * 10 * (10 * rest)) by (nonlinear_arith);
    }
}

/// A number whose digits above the `k` lowest do not end in zero is no
/// multiple of a higher power of ten.
proof fn lemma_not_a_multiple(magnitude: nat, v: nat, k: nat, steps: nat)
    requires
        k < steps,
        magnitude == v * pow10(k),
        v % 10 != 0,
    ensures
        magnitude % pow10(steps) != 0,
{
    let p = pow10(steps) as int;
    let low = pow10(k) as int;
    let rest = pow10((steps - k - 1) as nat) as int;
    lemma_pow10_positive(steps);
    lemma_pow10_positive(k);
    lemma_pow10_split(k, steps);
    if magnitude % pow10(steps) == 0 {
        let q = (magnitude as int) / p;
        lemma_fundamental_div_mod(magnitude as int, p);
        assert(v * low == (q * rest * 10) * low) by (nonlinear_arith)
            requires
                magnitude as int == p * q,
                p == low * 10 * rest,
                magnitude as int == v * low,
        ;
        assert(v as int == q * rest * 10) by (nonlinear_arith)
            requires
                v * low == (q * rest * 10) * low,
                low > 0,
        ;
        lemma_mod_multiples_basic(q * rest, 10);
    }
}

/// Rescales a magnitude from `scale` decimals to `places` decimals where
/// that is exact and the result fits.
pub fn rescale(magnitude: u128, scale: u32, places: u32) -> (res: Option<u128>)
    ensures
        res == match rescaled(magnitude as nat, scale as nat, places as nat) {
            Some(v) => if v <= u128::MAX {
                Some(v as u128)
            } else {
                None
            },
            None => None,
        },
{
    if scale <= places {
        let steps: u32 = places - scale;
        let mut v: u128 = magnitude;
        let mut k: u32 = 0;
        while k < steps
            invariant
                k <= steps,
                scale <= places,
                steps == places - scale,
                v == magnitude * pow10(k as nat),
            decreases steps - k,
        {
            if v > u128::MAX / 10 {
                proof {
                    lemma_pow10_grows((k + 1) as nat, steps as nat);
                    let next = pow10((k + 1) as nat) as int;
                    let last = pow10(steps as nat) as int;
                    assert(magnitude * next == v * 10) by (nonlinear_arith)
                        requires
                            v == magnitude * pow10(k as nat),
                            next == 10 * pow10(k as nat),
                    ;
                    assert(magnitude * next <= magnitude * last) by (nonlinear_arith)
                        requires
                            next <= last,
                            magnitude >= 0,
                    ;
                }
                return None;
            }
            proof {
                assert(magnitude * pow10((k + 1) as nat) == v * 10) by (nonlinear_arith)
                    requires
                        v == magnitude * pow10(k as nat),
                        pow10((k + 1) as nat) == 10 * pow10(k as nat),
                ;
            }
            v = v * 10;
            k = k + 1;
        }
        Some(v)
    } else {
        let steps: u32 = scale - places;
        let mut v: u128 = magnitude;
        let mut k: u32 = 0;
        while k < steps
            invariant
                k <= steps,
                scale > places,
                steps == scale - places,
                magnitude == v * pow10(k as nat),
            decreases steps - k,
        {
            if v % 10 != 0 {
                proof {
                    lemma_not_a_multiple(magnitude as nat, v as nat, k as nat, steps as nat);
                }
                return None;
            }
            proof {
                assert((v / 10) * pow10((k + 1) as nat) == v * pow10(k as nat))
                    by (nonlinear_arith)
                    requires
                        v == 10 * (v / 10),
                        pow10((k + 1) as nat) == 10 * pow10(k as nat),
                ;
            }
            v = v / 10;
            k = k + 1;
        }
        proof {
            let p = pow10(steps as nat) as int;
            lemma_pow10_positive(steps as nat);
            lemma_mod_multiples_basic(v as int, p);
            lemma_div_multiples_vanish(v as int, p);
            assert(v * p == p * v) by (nonlinear_arith);
        }
        Some(v)
    }
}

/// The signed count of units of `10^-places` that `mantissa / 10^scale`
/// is, where it is a whole number of them between `low` and `high`.
pub fn fixed_from_parts(mantissa: i128, scale: u32, places: u32, low: i128, high: i128) -> (res:
    Option<i128>)
    ensures
        res == match fixed_within(
            mantissa as int,
            scale as nat,
            places as nat,
            low as int,
            high as int,
        ) {
            Some(v) => Some(v as i128),
            None => None,
        },
{
    let negative = mantissa < 0;
    let magnitude: u128 = if negative {
        ((-(mantissa + 1)) as u128) + 1
    } else {
        mantissa as u128
    };
    match rescale(magnitude, scale, places) {
        None => None,
        Some(v) => {
            if negative {
                if v > (i128::MAX as u128) + 1 {
                    return None;
                }
                let signed: i128 = if v == (i128::MAX as u128) + 1 {
                    i128::MIN
                } else {
                    -(v as i128)
                };
                if low <= signed && signed <= high {
                    Some(signed)
                } else {
                    None
                }
            } else {
                if v > i128::MAX as u128 {
                    return None;
                }
                let signed: i128 = v as i128;
                if low <= signed && signed <= high {
                    Some(signed)
                } else {
                    None
                }
            }
        },
    }
}

/// The quantity in hundredths that `mantissa / 10^scale` is.
pub open spec fn quantity_of(mantissa: i128, scale: u32) -> Option<u64> {
    match fixed_within(mantissa as int, scale as nat, 2, 0, u64::MAX as int) {
        Some(v) => Some(v as u64),
        None => None,
    }
}

/// The amount in ten-thousandths that `mantissa / 10^scale` is.
pub open spec fn amount_of(mantissa: i128, scale: u32) -> Option<u128> {
    match fixed_within(mantissa as int, scale as nat, 4, 0, i128::MAX as int) {
        Some(v) => Some(v as u128),
        None => None,
    }
}

/// The balance in ten-thousandths that `mantissa / 10^scale` is.
pub open spec fn balance_of(mantissa: i128, scale: u32) -> Option<i128> {
    match fixed_within(mantissa as int, scale as nat, 4, i128::MIN as int, i128::MAX as int) {
        Some(v) => Some(v as i128),
        None => None,
    }
}

/// A quantity or unit cost in hundredths, from the parts of a decimal:
/// there is one where the decimal is not negative, has no more than two
/// significant decimals and fits.
pub fn quantity_from_parts(mantissa: i128, scale: u32) -> (res: Option<u64>)
    ensures
        res == quantity_of(mantissa, scale),
{
    match fixed_from_parts(mantissa, scale, QTY_PLACES, 0, u64::MAX as i128) {
        Some(v) => Some(v as u64),
        None => None,
    }
}

/// A monetary amount in ten-thousandths, from the parts of a decimal:
/// there is one where the decimal is not negative, has no more than four
/// significant decimals and fits.
pub fn amount_from_parts(mantissa: i128, scale: u32) -> (res: Option<u128>)
    ensures
        res == amount_of(mantissa, scale),
{
    match fixed_from_parts(mantissa, scale, MONEY_PLACES, 0, i128::MAX) {
        Some(v) => Some(v as u128),
        None => None,
    }
}

/// A balance in ten-thousandths, from the parts of a decimal: there is one
/// where the decimal has no more than four significant decimals and fits.
pub fn balance_from_parts(mantissa: i128, scale: u32) -> (res: Option<i128>)
    ensures
        res == balance_of(mantissa, scale),
{
    fixed_from_parts(mantissa, scale, MONEY_PLACES, i128::MIN, i128::MAX)
}

/// Calls `Decimal::mantissa`. Believed of it: the result is the signed
/// 96-bit magnitude, so it lies within `MAX_MANTISSA` of zero.
#[verifier::external_body]
fn decimal_mantissa(d: &Decimal) -> (mantissa: i128)
    ensures
        -MAX_MANTISSA <= mantissa <= MAX_MANTISSA,
{
    d.mantissa()
}

/// Calls `Decimal::scale`. Believed of it: the result is read from eight
/// bits, so it is at most 255.
#[verifier::external_body]
fn decimal_scale(d: &Decimal) -> (scale: u32)
    ensures
        scale <= 255,
{
    d.scale()
}

/// The decimal that `Decimal::try_from_i128_with_scale` makes of a signed
/// number and a scale, where it makes one: the decimal that stands for
/// `mantissa / 10^scale` and is written with `scale` decimals.
pub uninterp spec fn decimal_of_parts(mantissa: i128, scale: u32) -> Option<Decimal>;

/// Calls `Decimal::try_from_i128_with_scale` and keeps the decimal where
/// there is one. Believed of it: the result depends on the two arguments
/// alone, and there is one just where the scale is at most `MAX_SCALE` and
/// the number lies within `MAX_MANTISSA` of zero.
#[verifier::external_body]
fn decimal_from_parts(mantissa: i128, scale: u32) -> (d: Option<Decimal>)
    ensures
        d == decimal_of_parts(mantissa, scale),
        d.is_some() == (scale <= MAX_SCALE && -MAX_MANTISSA <= mantissa <= MAX_MANTISSA),
{
    Decimal::try_from_i128_with_scale(mantissa, scale).ok()
}

/// Whether `res` is the quantity that some decimal's parts give.
pub open spec fn is_quantity_of_a_decimal(res: Option<u64>) -> bool {
    exists|mantissa: i128, scale: u32|
        -MAX_MANTISSA <= mantissa <= MAX_MANTISSA && scale <= 255 && res == #[trigger] quantity_of(
            mantissa,
            scale,
        )
}

/// Whether `res` is the amount that some decimal's parts give.
pub open spec fn is_amount_of_a_decimal(res: Option<u128>) -> bool {
    exists|mantissa: i128, scale: u32|
        -MAX_MANTISSA <= mantissa <= MAX_MANTISSA && scale <= 255 && res == #[trigger] amount_of(
            mantissa,
            scale,
        )
}

/// Whether `res` is the balance that some decimal's parts give.
pub open spec fn is_balance_of_a_decimal(res: Option<i128>) -> bool {
    exists|mantissa: i128, scale: u32|
        -MAX_MANTISSA <= mantissa <= MAX_MANTISSA && scale <= 255 && res == #[trigger] balance_of(
            mantissa,
            scale,
        )
}

/// A quantity or unit cost in hundredths from a decimal: see
/// `quantity_from_parts`.
pub fn quantity_from_decimal(d: &Decimal) -> (res: Option<u64>)
    ensures
        is_quantity_of_a_decimal(res),
{
    let mantissa = decimal_mantissa(d);
    let scale = decimal_scale(d);
    quantity_from_parts(mantissa, scale)
}

/// A monetary amount in ten-thousandths from a decimal: see
/// `amount_from_parts`.
pub fn amount_from_decimal(d: &Decimal) -> (res: Option<u128>)
    ensures
        is_amount_of_a_decimal(res),
{
    let mantissa = decimal_mantissa(d);
    let scale = decimal_scale(d);
    amount_from_parts(mantissa, scale)
}

/// A balance in ten-thousandths from a decimal: see `balance_from_parts`.
pub fn balance_from_decimal(d: &Decimal) -> (res: Option<i128>)
    ensures
        is_balance_of_a_decimal(res),
{
    let mantissa = decimal_mantissa(d);
    let scale = decimal_scale(d);
    balance_from_parts(mantissa, scale)
}

/// The decimal with two decimals that stands for a quantity or unit cost
/// in hundredths: the one made of the quantity as the number and of scale
/// two. Every quantity has one.
pub fn quantity_to_decimal(qty: u64) -> (d: Option<Decimal>)
    ensures
        d == decimal_of_parts(qty as i128, QTY_PLACES),
        d.is_some(),
{
    decimal_from_parts(qty as i128, QTY_PLACES)
}

/// The decimal with two decimals that stands for a signed change of
/// quantity in hundredths: the one made of the change as the number and of
/// scale two, where the change is within a decimal's 96 bits.
pub fn quantity_change_to_decimal(change: i128) -> (d: Option<Decimal>)
    ensures
        d == decimal_of_parts(change, QTY_PLACES),
        d.is_some() == (-MAX_MANTISSA <= change <= MAX_MANTISSA),
{
    decimal_from_parts(change, QTY_PLACES)
}

/// The decimal with four decimals that stands for an amount in
/// ten-thousandths: the one made of the amount as the number and of scale
/// four, where the amount is within a decimal's 96 bits.
pub fn amount_to_decimal(amount: u128) -> (d: Option<Decimal>)
    ensures
        d == (if amount <= MAX_MANTISSA {
            decimal_of_parts(amount as i128, MONEY_PLACES)
        } else {
            None
        }),
        d.is_some() == (amount <= MAX_MANTISSA),
{
    if amount > MAX_MANTISSA as u128 {
        return None;
    }
    decimal_from_parts(amount as i128, MONEY_PLACES)
}

/// The decimal with four decimals that stands for a balance in
/// ten-thousandths: the one made of the balance as the number and of scale
/// four, where the balance is within a decimal's 96 bits.
pub fn balance_to_decimal(balance: i128) -> (d: Option<Decimal>)
    ensures
        d == decimal_of_parts(balance, MONEY_PLACES),
        d.is_some() == (-MAX_MANTISSA <= balance <= MAX_MANTISSA),
{
    decimal_from_parts(balance, MONEY_PLACES)
}

} // verus!
