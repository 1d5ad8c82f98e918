//! Fixed-point fractions in parts per million.

use vstd::prelude::*;

verus! {

/// A fraction expressed in parts per million: `1_000_000` stands for `1.0`.
pub type Ppm = u32;

/// A signed quantity in millionths: `-1_000_000` stands for `-1.0`.
pub type SignedPpm = i32;

/// The fraction `1.0`.
pub const ONE: u32 = 1_000_000;

/// Whether `x` lies in the closed unit interval.
pub open spec fn is_unit(x: u32) -> bool {
    x <= ONE
}

/// Limits `x` to the unit interval.
pub fn clamp_unit(x: u64) -> (r: u32)
    ensures
        is_unit(r),
        x <= ONE ==> r == x,
        x > ONE ==> r == ONE,
{
    if x > 1_000_000 {
        ONE
    } else {
        x as u32
    }
}

/// The fraction `num / den` in parts per million, rounded down, and limited to
/// what a `u32` holds; 0 where `den` is 0.
pub open spec fn ratio_of(num: nat, den: nat) -> nat {
    if den == 0 {
        0
    } else if (num * ONE) as int / den as int > u32::MAX {
        u32::MAX as nat
    } else {
        ((num * ONE) as int / den as int) as nat
    }
}

/// The fraction `num / den` in parts per million.
pub fn ratio(num: u64, den: u64) -> (r: u32)
    ensures
        r == ratio_of(num as nat, den as nat),
        num <= den ==> r <= ONE,
{
    if den == 0 {
        return 0;
    }
    assert(num * 1_000_000 <= 0xffff_ffff_ffff_ffff * 1_000_000) by (nonlinear_arith)
        requires
            0 <= num <= 0xffff_ffff_ffff_ffff,
    ;
    let wide: u128 = (num as u128) * 1_000_000 / (den as u128);
    proof {
        assert((num * 1_000_000) as int / (den as int) >= 0) by (nonlinear_arith)
            requires
                0 <= num,
                den > 0,
        ;
        if num <= den {
            assert((num * 1_000_000) as int / (den as int) <= 1_000_000) by (nonlinear_arith)
                requires
                    0 <= num <= den,
                    den > 0,
            ;
        }
    }
    if wide > 0xffff_ffff {
        u32::MAX
    } else {
        wide as u32
    }
}

/// The product of two fractions in parts per million, rounded down.
pub open spec fn product_of(a: Ppm, b: Ppm) -> nat {
    (a * b / (ONE as int)) as nat
}

/// The product of two fractions in parts per million.
pub fn product(a: Ppm, b: Ppm) -> (r: u64)
    ensures
        r == product_of(a, b),
{
    assert(a * b <= 0xffff_ffff * 0xffff_ffff) by (nonlinear_arith)
        requires
            0 <= a <= 0xffff_ffff,
            0 <= b <= 0xffff_ffff,
    ;
    (a as u64) * (b as u64) / 1_000_000
}

/// A counter after one more event: it stops at the largest value it can hold.
pub open spec fn bumped(count: u64) -> u64 {
    if count < u64::MAX {
        (count + 1) as u64
    } else {
        count
    }
}

/// Counts one more event.
pub fn bump(count: u64) -> (r: u64)
    ensures
        r == bumped(count),
{
    if count < u64::MAX {
        count + 1
    } else {
        count
    }
}

/// A running total after `amount` has been added: it stops at the largest value it can hold.
pub open spec fn accumulated(total: u64, amount: u64) -> u64 {
    if total + amount <= u64::MAX {
        (total + amount) as u64
    } else {
        u64::MAX
    }
}

/// Adds `amount` to a running total.
pub fn accumulate(total: u64, amount: u64) -> (r: u64)
    ensures
        r == accumulated(total, amount),
{
    if amount <= u64::MAX - total {
        total + amount
    } else {
        u64::MAX
    }
}

} // verus!
