//! Saturating fixed-point arithmetic on thousandths.

use vstd::prelude::*;
use vstd::arithmetic::div_mod::lemma_fundamental_div_mod_converse;

verus! {

/// The fixed-point representation of `1.0`.
pub const UNIT: i64 = 1000;

/// The representable value nearest to `v`.
pub open spec fn saturate(v: int) -> int {
    if v < i64::MIN {
        i64::MIN as int
    } else if v > i64::MAX {
        i64::MAX as int
    } else {
        v
    }
}

/// `value * num / den`, rounded towards negative infinity.
pub open spec fn ratio(value: int, num: int, den: int) -> int {
    (value * num) / den
}

/// Narrows a wide intermediate result to the representable range.
pub fn saturating(v: i128) -> (r: i64)
    ensures
        r == saturate(v as int),
{
    if v < i64::MIN as i128 {
        i64::MIN
    } else if v > i64::MAX as i128 {
        i64::MAX
    } else {
        v as i64
    }
}

/// `a - b`, saturated.
pub fn difference(a: i64, b: i64) -> (r: i64)
    ensures
        r == saturate(a - b),
{
    saturating(a as i128 - b as i128)
}

/// The floor of the quotient of a negative numerator `-m` by a positive
/// divisor, from the quotient of `m - 1`.
proof fn lemma_floor_of_negative(m: int, d: int)
    requires
        m > 0,
        d > 0,
    ensures
        (-m) / d == -((m - 1) / d) - 1,
{
    let q = (m - 1) / d;
    let r = (m - 1) % d;
    assert(-m == (-q - 1) * d + (d - r - 1)) by (nonlinear_arith)
        requires
            m - 1 == d * q + r,
    ;
    lemma_fundamental_div_mod_converse(-m, d, -q - 1, d - r - 1);
}

/// Division rounding towards negative infinity.
fn floor_div(n: i128, d: i128) -> (q: i128)
    requires
        d > 0,
        n > i128::MIN,
    ensures
        q == n / d,
{
    if n >= 0 {
        n / d
    } else {
        let m: i128 = -n;
        proof {
            lemma_floor_of_negative(m as int, d as int);
        }
        -((m - 1) / d) - 1
    }
}

/// `(a - b) * num / den` in wide arithmetic, rounded towards negative
/// infinity.
pub fn scaled_difference(a: i64, b: i64, num: i64, den: i64) -> (r: i128)
    requires
        den > 0,
    ensures
        r == ratio(a - b, num as int, den as int),
{
    let d: i128 = a as i128 - b as i128;
    assert(-0x7fff_ffff_ffff_ffff_8000_0000_0000_0000 <= d * num
        <= 0x7fff_ffff_ffff_ffff_8000_0000_0000_0000) by (nonlinear_arith)
        requires
            -0xffff_ffff_ffff_ffff <= d <= 0xffff_ffff_ffff_ffff,
            -0x8000_0000_0000_0000 <= num <= 0x8000_0000_0000_0000,
    ;
    let n: i128 = d * (num as i128);
    floor_div(n, den as i128)
}

/// `value * num / den` in wide arithmetic, rounded towards negative
/// infinity.
pub fn scaled(value: i64, num: i64, den: i64) -> (r: i128)
    requires
        den > 0,
    ensures
        r == ratio(value as int, num as int, den as int),
        -0x4000_0000_0000_0000_0000_0000_0000_0000 <= r <= 0x4000_0000_0000_0000_0000_0000_0000_0000,
{
    assert(-0x4000_0000_0000_0000_0000_0000_0000_0000 <= value * num
        <= 0x4000_0000_0000_0000_0000_0000_0000_0000) by (nonlinear_arith)
        requires
            -0x8000_0000_0000_0000 <= value <= 0x8000_0000_0000_0000,
            -0x8000_0000_0000_0000 <= num <= 0x8000_0000_0000_0000,
    ;
    assert(-0x4000_0000_0000_0000_0000_0000_0000_0000 <= (value * num) / (den as int)
        <= 0x4000_0000_0000_0000_0000_0000_0000_0000) by (nonlinear_arith)
        requires
            -0x4000_0000_0000_0000_0000_0000_0000_0000 <= value * num
                <= 0x4000_0000_0000_0000_0000_0000_0000_0000,
            den > 0,
    ;
    scaled_difference(value, 0, num, den)
}

} // verus!
