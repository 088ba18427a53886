use vstd::prelude::*;

use vstd::arithmetic::div_mod::lemma_div_is_ordered_by_denominator;

use crate::error::VeraluxErrorCode;

verus! {

/// Remainder of `a / d` rounded toward zero (the sign follows `a`).
pub open spec fn trunc_rem(a: int, d: int) -> int {
    if a >= 0 {
        a % d
    } else {
        -((-a) % d)
    }
}

/// Quotient `a / d` rounded toward zero.
pub open spec fn trunc_div(a: int, d: int) -> int {
    if a >= 0 {
        a / d
    } else {
        -((-a) / d)
    }
}

/// `x * bps / 10000`, rounded up.
pub open spec fn ceil_bps(x: int, bps: int) -> int {
    (x * bps + 9999) / 10000
}

pub open spec fn fits_i64(x: int) -> bool {
    i64::MIN <= x <= i64::MAX
}

/// `a % d` with the sign of `a`, as Rust computes it on `i64`.
pub fn rem_i64(a: i64, d: u64) -> (r: i64)
    requires
        0 < d <= i64::MAX,
    ensures
        r == trunc_rem(a as int, d as int),
{
    if a >= 0 {
        ((a as u64) % d) as i64
    } else {
        let m: u128 = ((0i128 - (a as i128)) as u128) % (d as u128);
        0 - (m as i64)
    }
}

/// `a / d` rounded toward zero, as Rust computes it on `i64`.
pub fn div_i64(a: i64, d: u64) -> (r: i64)
    requires
        2 <= d <= i64::MAX,
    ensures
        r == trunc_div(a as int, d as int),
{
    if a >= 0 {
        ((a as u64) / d) as i64
    } else {
        let n: u128 = (0i128 - (a as i128)) as u128;
        let m: u128 = n / (d as u128);
        proof {
            lemma_div_is_ordered_by_denominator(n as int, 2, d as int);
        }
        0 - (m as i64)
    }
}

/// `now - since`, or an overflow error when the difference does not fit in `i64`.
pub fn elapsed(now: i64, since: i64) -> (r: Result<i64, VeraluxErrorCode>)
    ensures
        fits_i64(now - since) ==> r == Ok::<i64, VeraluxErrorCode>((now - since) as i64),
        !fits_i64(now - since) ==> r == Err::<i64, VeraluxErrorCode>(
            VeraluxErrorCode::ArithmeticOverflow,
        ),
{
    let d: i128 = now as i128 - since as i128;
    if d < i64::MIN as i128 || d > i64::MAX as i128 {
        Err(VeraluxErrorCode::ArithmeticOverflow)
    } else {
        Ok(d as i64)
    }
}

/// Whether at least `delay` seconds separate `since` and `now`.
pub open spec fn delay_elapsed(since: i64, now: i64, delay: i64) -> bool {
    now - since >= delay
}

/// Tests whether at least `delay` seconds separate `since` and `now`, with no overflow.
pub fn has_elapsed(since: i64, now: i64, delay: i64) -> (r: bool)
    ensures
        r == delay_elapsed(since, now, delay),
{
    (now as i128) - (since as i128) >= delay as i128
}

/// `x * bps / 10000` rounded up, for `bps` at most 10000.
pub fn mul_bps_ceil(x: u64, bps: u64) -> (r: u64)
    requires
        bps <= 10000,
    ensures
        r == ceil_bps(x as int, bps as int),
        r <= x,
{
    proof {
        assert((x as int) * (bps as int) <= (u64::MAX as int) * 10000) by (nonlinear_arith)
            requires
                bps <= 10000,
                x <= u64::MAX,
        ;
    }
    let p: u128 = (x as u128) * (bps as u128) + 9999;
    let q: u128 = p / 10000;
    proof {
        assert(q <= x) by (nonlinear_arith)
            requires
                bps <= 10000,
                p == (x as int) * (bps as int) + 9999,
                q == p / 10000,
        ;
    }
    q as u64
}

} // verus!
