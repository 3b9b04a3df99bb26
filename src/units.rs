use vstd::prelude::*;

verus! {

/// Microseconds in one second.
pub const MICROS_PER_SECOND: i64 = 1_000_000;

/// Denominator of ratios given in thousandths.
pub const PER_MILLE: i64 = 1000;

/// Largest magnitude of a velocity or acceleration.
pub const RATE_LIMIT: i64 = 4_294_967_296;

/// Largest dimensionless factor (gravity, mass, friction, skid factor).
pub const FACTOR_LIMIT: i64 = 65_536;

/// Bound on intermediate products, well inside `i128`.
pub const WIDE_LIMIT: i128 = 1_208_925_819_614_629_174_706_176;

pub open spec fn clamp(v: int, lo: int, hi: int) -> int {
    if v < lo {
        lo
    } else if v > hi {
        hi
    } else {
        v
    }
}

pub open spec fn abs(v: int) -> int {
    if v < 0 {
        -v
    } else {
        v
    }
}

/// Division of `n` by a positive `d`, rounded toward zero.
pub open spec fn div_toward_zero(n: int, d: int) -> int {
    if n >= 0 {
        n / d
    } else {
        -((-n) / d)
    }
}

/// Change of a quantity over `dt` microseconds at `rate` per second.
pub open spec fn per_dt(rate: int, dt: int) -> int {
    div_toward_zero(rate * dt, MICROS_PER_SECOND as int)
}

pub fn clamp_i128(v: i128, lo: i128, hi: i128) -> (r: i128)
    requires
        lo <= hi,
    ensures
        r == clamp(v as int, lo as int, hi as int),
{
    if v < lo {
        lo
    } else if v > hi {
        hi
    } else {
        v
    }
}

/// `per_dt` on machine integers.
pub fn rate_times_dt(rate: i128, dt: u32) -> (r: i128)
    requires
        -WIDE_LIMIT <= rate <= WIDE_LIMIT,
    ensures
        r == per_dt(rate as int, dt as int),
        abs(r as int) <= abs(rate as int) * 4295,
{
    let dt128 = dt as i128;
    if rate >= 0 {
        proof {
            lemma_mul_le(rate as int, dt as int, WIDE_LIMIT as int, 4_294_967_295);
            lemma_scaled_le(rate as int, dt as int);
        }
        (rate * dt128) / 1_000_000
    } else {
        let m = -rate;
        proof {
            lemma_mul_le(m as int, dt as int, WIDE_LIMIT as int, 4_294_967_295);
            lemma_scaled_le(m as int, dt as int);
            assert(m * dt == -(rate * dt) && rate * dt <= 0) by (nonlinear_arith)
                requires
                    m == -rate,
                    rate < 0,
                    dt >= 0,
            ;
        }
        -((m * dt128) / 1_000_000)
    }
}

/// `v` scaled by `factor` thousandths, rounded toward zero.
pub fn scale_per_mille(v: i128, factor: i64) -> (r: i128)
    requires
        -RATE_LIMIT <= v <= RATE_LIMIT,
        0 <= factor <= FACTOR_LIMIT,
    ensures
        r == div_toward_zero(v * factor, PER_MILLE as int),
        -RATE_LIMIT * 66 <= r <= RATE_LIMIT * 66,
{
    if v >= 0 {
        proof {
            lemma_mul_le(v as int, factor as int, RATE_LIMIT as int, FACTOR_LIMIT as int);
        }
        (v * factor as i128) / 1000
    } else {
        let m = -v;
        proof {
            lemma_mul_le(m as int, factor as int, RATE_LIMIT as int, FACTOR_LIMIT as int);
            assert(m * factor == -(v * factor) && v * factor <= 0) by (nonlinear_arith)
                requires
                    m == -v,
                    v < 0,
                    factor >= 0,
            ;
        }
        -((m * factor as i128) / 1000)
    }
}

pub proof fn lemma_mul_le(a: int, b: int, amax: int, bmax: int)
    requires
        0 <= a <= amax,
        0 <= b <= bmax,
    ensures
        0 <= a * b <= amax * bmax,
{
    assert(0 <= a * b <= amax * bmax) by (nonlinear_arith)
        requires
            0 <= a <= amax,
            0 <= b <= bmax,
    ;
}

proof fn lemma_scaled_le(a: int, dt: int)
    requires
        0 <= a,
        0 <= dt <= 4_294_967_295,
    ensures
        (a * dt) / 1_000_000 <= a * 4295,
        0 <= (a * dt) / 1_000_000,
{
    assert((a * dt) / 1_000_000 <= a * 4295 && 0 <= (a * dt) / 1_000_000) by (nonlinear_arith)
        requires
            0 <= a,
            0 <= dt <= 4_294_967_295,
    ;
}

} // verus!
