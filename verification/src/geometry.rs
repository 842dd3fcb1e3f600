use vstd::prelude::*;

verus! {

use vstd::arithmetic::div_mod::{lemma_fundamental_div_mod, lemma_fundamental_div_mod_converse};
use crate::trig::{TrigTable, TRIG_SCALE};

/// Number of accumulator rows: one candidate angle per integer degree.
pub const ANGLE_RESOLUTION: usize = 180;

/// The largest image side length the library accepts.  The bound keeps every
/// intermediate fixed-point product comfortably inside `i64` and the flat
/// accumulator comfortably inside `usize`.
pub const MAX_DIMENSION: usize = 32768;

/// Upper bound on the diagonal of an accepted image:
/// `ceil(hypot(MAX_DIMENSION, MAX_DIMENSION))`.
pub const MAX_RHO_BOUND: usize = 46341;

/// `m` is the image diagonal rounded up: the least integer whose square is
/// at least `w^2 + h^2`.  This is the accumulator's rho resolution.
pub open spec fn is_max_rho(m: int, w: int, h: int) -> bool {
    &&& m * m >= w * w + h * h
    &&& m >= 0
    &&& m >= 1 ==> (m - 1) * (m - 1) < w * w + h * h
}

/// Maps a fixed-point signed distance `rho_q` (scaled by [`TRIG_SCALE`])
/// into a non-negative accumulator column: `round(rho/2 + max_rho/2)`,
/// with ties rounded up.  The division by two halves the radial resolution
/// in exchange for half the storage; the `max_rho/2` shift centers the
/// symmetric range `[-max_rho, max_rho]` on the column range.
pub open spec fn scale_rho_spec(rho_q: int, max_rho: int) -> int {
    (rho_q + max_rho * TRIG_SCALE + TRIG_SCALE) / (2 * TRIG_SCALE)
}

/// Inverts the storage scaling: column `scaled` stands for the signed
/// distance `(scaled - max_rho/2) * 2 == 2 * scaled - max_rho`, in whole
/// pixels (not fixed point; the inverse is exact in integers).
pub open spec fn unscale_rho_spec(scaled: int, max_rho: int) -> int {
    2 * scaled - max_rho
}

/// The diagonal of a `width x height` image, rounded up to the next integer.
/// This is the full symmetric range of signed line distances, and hence the
/// accumulator's rho resolution.
pub fn calculate_max_rho_value(width: usize, height: usize) -> (m: usize)
    requires
        width <= MAX_DIMENSION,
        height <= MAX_DIMENSION,
    ensures
        is_max_rho(m as int, width as int, height as int),
        m <= MAX_RHO_BOUND,
    {
    proof {
        assert((width as int) * (width as int) <= 0x4000_0000 && (height as int) * (height
            as int) <= 0x4000_0000) by (nonlinear_arith)
            requires
                width <= 32768,
                height <= 32768,
        ;
    }
    let n: u64 = (width as u64) * (width as u64) + (height as u64) * (height as u64);
    let mut m: u64 = 0;
    while m * m < n
        invariant
            n <= 0x8000_0000,
            m >= 1 ==> (m - 1) * (m - 1) < n,
            m <= 46341,
            m <= n,
            m * m <= 0x2_0000_0000,
        decreases n - m,
    {
        proof {
            assert(m <= 46340 && m + 1 <= n && (m + 1) * (m + 1) <= 0x2_0000_0000)
                by (nonlinear_arith)
                requires
                    m * m < n,
                    n <= 0x8000_0000,
                    m >= 0,
            ;
        }
        m = m + 1;
    }
    m as usize
}

/// The rho resolution is a function of the image dimensions alone: any two
/// values meeting [`is_max_rho`] for the same dimensions are equal.
pub proof fn lemma_max_rho_unique(m1: int, m2: int, w: int, h: int)
    requires
        is_max_rho(m1, w, h),
        is_max_rho(m2, w, h),
    ensures
        m1 == m2,
{
    assert(m1 == m2) by (nonlinear_arith)
        requires
            m1 * m1 >= w * w + h * h,
            m2 * m2 >= w * w + h * h,
            m1 >= 0,
            m2 >= 0,
            m1 >= 1 ==> (m1 - 1) * (m1 - 1) < w * w + h * h,
            m2 >= 1 ==> (m2 - 1) * (m2 - 1) < w * w + h * h,
    ;
}

/// For a non-degenerate image the diagonal bound clears the farthest pixel
/// `(w-1, h-1)` by a full unit: `(m-1)^2 >= (w-1)^2 + (h-1)^2 + 1`.  This
/// margin is what keeps every scaled distance strictly inside the column
/// range.
pub proof fn lemma_max_rho_margin(m: int, w: int, h: int)
    requires
        is_max_rho(m, w, h),
        w >= 1,
        h >= 1,
    ensures
        (m - 1) * (m - 1) >= (w - 1) * (w - 1) + (h - 1) * (h - 1) + 1,
        m >= 2,
{
    assert(m >= 2) by (nonlinear_arith)
        requires
            m * m >= w * w + h * h,
            w >= 1,
            h >= 1,
            m >= 0,
    ;
    if w >= 2 && h >= 2 {
        // m - 1 < hypot(w, h) <= w + h - 1, so m <= w + h - 1.
        assert((m - 1) * (m - 1) < (w + h - 1) * (w + h - 1)) by (nonlinear_arith)
            requires
                (m - 1) * (m - 1) < w * w + h * h,
                w >= 2,
                h >= 2,
        ;
        assert(m <= w + h - 1) by (nonlinear_arith)
            requires
                (m - 1) * (m - 1) < (w + h - 1) * (w + h - 1),
                m >= 2,
                w + h - 1 >= 0,
        ;
        assert((m - 1) * (m - 1) >= (w - 1) * (w - 1) + (h - 1) * (h - 1) + 1)
            by (nonlinear_arith)
            requires
                m * m >= w * w + h * h,
                m <= w + h - 1,
                m >= 2,
        ;
    } else if w == 1 {
        // Here m == h + 1 exactly, and h^2 >= (h - 1)^2 + 1.
        assert(m == h + 1 && (m - 1) * (m - 1) >= (w - 1) * (w - 1) + (h - 1) * (h - 1) + 1)
            by (nonlinear_arith)
            requires
                m * m >= w * w + h * h,
                (m - 1) * (m - 1) < w * w + h * h,
                w == 1,
                m >= 1,
                h >= 1,
        ;
    } else {
        // h == 1, symmetric to the previous case.
        assert(m == w + 1 && (m - 1) * (m - 1) >= (w - 1) * (w - 1) + (h - 1) * (h - 1) + 1)
            by (nonlinear_arith)
            requires
                m * m >= w * w + h * h,
                (m - 1) * (m - 1) < w * w + h * h,
                h == 1,
                m >= 1,
                w >= 1,
        ;
    }
}

/// Cauchy-Schwarz for a pair of integer vectors:
/// `(x*c + y*s)^2 <= (x^2 + y^2)(c^2 + s^2)`.
proof fn lemma_cauchy_schwarz(x: int, y: int, c: int, s: int)
    ensures
        (x * c + y * s) * (x * c + y * s) <= (x * x + y * y) * (c * c + s * s),
{
    let u = x * c;
    let v = y * s;
    let p = x * s;
    let w = y * c;
    // The two cross products agree, so AM-GM on (p, w) bounds 2*u*v.
    assert(u * v == p * w) by (nonlinear_arith)
        requires
            u == x * c,
            v == y * s,
            p == x * s,
            w == y * c,
    ;
    assert(2 * (p * w) <= p * p + w * w) by (nonlinear_arith);
    assert((u + v) * (u + v) == u * u + 2 * (u * v) + v * v) by (nonlinear_arith);
    assert(u * u == (x * x) * (c * c)) by (nonlinear_arith)
        requires
            u == x * c,
    ;
    assert(v * v == (y * y) * (s * s)) by (nonlinear_arith)
        requires
            v == y * s,
    ;
    assert(p * p == (x * x) * (s * s)) by (nonlinear_arith)
        requires
            p == x * s,
    ;
    assert(w * w == (y * y) * (c * c)) by (nonlinear_arith)
        requires
            w == y * c,
    ;
    assert((x * x + y * y) * (c * c + s * s) == (x * x) * (c * c) + (x * x) * (s * s) + (y * y)
        * (c * c) + (y * y) * (s * s)) by (nonlinear_arith);
}

/// Every line through a pixel of a non-degenerate image lands strictly
/// inside the accumulator's column range: for any table entry `(c, s)` on
/// or inside the circle of radius [`TRIG_SCALE`] and any pixel `(x, y)`,
/// the fixed-point distance `x*c + y*s` stays below the diagonal by a full
/// unit, and its scaled column lies in `[1, m)`.
pub proof fn lemma_scaled_rho_in_range(c: int, s: int, x: int, y: int, w: int, h: int, m: int)
    requires
        0 <= x < w,
        0 <= y < h,
        c * c + s * s <= TRIG_SCALE * TRIG_SCALE,
        is_max_rho(m, w, h),
    ensures
        -(m - 1) * TRIG_SCALE < x * c + y * s < (m - 1) * TRIG_SCALE,
        1 <= scale_rho_spec(x * c + y * s, m) < m,
{
    lemma_max_rho_margin(m, w, h);
    let rho = x * c + y * s;
    let q = TRIG_SCALE as int;
    // Cauchy-Schwarz: (x*c + y*s)^2 <= (x^2 + y^2) * (c^2 + s^2).
    lemma_cauchy_schwarz(x, y, c, s);
    assert(x * x + y * y <= (w - 1) * (w - 1) + (h - 1) * (h - 1)) by (nonlinear_arith)
        requires
            0 <= x <= w - 1,
            0 <= y <= h - 1,
    ;
    assert(rho * rho < ((m - 1) * q) * ((m - 1) * q)) by (nonlinear_arith)
        requires
            rho * rho <= (x * x + y * y) * (c * c + s * s),
            x * x + y * y <= (w - 1) * (w - 1) + (h - 1) * (h - 1),
            (w - 1) * (w - 1) + (h - 1) * (h - 1) <= (m - 1) * (m - 1) - 1,
            c * c + s * s <= q * q,
            0 <= x * x + y * y,
            q == 1048576,
            m >= 2,
    ;
    assert(-(m - 1) * q < rho < (m - 1) * q) by (nonlinear_arith)
        requires
            rho * rho < ((m - 1) * q) * ((m - 1) * q),
            (m - 1) * q > 0,
    ;
    // Now bound the scaled column: the numerator lies strictly between
    // 2q and 2*m*q, so the quotient lies in [1, m).
    let num = rho + m * q + q;
    assert(2 * q < num < m * (2 * q)) by (nonlinear_arith)
        requires
            -(m - 1) * q < rho < (m - 1) * q,
            num == rho + m * q + q,
            m >= 2,
            q == 1048576,
    ;
    lemma_div_in_range(num, 2 * q, 1, m);
}

/// For a positive divisor `d`, `lo * d <= num < hi * d` pins `num / d`
/// into `[lo, hi)`.
pub proof fn lemma_div_in_range(num: int, d: int, lo: int, hi: int)
    requires
        d > 0,
        lo * d <= num,
        num < hi * d,
    ensures
        lo <= num / d < hi,
{
    lemma_fundamental_div_mod(num, d);
    assert(lo <= num / d && num / d < hi) by (nonlinear_arith)
        requires
            num == d * (num / d) + (num % d),
            0 <= num % d < d,
            lo * d <= num,
            num < hi * d,
            d > 0,
    ;
}

/// Scales a fixed-point signed distance into its accumulator column.
pub fn scale_rho(rho_q: i64, max_rho: usize) -> (r: usize)
    requires
        max_rho <= MAX_RHO_BOUND + 1,
        -(max_rho + 1) * TRIG_SCALE <= rho_q,
        rho_q <= (max_rho + 1) * TRIG_SCALE,
    ensures
        r == scale_rho_spec(rho_q as int, max_rho as int),
    {
    let num: i64 = rho_q + (max_rho as i64) * TRIG_SCALE + TRIG_SCALE;
    let r: u64 = (num as u64) / (2 * TRIG_SCALE as u64);
    proof {
        lemma_div_in_range(num as int, 2 * TRIG_SCALE as int, 0, max_rho as int + 2);
    }
    r as usize
}

/// Recovers the signed distance (in whole pixels) that an accumulator
/// column stands for.
pub fn unscale_rho(scaled: usize, max_rho: usize) -> (r: i64)
    requires
        scaled <= 2 * MAX_RHO_BOUND,
        max_rho <= 2 * MAX_RHO_BOUND,
    ensures
        r == unscale_rho_spec(scaled as int, max_rho as int),
    {
    2 * (scaled as i64) - (max_rho as i64)
}

/// Round-trip of the storage scaling: for any signed distance within the
/// symmetric range `[-max_rho, max_rho]`, unscaling its scaled column
/// recovers it to within one whole pixel (the resolution bucket half-width
/// that rounding to a column can lose).
pub proof fn lemma_scale_round_trip(rho_q: int, max_rho: int)
    requires
        max_rho >= 0,
        -max_rho * TRIG_SCALE <= rho_q <= max_rho * TRIG_SCALE,
    ensures
        -TRIG_SCALE < unscale_rho_spec(scale_rho_spec(rho_q, max_rho), max_rho) * TRIG_SCALE
            - rho_q <= TRIG_SCALE,
{
    let q = TRIG_SCALE as int;
    let num = rho_q + max_rho * q + q;
    lemma_fundamental_div_mod(num, 2 * q);
    let quot = num / (2 * q);
    let rem = num % (2 * q);
    assert(unscale_rho_spec(quot, max_rho) * q - rho_q == q - rem) by (nonlinear_arith)
        requires
            num == (2 * q) * quot + rem,
            num == rho_q + max_rho * q + q,
            unscale_rho_spec(quot, max_rho) == 2 * quot - max_rho,
    ;
}

/// The fixed-point distance of the line with normal angle `theta` through
/// the pixel `(x, y)`: `x * cos(theta) + y * sin(theta)`, scaled by
/// [`TRIG_SCALE`].
pub open spec fn rho_q_spec(tbl: TrigTable, x: int, y: int, theta: int) -> int {
    x * tbl.cos(theta) + y * tbl.sin(theta)
}

/// The accumulator column that the pixel `(x, y)` votes into at angle
/// `theta`.
pub open spec fn cell_for(tbl: TrigTable, x: int, y: int, theta: int, max_rho: int) -> int {
    scale_rho_spec(rho_q_spec(tbl, x, y, theta), max_rho)
}

} // verus!
