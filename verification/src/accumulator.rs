use vstd::prelude::*;

verus! {

use vstd::arithmetic::div_mod::lemma_fundamental_div_mod_converse;
use crate::trig::TrigTable;
use crate::geometry::{
    ANGLE_RESOLUTION,
    MAX_DIMENSION,
    MAX_RHO_BOUND,
    is_max_rho,
    calculate_max_rho_value,
    scale_rho,
    rho_q_spec,
    cell_for,
    lemma_scaled_rho_in_range,
};
use crate::image::GreyImage;

/// The Hough-space accumulator: 180 rows (one per integer degree of the
/// normal angle) by `max_rho` columns (one per scaled signed distance),
/// stored flat and row-major.  `max_rho` is the image diagonal rounded up,
/// so the columns cover the full symmetric distance range after scaling.
pub struct Accumulator {
    pub max_rho: usize,
    pub cells: Vec<u32>,
}

impl Accumulator {
    pub open spec fn wf(self) -> bool {
        &&& self.cells@.len() == 180 * self.max_rho
        &&& self.max_rho <= MAX_RHO_BOUND
    }

    /// The vote count of the cell at angle `theta` and scaled distance `r`.
    pub open spec fn count(self, theta: int, r: int) -> u32 {
        self.cells@[theta * self.max_rho + r]
    }

    /// The number of columns (and also the largest unscaled distance).
    pub fn rho_resolution(&self) -> (m: usize)
        ensures
            m == self.max_rho,
    {
        self.max_rho
    }

    /// Reads one vote count.
    pub fn count_at(&self, theta: usize, r: usize) -> (c: u32)
        requires
            self.wf(),
            theta < 180,
            r < self.max_rho,
        ensures
            c == self.count(theta as int, r as int),
    {
        proof {
            lemma_flat_index_bounds(theta as int, r as int, self.max_rho as int);
        }
        self.cells[theta * self.max_rho + r]
    }
}

/// A pixel qualifies to vote exactly when its intensity reaches the
/// threshold.
pub open spec fn qualifies(img: GreyImage, threshold: u8, x: int, y: int) -> bool {
    img.pixel(x, y) >= threshold
}

/// The vote that the pixel with row-major index `k` contributes to the cell
/// `(theta, r)`: one when it qualifies and its line at `theta` scales to
/// column `r`, zero otherwise.
pub open spec fn vote_of(
    img: GreyImage,
    tbl: TrigTable,
    threshold: u8,
    m: int,
    theta: int,
    r: int,
    k: int,
) -> int {
    let x = k % (img.width as int);
    let y = k / (img.width as int);
    if qualifies(img, threshold, x, y) && cell_for(tbl, x, y, theta, m) == r {
        1
    } else {
        0
    }
}

/// The votes that the first `n` pixels (in row-major order) contribute to
/// the cell `(theta, r)`.
pub open spec fn votes_upto(
    img: GreyImage,
    tbl: TrigTable,
    threshold: u8,
    m: int,
    theta: int,
    r: int,
    n: int,
) -> int
    decreases n,
{
    if n <= 0 {
        0
    } else {
        votes_upto(img, tbl, threshold, m, theta, r, n - 1) + vote_of(
            img,
            tbl,
            threshold,
            m,
            theta,
            r,
            n - 1,
        )
    }
}

/// Votes are non-negative and each pixel contributes at most one vote per
/// cell, so a cell's count from `n` pixels is at most `n`.
pub proof fn lemma_votes_upto_bounds(
    img: GreyImage,
    tbl: TrigTable,
    threshold: u8,
    m: int,
    theta: int,
    r: int,
    n: int,
)
    requires
        n >= 0,
    ensures
        0 <= votes_upto(img, tbl, threshold, m, theta, r, n) <= n,
    decreases n,
{
    if n > 0 {
        lemma_votes_upto_bounds(img, tbl, threshold, m, theta, r, n - 1);
    }
}

/// Distinct in-range (angle, column) pairs map to distinct flat indices,
/// and every flat index is in bounds.
pub proof fn lemma_flat_index_bounds(theta: int, r: int, m: int)
    requires
        0 <= theta < 180,
        0 <= r < m,
    ensures
        0 <= theta * m + r < 180 * m,
{
    assert(0 <= theta * m + r < 180 * m) by (nonlinear_arith)
        requires
            0 <= theta < 180,
            0 <= r < m,
    ;
}

/// A flat index determines its (angle, column) pair.
pub proof fn lemma_flat_index_injective(t1: int, r1: int, t2: int, r2: int, m: int)
    requires
        0 <= t1 < 180,
        0 <= r1 < m,
        0 <= t2 < 180,
        0 <= r2 < m,
        t1 * m + r1 == t2 * m + r2,
    ensures
        t1 == t2,
        r1 == r2,
{
    assert(t1 == t2 && r1 == r2) by (nonlinear_arith)
        requires
            0 <= t1 < 180,
            0 <= r1 < m,
            0 <= t2 < 180,
            0 <= r2 < m,
            t1 * m + r1 == t2 * m + r2,
    ;
}

/// Enumerates the parametric family of lines through the point `(x, y)`:
/// for every candidate angle `theta` in `0..180` degrees, the pair of
/// `theta` and the fixed-point signed distance of the line through the
/// point whose normal has that angle.
pub fn create_lines(x: usize, y: usize, table: &TrigTable) -> (lines: Vec<(usize, i64)>)
    requires
        table.wf(),
        x <= MAX_DIMENSION,
        y <= MAX_DIMENSION,
    ensures
        lines@.len() == 180,
        forall|i: int|
            0 <= i < 180 ==> #[trigger] lines@[i] == (
                i as usize,
                rho_q_spec(*table, x as int, y as int, i) as i64,
            ),
{
    let mut lines: Vec<(usize, i64)> = Vec::new();
    let mut t: usize = 0;
    while t < ANGLE_RESOLUTION
        invariant
            t <= 180,
            table.wf(),
            x <= MAX_DIMENSION,
            y <= MAX_DIMENSION,
            lines@.len() == t,
            forall|i: int|
                0 <= i < t ==> #[trigger] lines@[i] == (
                    i as usize,
                    rho_q_spec(*table, x as int, y as int, i) as i64,
                ),
        decreases 180 - t,
    {
        let c = table.cos_at(t);
        let s = table.sin_at(t);
        proof {
            assert(-0x4000_0000_0000i64 <= (x as int) * (c as int) <= 0x4000_0000_0000i64
                && -0x4000_0000_0000i64 <= (y as int) * (s as int) <= 0x4000_0000_0000i64)
                by (nonlinear_arith)
                requires
                    0 <= x <= 32768,
                    0 <= y <= 32768,
                    -1048576 <= c <= 1048576,
                    -1048576 <= s <= 1048576,
            ;
        }
        let rho_q: i64 = (x as i64) * c + (y as i64) * s;
        lines.push((t, rho_q));
        t += 1;
    }
    lines
}

/// What [`hough_transform`] promises: the accumulator's rho resolution is
/// the rounded-up image diagonal (zero for a zero-area image), and every
/// cell holds exactly the votes that the image's qualifying pixels cast
/// into it.
pub open spec fn build_post(
    acc: Accumulator,
    img: GreyImage,
    tbl: TrigTable,
    threshold: u8,
) -> bool {
    &&& acc.wf()
    &&& if img.width == 0 || img.height == 0 {
        acc.max_rho == 0
    } else {
        is_max_rho(acc.max_rho as int, img.width as int, img.height as int)
    }
    &&& forall|t: int, r: int|
        0 <= t < 180 && 0 <= r < acc.max_rho ==> acc.count(t, r) == votes_upto(
            img,
            tbl,
            threshold,
            acc.max_rho as int,
            t,
            r,
            img.width * img.height,
        )
}

/// Builds the Hough-space accumulator for an image: every pixel whose
/// intensity reaches `threshold` casts one vote per candidate angle, into
/// the column its scaled line distance falls in.  A zero-area image yields
/// a zero-sized accumulator.
#[verifier::loop_isolation(false)]
pub fn hough_transform(image: &GreyImage, threshold: u8, table: &TrigTable) -> (acc: Accumulator)
    requires
        image.wf(),
        image.width <= MAX_DIMENSION,
        image.height <= MAX_DIMENSION,
        table.wf(),
    ensures
        build_post(acc, *image, *table, threshold),
{
    let w = image.width();
    let h = image.height();
    let m: usize = if w == 0 || h == 0 {
        0
    } else {
        calculate_max_rho_value(w, h)
    };
    let size: usize = ANGLE_RESOLUTION * m;
    let mut cells: Vec<u32> = Vec::new();
    while cells.len() < size
        invariant
            cells@.len() <= size,
            forall|i: int| 0 <= i < cells@.len() ==> cells@[i] == 0,
        decreases size - cells@.len(),
    {
        cells.push(0);
    }
    if w == 0 || h == 0 {
        return Accumulator { max_rho: m, cells };
    }
    proof {
        assert((w as int) * (h as int) <= 0x4000_0000) by (nonlinear_arith)
            requires
                w <= 32768,
                h <= 32768,
        ;
        assert forall|t: int, r: int| 0 <= t < 180 && 0 <= r < m implies #[trigger] cells@[t * m
            + r] == votes_upto(*image, *table, threshold, m as int, t, r, 0) by {
            lemma_flat_index_bounds(t, r, m as int);
        }
    }
    let mut y: usize = 0;
    while y < h
        invariant
            y <= h,
            cells@.len() == 180 * m,
            forall|t: int, r: int|
                0 <= t < 180 && 0 <= r < m ==> #[trigger] cells@[t * m + r] == votes_upto(
                    *image,
                    *table,
                    threshold,
                    m as int,
                    t,
                    r,
                    y * w,
                ),
        decreases h - y,
    {
        proof {
            assert(y * w + 0 <= w * h) by (nonlinear_arith)
                requires
                    0 <= y < h,
                    w >= 0,
            ;
        }
        let mut x: usize = 0;
        while x < w
            invariant
                x <= w,
                y < h,
                y * w + x <= w * h,
                cells@.len() == 180 * m,
                forall|t: int, r: int|
                    0 <= t < 180 && 0 <= r < m ==> #[trigger] cells@[t * m + r] == votes_upto(
                        *image,
                        *table,
                        threshold,
                        m as int,
                        t,
                        r,
                        y * w + x,
                    ),
            decreases w - x,
        {
            proof {
                assert(y * w + x < w * h && (y + 1) * w == y * w + w) by (nonlinear_arith)
                    requires
                        0 <= x < w,
                        0 <= y < h,
                ;
            }
            if image.get(x, y) >= threshold {
                let mut t: usize = 0;
                while t < ANGLE_RESOLUTION
                    invariant
                        t <= 180,
                        cells@.len() == 180 * m,
                        forall|tt: int, r: int|
                            0 <= tt < 180 && 0 <= r < m ==> #[trigger] cells@[tt * m + r] == votes_upto(
                                *image,
                                *table,
                                threshold,
                                m as int,
                                tt,
                                r,
                                y * w + x,
                            ) + (if tt < t && cell_for(
                                *table,
                                x as int,
                                y as int,
                                tt,
                                m as int,
                            ) == r {
                                1int
                            } else {
                                0int
                            }),
                    decreases 180 - t,
                {
                    let c = table.cos_at(t);
                    let s = table.sin_at(t);
                    proof {
                        assert(-0x4000_0000_0000i64 <= (x as int) * (c as int) <= 0x4000_0000_0000i64
                            && -0x4000_0000_0000i64 <= (y as int) * (s as int)
                            <= 0x4000_0000_0000i64) by (nonlinear_arith)
                            requires
                                0 <= x <= 32768,
                                0 <= y <= 32768,
                                -1048576 <= c <= 1048576,
                                -1048576 <= s <= 1048576,
                        ;
                        lemma_scaled_rho_in_range(
                            c as int,
                            s as int,
                            x as int,
                            y as int,
                            w as int,
                            h as int,
                            m as int,
                        );
                        assert(-(m - 1) * 1048576 >= -(m + 1) * 1048576int && (m - 1) * 1048576
                            <= (m + 1) * 1048576int) by (nonlinear_arith)
                            requires
                                m >= 2,
                        ;
                    }
                    let rho_q: i64 = (x as i64) * c + (y as i64) * s;
                    let sc = scale_rho(rho_q, m);
                    proof {
                        lemma_flat_index_bounds(t as int, sc as int, m as int);
                    }
                    let idx: usize = t * m + sc;
                    let cur = cells[idx];
                    proof {
                        lemma_votes_upto_bounds(
                            *image,
                            *table,
                            threshold,
                            m as int,
                            t as int,
                            sc as int,
                            y * w + x,
                        );
                    }
                    cells[idx] = cur + 1;
                    proof {
                        let n = y * w + x;
                        assert forall|tt: int, r: int|
                            0 <= tt < 180 && 0 <= r < m implies cells@[tt * m + r] == votes_upto(
                            *image,
                            *table,
                            threshold,
                            m as int,
                            tt,
                            r,
                            n as int,
                        ) + (if tt < t + 1 && cell_for(*table, x as int, y as int, tt, m as int)
                            == r {
                            1int
                        } else {
                            0int
                        }) by {
                            lemma_flat_index_bounds(tt, r, m as int);
                            if tt * m + r == t * m + sc {
                                lemma_flat_index_injective(tt, r, t as int, sc as int, m as int);
                            }
                        }
                    }
                    t += 1;
                }
                proof {
                    let n = y * w + x;
                    lemma_fundamental_div_mod_converse(n as int, w as int, y as int, x as int);
                    assert(forall|tt: int, r: int|
                        0 <= tt < 180 && 0 <= r < m ==> votes_upto(
                            *image,
                            *table,
                            threshold,
                            m as int,
                            tt,
                            r,
                            n + 1,
                        ) == votes_upto(*image, *table, threshold, m as int, tt, r, n as int)
                            + vote_of(*image, *table, threshold, m as int, tt, r, n as int));
                }
            } else {
                proof {
                    let n = y * w + x;
                    lemma_fundamental_div_mod_converse(n as int, w as int, y as int, x as int);
                    assert(forall|tt: int, r: int|
                        0 <= tt < 180 && 0 <= r < m ==> votes_upto(
                            *image,
                            *table,
                            threshold,
                            m as int,
                            tt,
                            r,
                            n + 1,
                        ) == votes_upto(*image, *table, threshold, m as int, tt, r, n as int));
                }
            }
            x += 1;
        }
        proof {
            assert((y + 1) * w == y * w + w) by (nonlinear_arith);
        }
        y += 1;
    }
    proof {
        assert(h * w == w * h) by (nonlinear_arith);
    }
    Accumulator { max_rho: m, cells }
}

} // verus!
