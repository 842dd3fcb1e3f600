use vstd::prelude::*;

verus! {

use vstd::arithmetic::div_mod::{lemma_fundamental_div_mod, lemma_fundamental_div_mod_converse};
use vstd::seq_lib::lemma_seq_contains_after_push;
use crate::trig::{TrigTable, TRIG_SCALE};
use crate::geometry::{ANGLE_RESOLUTION, MAX_DIMENSION, MAX_RHO_BOUND, unscale_rho, unscale_rho_spec};
use crate::accumulator::{Accumulator, lemma_flat_index_bounds, lemma_flat_index_injective};

/// A line recovered from a strong accumulator cell, in normal form: the
/// angle of its normal in degrees (`0..180`) and its signed distance from
/// the origin in whole pixels (the inverse of the storage scaling).
#[derive(Clone, Copy, PartialEq, Eq, Structural, Debug)]
pub struct LineCandidate {
    pub theta: usize,
    pub rho: i64,
}

/// A drawable segment, both endpoints in milli-pixel coordinates (a
/// thousandth of a pixel), so that the boundary intersections of oblique
/// lines are carried exactly as integers.  Endpoints may lie outside the
/// visible image; the drawing routine is expected to clip.
#[derive(Clone, Copy, PartialEq, Eq, Structural, Debug)]
pub struct Segment {
    pub x0_milli: i64,
    pub y0_milli: i64,
    pub x1_milli: i64,
    pub y1_milli: i64,
}

impl Segment {
    pub open spec fn coords(self) -> (int, int, int, int) {
        (self.x0_milli as int, self.y0_milli as int, self.x1_milli as int, self.y1_milli as int)
    }
}

/// The ordered list of line candidates recovered from the first `k` cells
/// of the accumulator, in flat row-major order over (angle, column): every
/// cell whose count reaches the threshold contributes one candidate, with
/// the storage scaling inverted.
pub open spec fn recon_upto(cells: Seq<u32>, m: int, threshold: u32, k: int) -> Seq<
    LineCandidate,
>
    decreases k,
{
    if k <= 0 {
        Seq::empty()
    } else {
        let prev = recon_upto(cells, m, threshold, k - 1);
        if cells[k - 1] >= threshold {
            prev.push(
                LineCandidate {
                    theta: ((k - 1) / m) as usize,
                    rho: (unscale_rho_spec((k - 1) % m, m)) as i64,
                },
            )
        } else {
            prev
        }
    }
}

/// Thresholds the accumulator and recovers the line parameters of every
/// surviving cell: a cell is included exactly when its count is at least
/// `threshold` (a count equal to the threshold is included), in row-major
/// order over (angle, column).  No cell above threshold yields an empty
/// list, which is not an error.
pub fn transform_to_image_space(acc: &Accumulator, threshold: u32) -> (lines: Vec<LineCandidate>)
    requires
        acc.wf(),
    ensures
        lines@ == recon_upto(
            acc.cells@,
            acc.max_rho as int,
            threshold,
            180 * acc.max_rho,
        ),
{
    let m = acc.max_rho;
    let mut lines: Vec<LineCandidate> = Vec::new();
    let mut t: usize = 0;
    while t < ANGLE_RESOLUTION
        invariant
            t <= 180,
            m == acc.max_rho,
            acc.wf(),
            lines@ == recon_upto(acc.cells@, m as int, threshold, (t * m) as int),
        decreases 180 - t,
    {
        let mut r: usize = 0;
        while r < m
            invariant
                t < 180,
                r <= m,
                m == acc.max_rho,
                acc.wf(),
                lines@ == recon_upto(acc.cells@, m as int, threshold, (t * m + r) as int),
            decreases m - r,
        {
            proof {
                lemma_flat_index_bounds(t as int, r as int, m as int);
                lemma_fundamental_div_mod_converse(
                    (t * m + r) as int,
                    m as int,
                    t as int,
                    r as int,
                );
            }
            let v = acc.count_at(t, r);
            if v >= threshold {
                let rho = unscale_rho(r, m);
                lines.push(LineCandidate { theta: t, rho });
            }
            r += 1;
        }
        proof {
            assert((t + 1) * m == t * m + m) by (nonlinear_arith);
        }
        t += 1;
    }
    lines
}

/// The absolute value of a signed distance.
pub open spec fn abs_val(a: int) -> int {
    if a < 0 {
        -a
    } else {
        a
    }
}

/// The endpoints (in milli-pixels) of the drawable segment for the line
/// `(theta, rho)`, spanning the image horizontally:
/// - a vertical line (`theta == 0`) runs at `x == |rho|` from `y == 1` to
///   `y == width`;
/// - a horizontal line (`theta == 90`) runs at `y == |rho|` from `x == 0`
///   to `x == width`;
/// - otherwise `y` is solved from the normal form at `x == 1` and
///   `x == width`: `y == (rho - x*cos(theta)) / sin(theta)`, carried out
///   against the fixed-point table and rounded down to milli-pixels.
///
/// The three-way split exists to avoid dividing by a zero sine, not as a
/// float-precision workaround, and must be preserved as such.
pub open spec fn segment_coords(tbl: TrigTable, theta: int, rho: int, width: int) -> (
    int,
    int,
    int,
    int,
) {
    if theta == 0 {
        (abs_val(rho) * 1000, 1000, abs_val(rho) * 1000, width * 1000)
    } else if theta == 90 {
        (0, abs_val(rho) * 1000, width * 1000, abs_val(rho) * 1000)
    } else {
        let c = tbl.cos(theta);
        let s = tbl.sin(theta);
        (
            1000,
            (rho * TRIG_SCALE - c) * 1000 / s,
            width * 1000,
            (rho * TRIG_SCALE - width * c) * 1000 / s,
        )
    }
}

/// Floor division for a positive divisor (rounds toward negative
/// infinity, matching mathematical integer division).
fn floor_div(a: i64, b: i64) -> (q: i64)
    requires
        1 <= b <= 0x10_0000_0000i64,
        -0x1000_0000_0000_0000i64 <= a <= 0x1000_0000_0000_0000i64,
    ensures
        q == a as int / b as int,
{
    if a >= 0 {
        ((a as u64) / (b as u64)) as i64
    } else {
        let n: i64 = -a;
        let qq: i64 = (((n as u64) + (b as u64) - 1) / (b as u64)) as i64;
        proof {
            let ni = n as int;
            let bi = b as int;
            lemma_fundamental_div_mod(ni, bi);
            let quo = ni / bi;
            let rem = ni % bi;
            assert((quo + 1) * bi == quo * bi + bi && (-quo) * bi == -(quo * bi) && (-quo - 1)
                * bi == -(quo * bi) - bi) by (nonlinear_arith);
            if rem == 0 {
                lemma_fundamental_div_mod_converse(ni + bi - 1, bi, quo, bi - 1);
                lemma_fundamental_div_mod_converse(-ni, bi, -quo, 0);
            } else {
                lemma_fundamental_div_mod_converse(ni + bi - 1, bi, quo + 1, rem - 1);
                lemma_fundamental_div_mod_converse(-ni, bi, -quo - 1, bi - rem);
            }
        }
        -qq
    }
}

/// Converts one recovered line into its drawable segment.
pub fn line_segment_endpoints(candidate: LineCandidate, table: &TrigTable, image_width: usize) -> (
    seg: Segment)
    requires
        table.wf(),
        candidate.theta < 180,
        -(MAX_RHO_BOUND as int) <= candidate.rho <= MAX_RHO_BOUND as int,
        image_width <= MAX_DIMENSION,
    ensures
        seg.coords() == segment_coords(
            *table,
            candidate.theta as int,
            candidate.rho as int,
            image_width as int,
        ),
{
    let rho = candidate.rho;
    let a: i64 = if rho < 0 {
        -rho
    } else {
        rho
    };
    let w: i64 = image_width as i64;
    if candidate.theta == 0 {
        Segment { x0_milli: a * 1000, y0_milli: 1000, x1_milli: a * 1000, y1_milli: w * 1000 }
    } else if candidate.theta == 90 {
        Segment { x0_milli: 0, y0_milli: a * 1000, x1_milli: w * 1000, y1_milli: a * 1000 }
    } else {
        let c = table.cos_at(candidate.theta);
        let s = table.sin_at(candidate.theta);
        proof {
            assert(-0x8000_0000_0000i64 <= (w as int) * (c as int) <= 0x8000_0000_0000i64)
                by (nonlinear_arith)
                requires
                    0 <= w <= 32768,
                    -1048576 <= c <= 1048576,
            ;
        }
        let num0: i64 = rho * TRIG_SCALE - c;
        let num1: i64 = rho * TRIG_SCALE - w * c;
        let y0 = floor_div(num0 * 1000, s);
        let y1 = floor_div(num1 * 1000, s);
        Segment { x0_milli: 1000, y0_milli: y0, x1_milli: w * 1000, y1_milli: y1 }
    }
}

/// Every candidate the reconstructor yields is in range: an angle below
/// 180 and a distance within the symmetric range `[-m, m]`.
pub proof fn lemma_recon_elements(cells: Seq<u32>, m: int, threshold: u32, k: int)
    requires
        0 < m <= MAX_RHO_BOUND,
        0 <= k <= 180 * m,
    ensures
        forall|i: int|
            0 <= i < recon_upto(cells, m, threshold, k).len() ==> {
                let c = #[trigger] recon_upto(cells, m, threshold, k)[i];
                0 <= c.theta < 180 && -m <= c.rho <= m
            },
    decreases k,
{
    if k > 0 {
        lemma_recon_elements(cells, m, threshold, k - 1);
        lemma_fundamental_div_mod(k - 1, m);
        assert((k - 1) / m < 180 && 0 <= (k - 1) / m) by (nonlinear_arith)
            requires
                0 < m,
                0 <= k - 1 < 180 * m,
                k - 1 == m * ((k - 1) / m) + ((k - 1) % m),
                0 <= (k - 1) % m < m,
        ;
        let prev = recon_upto(cells, m, threshold, k - 1);
        if cells[k - 1] >= threshold {
            let c = LineCandidate {
                theta: ((k - 1) / m) as usize,
                rho: (unscale_rho_spec((k - 1) % m, m)) as i64,
            };
            assert(forall|i: int|
                0 <= i < prev.len() ==> #[trigger] prev.push(c)[i] == prev[i]);
        }
    }
}

/// The full reconstruction of spec: thresholds the accumulator and converts
/// every surviving cell into a drawable segment, in row-major cell order.
pub fn reconstruct(
    acc: &Accumulator,
    threshold: u32,
    table: &TrigTable,
    image_width: usize,
) -> (segs: Vec<Segment>)
    requires
        acc.wf(),
        table.wf(),
        image_width <= MAX_DIMENSION,
    ensures
        segs@.len() == recon_upto(acc.cells@, acc.max_rho as int, threshold, 180 * acc.max_rho).len(),
        forall|i: int|
            0 <= i < segs@.len() ==> {
                let c = recon_upto(acc.cells@, acc.max_rho as int, threshold, 180 * acc.max_rho)[i];
                (#[trigger] segs@[i]).coords() == segment_coords(
                    *table,
                    c.theta as int,
                    c.rho as int,
                    image_width as int,
                )
            },
{
    let lines = transform_to_image_space(acc, threshold);
    proof {
        if acc.max_rho > 0 {
            lemma_recon_elements(acc.cells@, acc.max_rho as int, threshold, 180 * acc.max_rho);
        }
    }
    let mut segs: Vec<Segment> = Vec::new();
    let mut i: usize = 0;
    while i < lines.len()
        invariant
            i <= lines@.len(),
            table.wf(),
            image_width <= MAX_DIMENSION,
            forall|j: int|
                0 <= j < lines@.len() ==> {
                    let c = #[trigger] lines@[j];
                    0 <= c.theta < 180 && -(MAX_RHO_BOUND as int) <= c.rho <= MAX_RHO_BOUND as int
                },
            segs@.len() == i,
            forall|j: int|
                0 <= j < i ==> {
                    let c = lines@[j];
                    (#[trigger] segs@[j]).coords() == segment_coords(
                        *table,
                        c.theta as int,
                        c.rho as int,
                        image_width as int,
                    )
                },
        decreases lines@.len() - i,
    {
        let c = lines[i];
        let seg = line_segment_endpoints(c, table, image_width);
        segs.push(seg);
        i += 1;
    }
    segs
}

/// The threshold comparison is inclusive: a cell whose count equals the
/// threshold contributes its line candidate, and one strictly below does
/// not contribute it.
pub proof fn lemma_threshold_boundary(cells: Seq<u32>, m: int, threshold: u32, t: int, r: int)
    requires
        0 < m <= MAX_RHO_BOUND,
        0 <= t < 180,
        0 <= r < m,
        cells.len() == 180 * m,
    ensures
        cells[t * m + r] >= threshold ==> recon_upto(cells, m, threshold, 180 * m).contains(
            (LineCandidate { theta: t as usize, rho: (unscale_rho_spec(r, m)) as i64 }),
        ),
        cells[t * m + r] < threshold ==> !recon_upto(cells, m, threshold, 180 * m).contains(
            (LineCandidate { theta: t as usize, rho: (unscale_rho_spec(r, m)) as i64 }),
        ),
{
    lemma_flat_index_bounds(t, r, m);
    lemma_recon_membership(cells, m, threshold, t, r, 180 * m);
}

/// Membership in the reconstructed prefix of length `k` is equivalent to
/// the cell lying in the prefix with a count at or above the threshold.
proof fn lemma_recon_membership(cells: Seq<u32>, m: int, threshold: u32, t: int, r: int, k: int)
    requires
        0 < m <= MAX_RHO_BOUND,
        0 <= t < 180,
        0 <= r < m,
        0 <= k <= 180 * m,
    ensures
        recon_upto(cells, m, threshold, k).contains(
            (LineCandidate { theta: t as usize, rho: (unscale_rho_spec(r, m)) as i64 }),
        ) <==> (t * m + r < k && cells[t * m + r] >= threshold),
    decreases k,
{
    let c = LineCandidate { theta: t as usize, rho: (unscale_rho_spec(r, m)) as i64 };
    lemma_flat_index_bounds(t, r, m);
    if k <= 0 {
        assert(!recon_upto(cells, m, threshold, k).contains(c));
    } else {
        lemma_recon_membership(cells, m, threshold, t, r, k - 1);
        let prev = recon_upto(cells, m, threshold, k - 1);
        lemma_fundamental_div_mod(k - 1, m);
        let tj = (k - 1) / m;
        let rj = (k - 1) % m;
        assert(0 <= tj < 180) by (nonlinear_arith)
            requires
                0 < m,
                0 <= k - 1 < 180 * m,
                k - 1 == m * tj + rj,
                0 <= rj < m,
        ;
        if cells[k - 1] >= threshold {
            let cj = LineCandidate { theta: tj as usize, rho: (unscale_rho_spec(rj, m)) as i64 };
            lemma_seq_contains_after_push(prev, cj, c);
            assert(m * tj + rj == tj * m + rj) by (nonlinear_arith);
            if cj == c {
                // The pushed candidate is ours exactly when it came from our cell.
                assert(tj == t && rj == r);
                assert(t * m + r == k - 1);
            } else {
                assert(!(tj == t && rj == r));
                if t * m + r == k - 1 {
                    lemma_flat_index_injective(tj, rj, t, r, m);
                }
            }
        }
    }
}

} // verus!
