use vstd::prelude::*;

verus! {

use crate::accumulator::{Accumulator, lemma_flat_index_bounds};
use crate::geometry::{ANGLE_RESOLUTION, lemma_div_in_range};
use crate::image::GreyImage;

/// The largest element among the first `k` of a vote-count sequence
/// (zero when `k` is zero).
pub open spec fn max_upto(cells: Seq<u32>, k: int) -> int
    decreases k,
{
    if k <= 0 {
        0
    } else if cells[k - 1] >= max_upto(cells, k - 1) {
        cells[k - 1] as int
    } else {
        max_upto(cells, k - 1)
    }
}

/// The prefix maximum is non-negative and dominates every element of the
/// prefix.
pub proof fn lemma_max_upto_dominates(cells: Seq<u32>, k: int, i: int)
    requires
        0 <= i < k,
    ensures
        max_upto(cells, k) >= cells[i],
        max_upto(cells, k) >= 0,
    decreases k,
{
    if i < k - 1 {
        lemma_max_upto_dominates(cells, k - 1, i);
    }
}

/// The normalized grey value of a cell: `round(v * 255 / max)`, or zero
/// for an empty accumulator (`max == 0`), the required division-by-zero
/// edge case.  Rounding is to nearest, ties up.
pub open spec fn grey_of(v: int, max: int) -> int {
    if max <= 0 {
        0
    } else {
        (510 * v + max) / (2 * max)
    }
}

/// Finds the largest vote count in the accumulator.
pub fn max_vote(acc: &Accumulator) -> (mx: u32)
    requires
        acc.wf(),
    ensures
        mx == max_upto(acc.cells@, acc.cells@.len() as int),
{
    let n = acc.cells.len();
    let mut mx: u32 = 0;
    let mut i: usize = 0;
    while i < n
        invariant
            i <= n,
            n == acc.cells@.len(),
            mx == max_upto(acc.cells@, i as int),
        decreases n - i,
    {
        let c = acc.cells[i];
        if c > mx {
            mx = c;
        }
        i += 1;
    }
    mx
}

/// Renders the accumulator as a greyscale image for inspection: one column
/// per angle, one row per scaled distance, flipped vertically so the zero
/// column renders at the bottom, each cell normalized by the accumulator's
/// maximum vote count.  An accumulator with no votes renders as all zeros.
pub fn render_houghspace(acc: &Accumulator) -> (img: GreyImage)
    requires
        acc.wf(),
    ensures
        img.wf(),
        img.width == 180,
        img.height == acc.max_rho,
        forall|t: int, r: int|
            0 <= t < 180 && 0 <= r < acc.max_rho ==> img.pixel(t, acc.max_rho - 1 - r) == grey_of(
                acc.count(t, r) as int,
                max_upto(acc.cells@, acc.cells@.len() as int),
            ),
{
    let m = acc.max_rho;
    let mx = max_vote(acc);
    let mut data: Vec<u8> = Vec::new();
    let mut row: usize = 0;
    while row < m
        invariant
            row <= m,
            m == acc.max_rho,
            acc.wf(),
            mx == max_upto(acc.cells@, acc.cells@.len() as int),
            data@.len() == row * 180,
            forall|t: int, rr: int|
                0 <= t < 180 && 0 <= rr < row ==> #[trigger] data@[rr * 180 + t] == grey_of(
                    acc.count(t, m - 1 - rr) as int,
                    max_upto(acc.cells@, acc.cells@.len() as int),
                ),
        decreases m - row,
    {
        let r = m - 1 - row;
        let mut t: usize = 0;
        while t < ANGLE_RESOLUTION
            invariant
                t <= 180,
                row < m,
                r == m - 1 - row,
                m == acc.max_rho,
                acc.wf(),
                mx == max_upto(acc.cells@, acc.cells@.len() as int),
                data@.len() == row * 180 + t,
                forall|tt: int, rr: int|
                    0 <= tt < 180 && 0 <= rr < row ==> #[trigger] data@[rr * 180 + tt] == grey_of(
                        acc.count(tt, m - 1 - rr) as int,
                        max_upto(acc.cells@, acc.cells@.len() as int),
                    ),
                forall|tt: int|
                    0 <= tt < t ==> #[trigger] data@[row * 180 + tt] == grey_of(
                        acc.count(tt, m - 1 - row) as int,
                        max_upto(acc.cells@, acc.cells@.len() as int),
                    ),
            decreases 180 - t,
        {
            let v = acc.count_at(t, r);
            proof {
                lemma_flat_index_bounds(t as int, r as int, m as int);
                lemma_max_upto_dominates(acc.cells@, acc.cells@.len() as int, t * m + r);
            }
            let g: u8 = if mx == 0 {
                0
            } else {
                proof {
                    assert(510 * (v as int) + mx <= 511 * (mx as int) && 511 * (mx as int) < 256
                        * (2 * (mx as int))) by (nonlinear_arith)
                        requires
                            0 <= v <= mx,
                            mx >= 1,
                    ;
                    lemma_div_in_range(
                        510 * (v as int) + (mx as int),
                        2 * (mx as int),
                        0,
                        256,
                    );
                }
                ((510 * (v as u64) + (mx as u64)) / (2 * (mx as u64))) as u8
            };
            data.push(g);
            proof {
                assert(row * 180 + (t + 1) == row * 180 + t + 1) by (nonlinear_arith);
            }
            t += 1;
        }
        proof {
            assert((row + 1) * 180 == row * 180 + 180) by (nonlinear_arith);
        }
        row += 1;
    }
    proof {
        assert(m * 180 == 180 * m) by (nonlinear_arith);
    }
    let img = GreyImage { width: ANGLE_RESOLUTION, height: m, data };
    proof {
        assert forall|t: int, r: int| 0 <= t < 180 && 0 <= r < m implies img.pixel(t, m - 1 - r)
            == grey_of(
            acc.count(t, r) as int,
            max_upto(acc.cells@, acc.cells@.len() as int),
        ) by {
            let rr = m - 1 - r;
            assert(img.data@[rr * 180 + t] == grey_of(
                acc.count(t, m - 1 - rr) as int,
                max_upto(acc.cells@, acc.cells@.len() as int),
            ));
        }
    }
    img
}

} // verus!
