use vstd::prelude::*;

verus! {

use vstd::arithmetic::div_mod::lemma_fundamental_div_mod;
use crate::trig::TrigTable;
use crate::geometry::{is_max_rho, cell_for, lemma_max_rho_unique, lemma_scaled_rho_in_range};
use crate::image::GreyImage;
use crate::accumulator::{Accumulator, build_post, qualifies, votes_upto};
use crate::reconstruct::recon_upto;

/// The sum of the first `k` vote counts of the flat accumulator.
pub open spec fn cells_total(cells: Seq<u32>, k: int) -> int
    decreases k,
{
    if k <= 0 {
        0
    } else {
        cells_total(cells, k - 1) + cells[k - 1]
    }
}

/// How many of the first `n` pixels (in row-major order) qualify to vote.
pub open spec fn qualifying_upto(img: GreyImage, threshold: u8, n: int) -> int
    decreases n,
{
    if n <= 0 {
        0
    } else {
        qualifying_upto(img, threshold, n - 1) + (if qualifies(
            img,
            threshold,
            (n - 1) % (img.width as int),
            (n - 1) / (img.width as int),
        ) {
            1int
        } else {
            0int
        })
    }
}

/// Sums the accumulated votes.
pub fn total_votes(acc: &Accumulator) -> (total: u64)
    requires
        acc.wf(),
    ensures
        total == cells_total(acc.cells@, acc.cells@.len() as int),
{
    let n = acc.cells.len();
    let mut total: u64 = 0;
    let mut i: usize = 0;
    while i < n
        invariant
            i <= n,
            n == acc.cells@.len(),
            n <= 0x7FFF_FFFF,
            total == cells_total(acc.cells@, i as int),
            total <= (i as int) * 0x1_0000_0000,
        decreases n - i,
    {
        proof {
            assert((i as int + 1) * 0x1_0000_0000 == (i as int) * 0x1_0000_0000 + 0x1_0000_0000
                && (n as int) * 0x1_0000_0000 <= 0x7FFF_FFFF_0000_0000) by (nonlinear_arith)
                requires
                    0 <= i < n <= 0x7FFF_FFFFint,
            ;
        }
        total = total + (acc.cells[i] as u64);
        i += 1;
    }
    total
}

/// Determinism of the pipeline: the accumulator's contents are a function
/// of the image, the table and the intensity threshold alone, and the
/// reconstructed line list is a function of the accumulator and the vote
/// threshold alone, so two builds over the same inputs agree cell for cell
/// and line for line.
pub proof fn lemma_pipeline_deterministic(
    a1: Accumulator,
    a2: Accumulator,
    img: GreyImage,
    tbl: TrigTable,
    threshold: u8,
    vote_threshold: u32,
)
    requires
        build_post(a1, img, tbl, threshold),
        build_post(a2, img, tbl, threshold),
    ensures
        a1.max_rho == a2.max_rho,
        a1.cells@ == a2.cells@,
        recon_upto(a1.cells@, a1.max_rho as int, vote_threshold, 180 * a1.max_rho) == recon_upto(
            a2.cells@,
            a2.max_rho as int,
            vote_threshold,
            180 * a2.max_rho,
        ),
{
    if img.width == 0 || img.height == 0 {
        assert(a1.max_rho == 0 && a2.max_rho == 0);
    } else {
        lemma_max_rho_unique(
            a1.max_rho as int,
            a2.max_rho as int,
            img.width as int,
            img.height as int,
        );
    }
    let m = a1.max_rho as int;
    assert forall|i: int| 0 <= i < a1.cells@.len() implies a1.cells@[i] == a2.cells@[i] by {
        lemma_fundamental_div_mod(i, m);
        let t = i / m;
        let r = i % m;
        assert(0 <= t < 180 && 0 <= r < m && t * m + r == i) by (nonlinear_arith)
            requires
                0 < m,
                0 <= i < 180 * m,
                i == m * t + r,
                0 <= r < m,
        ;
        assert(a1.count(t, r) == votes_upto(
            img,
            tbl,
            threshold,
            m,
            t,
            r,
            img.width * img.height,
        ));
        assert(a2.count(t, r) == votes_upto(
            img,
            tbl,
            threshold,
            m,
            t,
            r,
            img.width * img.height,
        ));
    }
    assert(a1.cells@ =~= a2.cells@);
}

/// The votes that the first `n` pixels cast into row `t`'s columns
/// `0..r_hi`.
pub open spec fn row_total(
    img: GreyImage,
    tbl: TrigTable,
    threshold: u8,
    m: int,
    t: int,
    r_hi: int,
    n: int,
) -> int
    decreases r_hi,
{
    if r_hi <= 0 {
        0
    } else {
        row_total(img, tbl, threshold, m, t, r_hi - 1, n) + votes_upto(
            img,
            tbl,
            threshold,
            m,
            t,
            r_hi - 1,
            n,
        )
    }
}

/// The votes that the first `n` pixels cast into rows `0..t_hi`.
pub open spec fn grid_total(
    img: GreyImage,
    tbl: TrigTable,
    threshold: u8,
    m: int,
    t_hi: int,
    n: int,
) -> int
    decreases t_hi,
{
    if t_hi <= 0 {
        0
    } else {
        grid_total(img, tbl, threshold, m, t_hi - 1, n) + row_total(
            img,
            tbl,
            threshold,
            m,
            t_hi - 1,
            m,
            n,
        )
    }
}

/// With no pixels there are no votes in a row.
proof fn lemma_row_total_zero(
    img: GreyImage,
    tbl: TrigTable,
    threshold: u8,
    m: int,
    t: int,
    r_hi: int,
)
    requires
        r_hi >= 0,
    ensures
        row_total(img, tbl, threshold, m, t, r_hi, 0) == 0,
    decreases r_hi,
{
    if r_hi > 0 {
        lemma_row_total_zero(img, tbl, threshold, m, t, r_hi - 1);
    }
}

/// With no pixels there are no votes in the grid.
proof fn lemma_grid_total_zero(img: GreyImage, tbl: TrigTable, threshold: u8, m: int, t_hi: int)
    requires
        t_hi >= 0,
        m >= 0,
    ensures
        grid_total(img, tbl, threshold, m, t_hi, 0) == 0,
    decreases t_hi,
{
    if t_hi > 0 {
        lemma_grid_total_zero(img, tbl, threshold, m, t_hi - 1);
        lemma_row_total_zero(img, tbl, threshold, m, t_hi - 1, m);
    }
}

/// Adding one pixel changes a row's total by one exactly when the pixel
/// qualifies and its vote lands in a column below `r_hi`.
proof fn lemma_row_total_step(
    img: GreyImage,
    tbl: TrigTable,
    threshold: u8,
    m: int,
    t: int,
    r_hi: int,
    n: int,
)
    requires
        r_hi >= 0,
        n >= 0,
    ensures
        row_total(img, tbl, threshold, m, t, r_hi, n + 1) == row_total(
            img,
            tbl,
            threshold,
            m,
            t,
            r_hi,
            n,
        ) + (if qualifies(
            img,
            threshold,
            n % (img.width as int),
            n / (img.width as int),
        ) && 0 <= cell_for(
            tbl,
            n % (img.width as int),
            n / (img.width as int),
            t,
            m,
        ) < r_hi {
            1int
        } else {
            0int
        }),
    decreases r_hi,
{
    if r_hi > 0 {
        lemma_row_total_step(img, tbl, threshold, m, t, r_hi - 1, n);
    }
}

/// Adding one qualifying pixel adds exactly one vote per row, since its
/// vote at every angle lands inside the column range.
proof fn lemma_grid_total_step(
    img: GreyImage,
    tbl: TrigTable,
    threshold: u8,
    m: int,
    t_hi: int,
    n: int,
)
    requires
        img.wf(),
        tbl.wf(),
        img.width >= 1,
        img.height >= 1,
        is_max_rho(m, img.width as int, img.height as int),
        0 <= t_hi <= 180,
        0 <= n < img.width * img.height,
    ensures
        grid_total(img, tbl, threshold, m, t_hi, n + 1) == grid_total(
            img,
            tbl,
            threshold,
            m,
            t_hi,
            n,
        ) + (if qualifies(img, threshold, n % (img.width as int), n / (img.width as int)) {
            t_hi
        } else {
            0int
        }),
    decreases t_hi,
{
    let w = img.width as int;
    let h = img.height as int;
    lemma_fundamental_div_mod(n, w);
    let x = n % w;
    let y = n / w;
    assert(0 <= x < w && 0 <= y < h) by (nonlinear_arith)
        requires
            0 < w,
            0 <= n < w * h,
            n == w * y + x,
            0 <= x < w,
    ;
    if t_hi > 0 {
        lemma_grid_total_step(img, tbl, threshold, m, t_hi - 1, n);
        lemma_row_total_step(img, tbl, threshold, m, t_hi - 1, m, n);
        lemma_scaled_rho_in_range(
            tbl.cos(t_hi - 1),
            tbl.sin(t_hi - 1),
            x,
            y,
            w,
            h,
            m,
        );
    }
}

/// Over the first `n` pixels, the grid as a whole holds exactly 180 votes
/// per qualifying pixel.
proof fn lemma_grid_total_pixels(
    img: GreyImage,
    tbl: TrigTable,
    threshold: u8,
    m: int,
    n: int,
)
    requires
        img.wf(),
        tbl.wf(),
        img.width >= 1,
        img.height >= 1,
        is_max_rho(m, img.width as int, img.height as int),
        0 <= n <= img.width * img.height,
    ensures
        grid_total(img, tbl, threshold, m, 180, n) == 180 * qualifying_upto(img, threshold, n),
    decreases n,
{
    if n > 0 {
        lemma_grid_total_pixels(img, tbl, threshold, m, n - 1);
        lemma_grid_total_step(img, tbl, threshold, m, 180, n - 1);
    } else {
        lemma_grid_total_zero(img, tbl, threshold, m, 180);
    }
}

/// Every pixel contributes to every angle: over the first `n` pixels, each
/// angle row of the grid holds exactly one vote per qualifying pixel.
pub proof fn lemma_row_vote_conservation(
    img: GreyImage,
    tbl: TrigTable,
    threshold: u8,
    m: int,
    t: int,
    n: int,
)
    requires
        img.wf(),
        tbl.wf(),
        img.width >= 1,
        img.height >= 1,
        is_max_rho(m, img.width as int, img.height as int),
        0 <= t < 180,
        0 <= n <= img.width * img.height,
    ensures
        row_total(img, tbl, threshold, m, t, m, n) == qualifying_upto(img, threshold, n),
    decreases n,
{
    let w = img.width as int;
    let h = img.height as int;
    if n > 0 {
        lemma_row_vote_conservation(img, tbl, threshold, m, t, n - 1);
        lemma_row_total_step(img, tbl, threshold, m, t, m, n - 1);
        lemma_fundamental_div_mod(n - 1, w);
        let x = (n - 1) % w;
        let y = (n - 1) / w;
        assert(0 <= x < w && 0 <= y < h) by (nonlinear_arith)
            requires
                0 < w,
                0 <= n - 1 < w * h,
                n - 1 == w * y + x,
                0 <= x < w,
        ;
        lemma_scaled_rho_in_range(tbl.cos(t), tbl.sin(t), x, y, w, h, m);
    } else {
        lemma_row_total_zero(img, tbl, threshold, m, t, m);
    }
}

/// The flat prefix sum of an accumulator meeting [`build_post`] agrees
/// with the nested row/grid sums.
proof fn lemma_flat_total(
    acc: Accumulator,
    img: GreyImage,
    tbl: TrigTable,
    threshold: u8,
    t: int,
    r: int,
)
    requires
        build_post(acc, img, tbl, threshold),
        0 <= t <= 180,
        0 <= r <= acc.max_rho,
        t == 180 ==> r == 0,
    ensures
        cells_total(acc.cells@, t * (acc.max_rho as int) + r) == grid_total(
            img,
            tbl,
            threshold,
            acc.max_rho as int,
            t,
            img.width * img.height,
        ) + row_total(img, tbl, threshold, acc.max_rho as int, t, r, img.width * img.height),
    decreases t, r,
{
    let m = acc.max_rho as int;
    let n = img.width * img.height;
    if r == 0 {
        if t == 0 {
            assert(cells_total(acc.cells@, 0 * m + 0) == 0);
            assert(grid_total(img, tbl, threshold, m, 0, n) == 0);
            assert(row_total(img, tbl, threshold, m, 0, 0, n) == 0);
        } else {
            lemma_flat_total(acc, img, tbl, threshold, t - 1, m);
            assert((t - 1) * m + m == t * m + 0) by (nonlinear_arith);
            assert(cells_total(acc.cells@, t * m + 0) == grid_total(
                img,
                tbl,
                threshold,
                m,
                t - 1,
                n,
            ) + row_total(img, tbl, threshold, m, t - 1, m, n));
            assert(grid_total(img, tbl, threshold, m, t, n) == grid_total(
                img,
                tbl,
                threshold,
                m,
                t - 1,
                n,
            ) + row_total(img, tbl, threshold, m, t - 1, m, n));
            assert(row_total(img, tbl, threshold, m, t, 0, n) == 0);
        }
    } else {
        lemma_flat_total(acc, img, tbl, threshold, t, r - 1);
        assert(acc.count(t, r - 1) == votes_upto(
            img,
            tbl,
            threshold,
            m,
            t,
            r - 1,
            img.width * img.height,
        ));
    }
}

/// Vote conservation: the votes summed over the whole accumulator equal
/// exactly 180 per qualifying pixel, one for each candidate angle.
pub proof fn lemma_vote_conservation(
    acc: Accumulator,
    img: GreyImage,
    tbl: TrigTable,
    threshold: u8,
)
    requires
        img.wf(),
        tbl.wf(),
        build_post(acc, img, tbl, threshold),
    ensures
        cells_total(acc.cells@, acc.cells@.len() as int) == 180 * qualifying_upto(
            img,
            threshold,
            img.width * img.height,
        ),
{
    let m = acc.max_rho as int;
    let w = img.width as int;
    let h = img.height as int;
    if img.width == 0 || img.height == 0 {
        assert(w * h == 0) by (nonlinear_arith)
            requires
                w == 0 || h == 0,
        ;
        assert(acc.cells@.len() == 0);
    } else {
        lemma_flat_total(acc, img, tbl, threshold, 180, 0);
        lemma_grid_total_pixels(img, tbl, threshold, m, w * h);
        assert(w * h >= 0) by (nonlinear_arith)
            requires
                w >= 1,
                h >= 1,
        ;
        assert(cells_total(acc.cells@, 180 * m) == cells_total(
            acc.cells@,
            acc.cells@.len() as int,
        ));
    }
}

} // verus!
