//! The box blur of the image filters: each channel averaged over a square
//! window, first along rows, then along columns.

use vstd::prelude::*;
use vstd::arithmetic::div_mod::{lemma_fundamental_div_mod, lemma_mod_pos_bound};

verus! {

/// Largest blur radius the filter settings allow.
pub const MAX_BLUR_RADIUS: u32 = 24;

/// First index of the window of radius `r` around `i`.
pub open spec fn win_lo(i: int, r: int) -> int {
    if i >= r {
        i - r
    } else {
        0
    }
}

/// Last index of the window of radius `r` around `i` in `0..n`.
pub open spec fn win_hi(i: int, r: int, n: int) -> int {
    if i + r <= n - 1 {
        i + r
    } else {
        n - 1
    }
}

/// Sum of channel `c` over columns `a..b` of row `y`.
pub open spec fn row_sum(p: Seq<[u8; 4]>, w: int, y: int, c: int, a: int, b: int) -> int
    decreases b - a,
{
    if b <= a {
        0
    } else {
        row_sum(p, w, y, c, a, b - 1) + p[y * w + b - 1][c] as int
    }
}

/// `sum / count` rounded half up.
pub open spec fn round_avg(sum: int, count: int) -> int {
    (sum + count / 2) / count
}

/// Channel `c` of pixel `(x, y)` after the row pass.
pub open spec fn hblur(p: Seq<[u8; 4]>, w: int, r: int, x: int, y: int, c: int) -> int {
    let lo = win_lo(x, r);
    let hi = win_hi(x, r, w);
    round_avg(row_sum(p, w, y, c, lo, hi + 1), hi - lo + 1)
}

/// Sum of the row-pass values of channel `c` in column `x` over rows `a..b`.
pub open spec fn col_sum(p: Seq<[u8; 4]>, w: int, r: int, x: int, c: int, a: int, b: int) -> int
    decreases b - a,
{
    if b <= a {
        0
    } else {
        col_sum(p, w, r, x, c, a, b - 1) + hblur(p, w, r, x, b - 1, c)
    }
}

/// Channel `c` of pixel `(x, y)` of the blurred image.
pub open spec fn blurred(p: Seq<[u8; 4]>, w: int, h: int, r: int, x: int, y: int, c: int) -> int {
    let lo = win_lo(y, r);
    let hi = win_hi(y, r, h);
    round_avg(col_sum(p, w, r, x, c, lo, hi + 1), hi - lo + 1)
}

proof fn lemma_row_sum_split(p: Seq<[u8; 4]>, w: int, y: int, c: int, a: int, m: int, b: int)
    requires
        a <= m <= b,
    ensures
        row_sum(p, w, y, c, a, b) == row_sum(p, w, y, c, a, m) + row_sum(p, w, y, c, m, b),
    decreases b - m,
{
    if b > m {
        lemma_row_sum_split(p, w, y, c, a, m, b - 1);
    }
}

proof fn lemma_row_sum_bound(p: Seq<[u8; 4]>, w: int, y: int, c: int, a: int, b: int)
    requires
        a <= b,
    ensures
        0 <= row_sum(p, w, y, c, a, b) <= 255 * (b - a),
    decreases b - a,
{
    if b > a {
        lemma_row_sum_bound(p, w, y, c, a, b - 1);
    }
}

proof fn lemma_round_avg_bound(sum: int, count: int)
    requires
        count >= 1,
        0 <= sum <= 255 * count,
    ensures
        0 <= round_avg(sum, count) <= 255,
{
    lemma_fundamental_div_mod(sum + count / 2, count);
    lemma_mod_pos_bound(sum + count / 2, count);
    lemma_fundamental_div_mod(count, 2);
    let q = round_avg(sum, count);
    assert(0 <= q <= 255) by (nonlinear_arith)
        requires
            sum + count / 2 == count * q + (sum + count / 2) % count,
            0 <= (sum + count / 2) % count < count,
            0 <= count / 2,
            2 * (count / 2) <= count,
            0 <= sum <= 255 * count,
            count >= 1,
    ;
}

proof fn lemma_hblur_bound(p: Seq<[u8; 4]>, w: int, r: int, x: int, y: int, c: int)
    requires
        0 <= x < w,
        r >= 0,
    ensures
        0 <= hblur(p, w, r, x, y, c) <= 255,
{
    let lo = win_lo(x, r);
    let hi = win_hi(x, r, w);
    lemma_row_sum_bound(p, w, y, c, lo, hi + 1);
    lemma_round_avg_bound(row_sum(p, w, y, c, lo, hi + 1), hi - lo + 1);
}

proof fn lemma_col_sum_bound(p: Seq<[u8; 4]>, w: int, r: int, x: int, c: int, a: int, b: int)
    requires
        0 <= x < w,
        r >= 0,
        a <= b,
    ensures
        0 <= col_sum(p, w, r, x, c, a, b) <= 255 * (b - a),
    decreases b - a,
{
    if b > a {
        lemma_col_sum_bound(p, w, r, x, c, a, b - 1);
        lemma_hblur_bound(p, w, r, x, b - 1, c);
    }
}

proof fn lemma_col_sum_drop_first(p: Seq<[u8; 4]>, w: int, r: int, x: int, c: int, a: int, b: int)
    requires
        a < b,
    ensures
        col_sum(p, w, r, x, c, a, b) == hblur(p, w, r, x, a, c) + col_sum(p, w, r, x, c, a + 1, b),
    decreases b - a,
{
    if b > a + 1 {
        lemma_col_sum_drop_first(p, w, r, x, c, a, b - 1);
        assert(col_sum(p, w, r, x, c, a + 1, b) == col_sum(p, w, r, x, c, a + 1, b - 1) + hblur(p, w, r, x, b - 1, c));
    } else {
        assert(col_sum(p, w, r, x, c, a, a) == 0);
        assert(col_sum(p, w, r, x, c, a + 1, a + 1) == 0);
    }
}

/// Row pass over one row: each channel averaged over the window of radius
/// `r` along the row.
fn blur_row(pixels: &Vec<[u8; 4]>, w: usize, h: usize, y: usize, r: usize, out: &mut Vec<[u8; 4]>)
    requires
        pixels@.len() == w * h,
        w * h <= usize::MAX,
        y < h,
        w >= 1,
        r <= 24,
        old(out)@.len() == y * w,
    ensures
        final(out)@.len() == (y + 1) * w,
        forall|i: int| 0 <= i < y * w ==> #[trigger] final(out)@[i] == old(out)@[i],
        forall|x: int, c: int|
            0 <= x < w && 0 <= c < 4 ==> #[trigger] final(out)@[y * w + x][c] == hblur(
                pixels@,
                w as int,
                r as int,
                x,
                y as int,
                c,
            ),
{
    assert(y * w + w <= w * h) by (nonlinear_arith)
        requires
            y < h,
            w >= 1,
    ;
    assert(0 <= y * w) by (nonlinear_arith);
    assert((y + 1) * w == y * w + w) by (nonlinear_arith);
    let base = y * w;
    // prefix[k][c] is the sum of channel c over the first k pixels of the row.
    let mut prefix: Vec<[u128; 4]> = Vec::new();
    prefix.push([0, 0, 0, 0]);
    let mut k: usize = 0;
    while k < w
        invariant
            pixels@.len() == w * h,
            w * h <= usize::MAX,
            base == y * w,
            base + w <= w * h,
            k <= w,
            prefix@.len() == k + 1,
            forall|j: int, c: int|
                0 <= j <= k && 0 <= c < 4 ==> #[trigger] prefix@[j][c] == row_sum(
                    pixels@,
                    w as int,
                    y as int,
                    c,
                    0,
                    j,
                ),
            forall|j: int, c: int| 0 <= j <= k && 0 <= c < 4 ==> #[trigger] prefix@[j][c] <= 255 * j,
        decreases w - k,
    {
        let px = pixels[base + k];
        let prev = prefix[k];
        let next = [
            prev[0] + px[0] as u128,
            prev[1] + px[1] as u128,
            prev[2] + px[2] as u128,
            prev[3] + px[3] as u128,
        ];
        prefix.push(next);
        k = k + 1;
        proof {
            assert forall|c: int| 0 <= c < 4 implies #[trigger] prefix@[k as int][c] == row_sum(
                pixels@,
                w as int,
                y as int,
                c,
                0,
                k as int,
            ) by {
                assert(y * w + k - 1 == base + k - 1);
            }
        }
    }
    let ghost before = out@;
    let mut x: usize = 0;
    while x < w
        invariant
            pixels@.len() == w * h,
            base == y * w,
            r <= 24,
            x <= w,
            prefix@.len() == w + 1,
            forall|j: int, c: int|
                0 <= j <= w && 0 <= c < 4 ==> #[trigger] prefix@[j][c] == row_sum(
                    pixels@,
                    w as int,
                    y as int,
                    c,
                    0,
                    j,
                ),
            out@.len() == base + x,
            forall|i: int| 0 <= i < base ==> #[trigger] out@[i] == before[i],
            forall|xx: int, c: int|
                0 <= xx < x && 0 <= c < 4 ==> #[trigger] out@[base + xx][c] == hblur(
                    pixels@,
                    w as int,
                    r as int,
                    xx,
                    y as int,
                    c,
                ),
        decreases w - x,
    {
        let lo = if x >= r { x - r } else { 0 };
        let hi = if w - 1 - x >= r { x + r } else { w - 1 };
        let count = (hi - lo + 1) as u128;
        let hi_sum = prefix[hi + 1];
        let lo_sum = prefix[lo];
        let mut avg: [u8; 4] = [0, 0, 0, 0];
        let mut c: usize = 0;
        while c < 4
            invariant
                c <= 4,
                lo == win_lo(x as int, r as int),
                hi == win_hi(x as int, r as int, w as int),
                0 <= lo <= hi < w,
                count == hi - lo + 1,
                forall|cc: int| 0 <= cc < 4 ==> #[trigger] hi_sum[cc] == row_sum(
                    pixels@,
                    w as int,
                    y as int,
                    cc,
                    0,
                    hi + 1,
                ),
                forall|cc: int| 0 <= cc < 4 ==> #[trigger] lo_sum[cc] == row_sum(
                    pixels@,
                    w as int,
                    y as int,
                    cc,
                    0,
                    lo as int,
                ),
                forall|cc: int| 0 <= cc < c ==> #[trigger] avg[cc] == hblur(
                    pixels@,
                    w as int,
                    r as int,
                    x as int,
                    y as int,
                    cc,
                ),
            decreases 4 - c,
        {
            proof {
                lemma_row_sum_split(pixels@, w as int, y as int, c as int, 0, lo as int, hi + 1);
                lemma_row_sum_bound(pixels@, w as int, y as int, c as int, lo as int, hi + 1);
                lemma_round_avg_bound(
                    row_sum(pixels@, w as int, y as int, c as int, lo as int, hi + 1),
                    count as int,
                );
            }
            let sum = hi_sum[c] - lo_sum[c];
            let v = (sum + count / 2) / count;
            avg[c] = v as u8;
            c = c + 1;
        }
        out.push(avg);
        proof {
            assert forall|xx: int, cc: int|
                0 <= xx < x + 1 && 0 <= cc < 4 implies #[trigger] out@[base + xx][cc] == hblur(
                pixels@,
                w as int,
                r as int,
                xx,
                y as int,
                cc,
            ) by {
                if xx == x {
                    assert(out@[base + xx] == avg);
                }
            }
        }
        x = x + 1;
    }
}

/// The blur stage of the image filters: the radius is capped at 24 as the
/// filter settings cap it; a zero radius or an empty image gives the pixels
/// back as they are; otherwise each channel of each pixel is the average,
/// rounded half up, over the window of that radius (cut at the image's
/// edges), taken first along the row and then, over those row averages,
/// along the column. `pixels` holds the image row by row.
pub fn box_blur(pixels: &Vec<[u8; 4]>, width: usize, height: usize, radius: u32) -> (r: Vec<[u8; 4]>)
    requires
        pixels@.len() == width * height,
    ensures
        r@.len() == pixels@.len(),
        radius == 0 || width == 0 || height == 0 ==> r@ == pixels@,
        radius > 0 && width > 0 && height > 0 ==> forall|x: int, y: int, c: int|
            0 <= x < width && 0 <= y < height && 0 <= c < 4 ==> #[trigger] r@[y * width + x][c] == blurred(
                pixels@,
                width as int,
                height as int,
                if radius > MAX_BLUR_RADIUS { MAX_BLUR_RADIUS as int } else { radius as int },
                x,
                y,
                c,
            ),
{
    let n = pixels.len();
    if radius == 0 || width == 0 || height == 0 {
        let mut copy: Vec<[u8; 4]> = Vec::new();
        let mut i: usize = 0;
        while i < n
            invariant
                n == pixels@.len(),
                i <= n,
                copy@ == pixels@.take(i as int),
            decreases n - i,
        {
            copy.push(pixels[i]);
            i = i + 1;
            assert(copy@ =~= pixels@.take(i as int));
        }
        assert(pixels@.take(n as int) =~= pixels@);
        return copy;
    }
    let w = width;
    let h = height;
    let rad: usize = if radius > MAX_BLUR_RADIUS { MAX_BLUR_RADIUS as usize } else { radius as usize };
    // Row pass.
    let mut horiz: Vec<[u8; 4]> = Vec::new();
    let mut y: usize = 0;
    while y < h
        invariant
            pixels@.len() == w * h,
            w * h <= usize::MAX,
            w >= 1,
            rad <= 24,
            y <= h,
            horiz@.len() == y * w,
            forall|yy: int, x: int, c: int|
                0 <= yy < y && 0 <= x < w && 0 <= c < 4 ==> #[trigger] horiz@[yy * w + x][c] == hblur(
                    pixels@,
                    w as int,
                    rad as int,
                    x,
                    yy,
                    c,
                ),
        decreases h - y,
    {
        let ghost before = horiz@;
        blur_row(pixels, w, h, y, rad, &mut horiz);
        proof {
            assert forall|yy: int, x: int, c: int|
                0 <= yy < y + 1 && 0 <= x < w && 0 <= c < 4 implies #[trigger] horiz@[yy * w + x][c] == hblur(
                pixels@,
                w as int,
                rad as int,
                x,
                yy,
                c,
            ) by {
                if yy < y {
                    assert(yy * w + x < y * w) by (nonlinear_arith)
                        requires
                            yy < y,
                            0 <= x < w,
                            yy >= 0,
                    ;
                    assert(horiz@[yy * w + x] == before[yy * w + x]);
                }
            }
        }
        y = y + 1;
    }
    // Column pass with a running window of row-pass values per column.
    assert(h * w == w * h) by (nonlinear_arith);
    let mut sums: Vec<[u64; 4]> = Vec::new();
    let first_hi = if rad <= h - 1 { rad } else { h - 1 };
    let mut x: usize = 0;
    while x < w
        invariant
            horiz@.len() == w * h,
            w * h <= usize::MAX,
            w >= 1,
            h >= 1,
            rad <= 24,
            first_hi == win_hi(0, rad as int, h as int),
            x <= w,
            sums@.len() == x,
            forall|yy: int, xx: int, c: int|
                0 <= yy < h && 0 <= xx < w && 0 <= c < 4 ==> #[trigger] horiz@[yy * w + xx][c] == hblur(
                    pixels@,
                    w as int,
                    rad as int,
                    xx,
                    yy,
                    c,
                ),
            forall|xx: int, c: int|
                0 <= xx < x && 0 <= c < 4 ==> #[trigger] sums@[xx][c] == col_sum(
                    pixels@,
                    w as int,
                    rad as int,
                    xx,
                    c,
                    0,
                    first_hi + 1,
                ),
        decreases w - x,
    {
        let mut s: [u64; 4] = [0, 0, 0, 0];
        let mut yy: usize = 0;
        while yy <= first_hi
            invariant
                horiz@.len() == w * h,
                w * h <= usize::MAX,
                x < w,
                first_hi < h,
                first_hi <= 24,
                yy <= first_hi + 1,
                rad <= 24,
                forall|y2: int, xx: int, c: int|
                    0 <= y2 < h && 0 <= xx < w && 0 <= c < 4 ==> #[trigger] horiz@[y2 * w + xx][c] == hblur(
                        pixels@,
                        w as int,
                        rad as int,
                        xx,
                        y2,
                        c,
                    ),
                forall|c: int| 0 <= c < 4 ==> #[trigger] s[c] == col_sum(
                    pixels@,
                    w as int,
                    rad as int,
                    x as int,
                    c,
                    0,
                    yy as int,
                ),
                forall|c: int| 0 <= c < 4 ==> #[trigger] s[c] <= 255 * yy,
            decreases first_hi + 1 - yy,
        {
            assert(yy * w + x < w * h) by (nonlinear_arith)
                requires
                    yy < h,
                    x < w,
            ;
            let px = horiz[yy * w + x];
            proof {
                assert forall|c: int| 0 <= c < 4 implies #[trigger] px[c] as int == hblur(
                    pixels@,
                    w as int,
                    rad as int,
                    x as int,
                    yy as int,
                    c,
                ) by {}
            }
            s = [s[0] + px[0] as u64, s[1] + px[1] as u64, s[2] + px[2] as u64, s[3] + px[3] as u64];
            yy = yy + 1;
        }
        sums.push(s);
        x = x + 1;
    }
    let mut out: Vec<[u8; 4]> = Vec::new();
    let mut y: usize = 0;
    while y < h
        invariant
            horiz@.len() == w * h,
            w * h <= usize::MAX,
            w >= 1,
            h >= 1,
            rad <= 24,
            y <= h,
            sums@.len() == w,
            out@.len() == y * w,
            forall|yy: int, xx: int, c: int|
                0 <= yy < h && 0 <= xx < w && 0 <= c < 4 ==> #[trigger] horiz@[yy * w + xx][c] == hblur(
                    pixels@,
                    w as int,
                    rad as int,
                    xx,
                    yy,
                    c,
                ),
            y < h ==> forall|xx: int, c: int|
                0 <= xx < w && 0 <= c < 4 ==> #[trigger] sums@[xx][c] == col_sum(
                    pixels@,
                    w as int,
                    rad as int,
                    xx,
                    c,
                    win_lo(y as int, rad as int),
                    win_hi(y as int, rad as int, h as int) + 1,
                ),
            forall|yy: int, xx: int, c: int|
                0 <= yy < y && 0 <= xx < w && 0 <= c < 4 ==> #[trigger] out@[yy * w + xx][c] == blurred(
                    pixels@,
                    w as int,
                    h as int,
                    rad as int,
                    xx,
                    yy,
                    c,
                ),
        decreases h - y,
    {
        let lo = if y >= rad { y - rad } else { 0 };
        let hi = if h - 1 - y >= rad { y + rad } else { h - 1 };
        let count = (hi - lo + 1) as u64;
        let ghost before = out@;
        let mut xx: usize = 0;
        while xx < w
            invariant
                w >= 1,
                h >= 1,
                rad <= 24,
                y < h,
                lo == win_lo(y as int, rad as int),
                hi == win_hi(y as int, rad as int, h as int),
                count == hi - lo + 1,
                sums@.len() == w,
                forall|x2: int, c: int|
                    0 <= x2 < w && 0 <= c < 4 ==> #[trigger] sums@[x2][c] == col_sum(
                        pixels@,
                        w as int,
                        rad as int,
                        x2,
                        c,
                        lo as int,
                        hi + 1,
                    ),
                xx <= w,
                out@.len() == y * w + xx,
                forall|i: int| 0 <= i < y * w ==> #[trigger] out@[i] == before[i],
                forall|x2: int, c: int|
                    0 <= x2 < xx && 0 <= c < 4 ==> #[trigger] out@[y * w + x2][c] == blurred(
                        pixels@,
                        w as int,
                        h as int,
                        rad as int,
                        x2,
                        y as int,
                        c,
                    ),
            decreases w - xx,
        {
            let s = sums[xx];
            let mut avg: [u8; 4] = [0, 0, 0, 0];
            let mut c: usize = 0;
            while c < 4
                invariant
                    c <= 4,
                    xx < w,
                    rad <= 24,
                    lo == win_lo(y as int, rad as int),
                    hi == win_hi(y as int, rad as int, h as int),
                    lo <= hi,
                    count == hi - lo + 1,
                    forall|cc: int| 0 <= cc < 4 ==> #[trigger] s[cc] == col_sum(
                        pixels@,
                        w as int,
                        rad as int,
                        xx as int,
                        cc,
                        lo as int,
                        hi + 1,
                    ),
                    forall|cc: int| 0 <= cc < c ==> #[trigger] avg[cc] == blurred(
                        pixels@,
                        w as int,
                        h as int,
                        rad as int,
                        xx as int,
                        y as int,
                        cc,
                    ),
                decreases 4 - c,
            {
                proof {
                    lemma_col_sum_bound(pixels@, w as int, rad as int, xx as int, c as int, lo as int, hi + 1);
                    lemma_round_avg_bound(s[c as int] as int, count as int);
                }
                let v = (s[c] + count / 2) / count;
                avg[c] = v as u8;
                c = c + 1;
            }
            out.push(avg);
            proof {
                assert forall|x2: int, cc: int|
                    0 <= x2 < xx + 1 && 0 <= cc < 4 implies #[trigger] out@[y * w + x2][cc] == blurred(
                    pixels@,
                    w as int,
                    h as int,
                    rad as int,
                    x2,
                    y as int,
                    cc,
                ) by {
                    if x2 == xx {
                        assert(out@[y * w + x2] == avg);
                    }
                }
            }
            xx = xx + 1;
        }
        proof {
            assert(out@.len() == (y + 1) * w) by (nonlinear_arith)
                requires
                    out@.len() == y * w + w,
            ;
            assert forall|yy: int, x2: int, c: int|
                0 <= yy < y + 1 && 0 <= x2 < w && 0 <= c < 4 implies #[trigger] out@[yy * w + x2][c] == blurred(
                pixels@,
                w as int,
                h as int,
                rad as int,
                x2,
                yy,
                c,
            ) by {
                if yy < y {
                    assert(yy * w + x2 < y * w) by (nonlinear_arith)
                        requires
                            yy < y,
                            0 <= x2 < w,
                            yy >= 0,
                    ;
                }
            }
        }
        // Slide every column's window from row y to row y + 1.
        if y + 1 < h {
            let leave = y >= rad;
            let enter = h - 1 - y > rad;
            let mut x2: usize = 0;
            let ghost old_sums = sums@;
            while x2 < w
                invariant
                    horiz@.len() == w * h,
                    w * h <= usize::MAX,
                    w >= 1,
                    h >= 1,
                    rad <= 24,
                    y + 1 < h,
                    leave == (y >= rad),
                    enter == (y + rad + 1 < h),
                    lo == win_lo(y as int, rad as int),
                    hi == win_hi(y as int, rad as int, h as int),
                    x2 <= w,
                    sums@.len() == w,
                    forall|yy: int, xx: int, c: int|
                        0 <= yy < h && 0 <= xx < w && 0 <= c < 4 ==> #[trigger] horiz@[yy * w + xx][c]
                            == hblur(pixels@, w as int, rad as int, xx, yy, c),
                    forall|xx: int| x2 <= xx < w ==> #[trigger] sums@[xx] == old_sums[xx],
                    forall|xx: int, c: int|
                        x2 <= xx < w && 0 <= c < 4 ==> #[trigger] old_sums[xx][c] == col_sum(
                            pixels@,
                            w as int,
                            rad as int,
                            xx,
                            c,
                            lo as int,
                            hi + 1,
                        ),
                    forall|xx: int, c: int|
                        0 <= xx < x2 && 0 <= c < 4 ==> #[trigger] sums@[xx][c] == col_sum(
                            pixels@,
                            w as int,
                            rad as int,
                            xx,
                            c,
                            win_lo(y + 1, rad as int),
                            win_hi(y + 1, rad as int, h as int) + 1,
                        ),
                decreases w - x2,
            {
                let mut s = sums[x2];
                proof {
                    assert forall|c: int| 0 <= c < 4 implies #[trigger] s[c] == col_sum(
                        pixels@,
                        w as int,
                        rad as int,
                        x2 as int,
                        c,
                        lo as int,
                        hi + 1,
                    ) by {}
                }
                if leave {
                    assert((y - rad) * w + x2 < w * h) by (nonlinear_arith)
                        requires
                            y - rad < h,
                            y >= rad,
                            x2 < w,
                    ;
                    let px = horiz[(y - rad) * w + x2];
                    proof {
                        assert forall|c: int| 0 <= c < 4 implies s[c] - px[c] == col_sum(
                            pixels@,
                            w as int,
                            rad as int,
                            x2 as int,
                            c,
                            lo + 1,
                            hi + 1,
                        ) && s[c] >= px[c] by {
                            lemma_col_sum_drop_first(pixels@, w as int, rad as int, x2 as int, c, lo as int, hi + 1);
                            lemma_col_sum_bound(pixels@, w as int, rad as int, x2 as int, c, lo + 1, hi + 1);
                        }
                    }
                    s = [s[0] - px[0] as u64, s[1] - px[1] as u64, s[2] - px[2] as u64, s[3] - px[3] as u64];
                }
                proof {
                    assert forall|c: int| 0 <= c < 4 implies #[trigger] s[c] == col_sum(
                        pixels@,
                        w as int,
                        rad as int,
                        x2 as int,
                        c,
                        win_lo(y + 1, rad as int),
                        hi + 1,
                    ) && s[c] <= 255 * 49 by {
                        assert(hi + 1 - win_lo(y + 1, rad as int) <= 49);
                        lemma_col_sum_bound(
                            pixels@,
                            w as int,
                            rad as int,
                            x2 as int,
                            c,
                            win_lo(y + 1, rad as int),
                            hi + 1,
                        );
                    }
                }
                if enter {
                    assert((y + rad + 1) * w + x2 < w * h) by (nonlinear_arith)
                        requires
                            y + rad + 1 < h,
                            x2 < w,
                    ;
                    let px = horiz[(y + rad + 1) * w + x2];
                    s = [s[0] + px[0] as u64, s[1] + px[1] as u64, s[2] + px[2] as u64, s[3] + px[3] as u64];
                }
                sums.set(x2, s);
                x2 = x2 + 1;
            }
        }
        y = y + 1;
    }
    out
}

/// Every pixel is fully opaque.
pub open spec fn all_opaque(p: Seq<[u8; 4]>) -> bool {
    forall|i: int| 0 <= i < p.len() ==> #[trigger] p[i][3] == 255
}

/// Whether every pixel has full alpha.
pub fn is_fully_opaque(pixels: &Vec<[u8; 4]>) -> (r: bool)
    ensures
        r == all_opaque(pixels@),
{
    let mut i: usize = 0;
    while i < pixels.len()
        invariant
            i <= pixels@.len(),
            forall|j: int| 0 <= j < i ==> #[trigger] pixels@[j][3] == 255,
        decreases pixels@.len() - i,
    {
        if pixels[i][3] != 255 {
            return false;
        }
        i = i + 1;
    }
    true
}

/// The stages that applying the image filters runs on one image.
#[derive(Debug, Clone, Copy, PartialEq, Eq)]
pub struct FilterStages {
    /// The image is given back as it is.
    pub unchanged: bool,
    /// The blur radius after capping.
    pub blur_radius: u32,
    /// The colour adjustments run over the (blurred) pixels.
    pub color_pass: bool,
}

/// Which stages the filters run, given whether the colour adjustments (after
/// sanitising) leave colours as they are: an empty image or settings that
/// change nothing give the image back; the colour pass is skipped only when it
/// changes nothing and every pixel is opaque (for translucent pixels the
/// pass still normalises the stored channels).
pub fn filter_stages(pixels: &Vec<[u8; 4]>, blur_radius: u32, color_identity: bool) -> (r: FilterStages)
    ensures
        r.blur_radius == if blur_radius > MAX_BLUR_RADIUS { MAX_BLUR_RADIUS } else { blur_radius },
        r.unchanged == (pixels@.len() == 0 || (color_identity && r.blur_radius == 0)),
        r.color_pass == (!r.unchanged && !(color_identity && all_opaque(pixels@))),
{
    let radius = if blur_radius > MAX_BLUR_RADIUS { MAX_BLUR_RADIUS } else { blur_radius };
    if pixels.len() == 0 || (color_identity && radius == 0) {
        return FilterStages { unchanged: true, blur_radius: radius, color_pass: false };
    }
    let skip_color = color_identity && is_fully_opaque(pixels);
    FilterStages { unchanged: false, blur_radius: radius, color_pass: !skip_color }
}

} // verus!
