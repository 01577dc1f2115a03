use vstd::prelude::*;
use crate::camera::lemma_rgba_byte;
use crate::frame::{VideoFrame, lemma_pixel_index};

verus! {

/// Sum of channel `c` over the pixels `lo..=hi` of a packed four-byte-per-pixel raster.
pub open spec fn pix_sum(d: Seq<u8>, lo: int, hi: int, c: int) -> int
    decreases hi - lo + 1,
{
    if hi < lo {
        0
    } else {
        pix_sum(d, lo, hi - 1, c) + d[4 * hi + c] as int
    }
}

/// Sum of channel `c` over rows `lo..=hi` of column `x` of a `w`-wide raster.
pub open spec fn col_sum(d: Seq<u8>, w: int, x: int, lo: int, hi: int, c: int) -> int
    decreases hi - lo + 1,
{
    if hi < lo {
        0
    } else {
        col_sum(d, w, x, lo, hi - 1, c) + d[4 * (hi * w + x) + c] as int
    }
}

/// The first coordinate of the window of radius `r` around `i`.
pub open spec fn win_lo(i: int, r: int) -> int {
    if i >= r {
        i - r
    } else {
        0
    }
}

/// The last coordinate of the window of radius `r` around `i` in `0..n`.
pub open spec fn win_hi(i: int, r: int, n: int) -> int {
    if i + r < n {
        i + r
    } else {
        n - 1
    }
}

/// Channel `c` of pixel `p` after the horizontal pass: the mean, rounded
/// down, of the pixels of its row within `r` of it.
pub open spec fn hblur_at(d: Seq<u8>, w: int, r: int, p: int, c: int) -> u8 {
    let x = p % w;
    let row = p - x;
    let lo = row + win_lo(x, r);
    let hi = row + win_hi(x, r, w);
    (pix_sum(d, lo, hi, c) / (hi - lo + 1)) as u8
}

/// Channel `c` of pixel `p` after the vertical pass: the mean, rounded
/// down, of the pixels of its column within `r` of it.
pub open spec fn vblur_at(d: Seq<u8>, w: int, h: int, r: int, p: int, c: int) -> u8 {
    let x = p % w;
    let y = p / w;
    let lo = win_lo(y, r);
    let hi = win_hi(y, r, h);
    (col_sum(d, w, x, lo, hi, c) / (hi - lo + 1)) as u8
}

/// A pass over the colour channels of the `n` first pixels: their bytes
/// given by `f`, every other byte kept.
pub open spec fn color_pass(d: Seq<u8>, n: int, f: spec_fn(int, int) -> u8) -> Seq<u8> {
    Seq::new(d.len(), |k: int| if k / 4 < n && k % 4 < 3 { f(k / 4, k % 4) } else { d[k] })
}

/// The horizontal pass of a box blur of radius `r` over a `w` x `h` raster.
pub open spec fn hblur(d: Seq<u8>, w: int, h: int, r: int) -> Seq<u8> {
    color_pass(d, w * h, |p: int, c: int| hblur_at(d, w, r, p, c))
}

/// The vertical pass of a box blur of radius `r` over a `w` x `h` raster.
pub open spec fn vblur(d: Seq<u8>, w: int, h: int, r: int) -> Seq<u8> {
    color_pass(d, w * h, |p: int, c: int| vblur_at(d, w, h, r, p, c))
}

proof fn lemma_pix_sum_bound(d: Seq<u8>, lo: int, hi: int, c: int)
    ensures
        0 <= pix_sum(d, lo, hi, c) <= 255 * (if hi < lo { 0 } else { hi - lo + 1 }),
    decreases hi - lo + 1,
{
    if hi >= lo {
        lemma_pix_sum_bound(d, lo, hi - 1, c);
    }
}

proof fn lemma_col_sum_bound(d: Seq<u8>, w: int, x: int, lo: int, hi: int, c: int)
    ensures
        0 <= col_sum(d, w, x, lo, hi, c) <= 255 * (if hi < lo { 0 } else { hi - lo + 1 }),
    decreases hi - lo + 1,
{
    if hi >= lo {
        lemma_col_sum_bound(d, w, x, lo, hi - 1, c);
    }
}

proof fn lemma_mean_fits(s: int, n: int)
    requires
        n >= 1,
        0 <= s <= 255 * n,
    ensures
        0 <= s / n <= 255,
{
    assert(s / n <= 255) by (nonlinear_arith)
        requires
            n >= 1,
            0 <= s <= 255 * n,
    ;
    assert(s / n >= 0) by (nonlinear_arith)
        requires
            n >= 1,
            0 <= s,
    ;
}

/// Sums of the three colour channels over the pixels `lo..=hi` of `d`.
fn row_sums(d: &Vec<u8>, lo: usize, hi: usize) -> (s: (u128, u128, u128))
    requires
        lo <= hi,
        4 * hi + 3 < d@.len(),
    ensures
        s.0 == pix_sum(d@, lo as int, hi as int, 0),
        s.1 == pix_sum(d@, lo as int, hi as int, 1),
        s.2 == pix_sum(d@, lo as int, hi as int, 2),
{
    let len = d.len();
    let mut s0: u128 = 0;
    let mut s1: u128 = 0;
    let mut s2: u128 = 0;
    let mut q: usize = lo;
    while q <= hi
        invariant
            lo <= q <= hi + 1,
            len == d@.len(),
            4 * hi + 3 < d@.len(),
            s0 == pix_sum(d@, lo as int, q - 1, 0),
            s1 == pix_sum(d@, lo as int, q - 1, 1),
            s2 == pix_sum(d@, lo as int, q - 1, 2),
        decreases hi + 1 - q,
    {
        proof {
            lemma_pix_sum_bound(d@, lo as int, q - 1, 0);
            lemma_pix_sum_bound(d@, lo as int, q - 1, 1);
            lemma_pix_sum_bound(d@, lo as int, q - 1, 2);
        }
        let k = 4 * q;
        s0 = s0 + d[k] as u128;
        s1 = s1 + d[k + 1] as u128;
        s2 = s2 + d[k + 2] as u128;
        q = q + 1;
    }
    (s0, s1, s2)
}

/// Sums of the three colour channels over rows `lo..=hi` of column `x` of a
/// `w`-wide, `h`-high raster `d`.
fn column_sums(d: &Vec<u8>, w: usize, h: usize, x: usize, lo: usize, hi: usize) -> (s: (u128, u128, u128))
    requires
        lo <= hi < h,
        x < w,
        4 * (w * h) <= d@.len(),
    ensures
        s.0 == col_sum(d@, w as int, x as int, lo as int, hi as int, 0),
        s.1 == col_sum(d@, w as int, x as int, lo as int, hi as int, 1),
        s.2 == col_sum(d@, w as int, x as int, lo as int, hi as int, 2),
{
    let len = d.len();
    let mut s0: u128 = 0;
    let mut s1: u128 = 0;
    let mut s2: u128 = 0;
    let mut y: usize = lo;
    while y <= hi
        invariant
            lo <= y <= hi + 1,
            len == d@.len(),
            hi < h,
            x < w,
            4 * (w * h) <= d@.len(),
            s0 == col_sum(d@, w as int, x as int, lo as int, y - 1, 0),
            s1 == col_sum(d@, w as int, x as int, lo as int, y - 1, 1),
            s2 == col_sum(d@, w as int, x as int, lo as int, y - 1, 2),
        decreases hi + 1 - y,
    {
        proof {
            lemma_col_sum_bound(d@, w as int, x as int, lo as int, y - 1, 0);
            lemma_col_sum_bound(d@, w as int, x as int, lo as int, y - 1, 1);
            lemma_col_sum_bound(d@, w as int, x as int, lo as int, y - 1, 2);
            lemma_pixel_index(x as int, y as int, w as int, h as int);
        }
        let k = 4 * (y * w + x);
        s0 = s0 + d[k] as u128;
        s1 = s1 + d[k + 1] as u128;
        s2 = s2 + d[k + 2] as u128;
        y = y + 1;
    }
    (s0, s1, s2)
}

/// The horizontal pass over a `w` x `h` raster.
fn horizontal_pass(d: &Vec<u8>, w: usize, h: usize, r: usize) -> (out: Vec<u8>)
    requires
        4 * (w * h) <= d@.len(),
    ensures
        out@ == hblur(d@, w as int, h as int, r as int),
{
    let len = d.len();
    let n = w * h;
    let mut temp = d.clone();
    assert(temp@ == d@);
    let mut p: usize = 0;
    while p < n
        invariant
            n == w * h,
            len == d@.len(),
            4 * n <= d@.len(),
            temp@.len() == d@.len(),
            p <= n,
            forall|k: int| 0 <= k < d@.len() ==> #[trigger] temp@[k] == (if k / 4 < p && k % 4 < 3 {
                hblur_at(d@, w as int, r as int, k / 4, k % 4)
            } else {
                d@[k]
            }),
        decreases n - p,
    {
        proof {
            assert(w > 0) by (nonlinear_arith)
                requires
                    0 <= p < w * h,
            ;
            vstd::arithmetic::div_mod::lemma_fundamental_div_mod(p as int, w as int);
            assert(p / w < h) by (nonlinear_arith)
                requires
                    0 <= p < w * h,
                    w > 0,
            ;
            lemma_pixel_index((p % w) as int, (p / w) as int, w as int, h as int);
        }
        let x = p % w;
        let row = p - x;
        proof {
            let y = p / w;
            assert(row == w * y);
            assert((y + 1) * w <= h * w) by (nonlinear_arith)
                requires
                    y + 1 <= h,
                    w > 0,
            ;
            assert(row + w <= n) by (nonlinear_arith)
                requires
                    row == w * y,
                    (y + 1) * w <= h * w,
                    n == w * h,
            ;
        }
        let lo = row + if x >= r { x - r } else { 0 };
        let hi = row + if r < w - x { x + r } else { w - 1 };
        let sums = row_sums(d, lo, hi);
        let count = (hi - lo + 1) as u128;
        proof {
            lemma_pix_sum_bound(d@, lo as int, hi as int, 0);
            lemma_pix_sum_bound(d@, lo as int, hi as int, 1);
            lemma_pix_sum_bound(d@, lo as int, hi as int, 2);
            lemma_mean_fits(sums.0 as int, count as int);
            lemma_mean_fits(sums.1 as int, count as int);
            lemma_mean_fits(sums.2 as int, count as int);
        }
        let k = 4 * p;
        let ghost before = temp@;
        temp.set(k, (sums.0 / count) as u8);
        temp.set(k + 1, (sums.1 / count) as u8);
        temp.set(k + 2, (sums.2 / count) as u8);
        proof {
            assert forall|j: int| 0 <= j < d@.len() implies #[trigger] temp@[j] == (if j / 4 < p + 1 && j % 4 < 3 {
                hblur_at(d@, w as int, r as int, j / 4, j % 4)
            } else {
                d@[j]
            }) by {
                if k <= j < k + 3 {
                    lemma_rgba_byte(j, p as int, j - k);
                } else {
                    assert(temp@[j] == before[j]);
                    if j == k + 3 {
                        lemma_rgba_byte(j, p as int, 3);
                    }
                }
            }
        }
        p = p + 1;
    }
    assert(temp@ =~= hblur(d@, w as int, h as int, r as int));
    temp
}

/// The vertical pass over a `w` x `h` raster.
fn vertical_pass(d: &Vec<u8>, w: usize, h: usize, r: usize) -> (out: Vec<u8>)
    requires
        4 * (w * h) <= d@.len(),
    ensures
        out@ == vblur(d@, w as int, h as int, r as int),
{
    let len = d.len();
    let n = w * h;
    let mut temp = d.clone();
    assert(temp@ == d@);
    let mut p: usize = 0;
    while p < n
        invariant
            n == w * h,
            len == d@.len(),
            4 * n <= d@.len(),
            temp@.len() == d@.len(),
            p <= n,
            forall|k: int| 0 <= k < d@.len() ==> #[trigger] temp@[k] == (if k / 4 < p && k % 4 < 3 {
                vblur_at(d@, w as int, h as int, r as int, k / 4, k % 4)
            } else {
                d@[k]
            }),
        decreases n - p,
    {
        proof {
            assert(w > 0) by (nonlinear_arith)
                requires
                    0 <= p < w * h,
            ;
            assert(p / w < h) by (nonlinear_arith)
                requires
                    0 <= p < w * h,
                    w > 0,
            ;
        }
        let x = p % w;
        let y = p / w;
        let lo = if y >= r { y - r } else { 0 };
        let hi = if r < h - y { y + r } else { h - 1 };
        let sums = column_sums(d, w, h, x, lo, hi);
        let count = (hi - lo + 1) as u128;
        proof {
            lemma_col_sum_bound(d@, w as int, x as int, lo as int, hi as int, 0);
            lemma_col_sum_bound(d@, w as int, x as int, lo as int, hi as int, 1);
            lemma_col_sum_bound(d@, w as int, x as int, lo as int, hi as int, 2);
            lemma_mean_fits(sums.0 as int, count as int);
            lemma_mean_fits(sums.1 as int, count as int);
            lemma_mean_fits(sums.2 as int, count as int);
        }
        let k = 4 * p;
        let ghost before = temp@;
        temp.set(k, (sums.0 / count) as u8);
        temp.set(k + 1, (sums.1 / count) as u8);
        temp.set(k + 2, (sums.2 / count) as u8);
        proof {
            assert forall|j: int| 0 <= j < d@.len() implies #[trigger] temp@[j] == (if j / 4 < p + 1 && j % 4 < 3 {
                vblur_at(d@, w as int, h as int, r as int, j / 4, j % 4)
            } else {
                d@[j]
            }) by {
                if k <= j < k + 3 {
                    lemma_rgba_byte(j, p as int, j - k);
                } else {
                    assert(temp@[j] == before[j]);
                    if j == k + 3 {
                        lemma_rgba_byte(j, p as int, 3);
                    }
                }
            }
        }
        p = p + 1;
    }
    assert(temp@ =~= vblur(d@, w as int, h as int, r as int));
    temp
}

/// Blur the colour channels of an RGBA frame with a box of radius `radius`:
/// first along the rows, then along the columns of the result; each output
/// is the mean, rounded down, of the pixels within `radius` of it that lie
/// in the frame. Alpha and any bytes past the raster are kept.
pub fn apply_box_blur(frame: &mut VideoFrame, radius: u32)
    requires
        old(frame).data@.len() >= 4 * (old(frame).width * old(frame).height),
    ensures
        final(frame).width == old(frame).width,
        final(frame).height == old(frame).height,
        final(frame).format == old(frame).format,
        final(frame).data@ == vblur(
            hblur(old(frame).data@, old(frame).width as int, old(frame).height as int, radius as int),
            old(frame).width as int,
            old(frame).height as int,
            radius as int,
        ),
{
    let w = frame.width as usize;
    let h = frame.height as usize;
    let r = radius as usize;
    let across = horizontal_pass(&frame.data, w, h, r);
    let down = vertical_pass(&across, w, h, r);
    frame.data = down;
}

} // verus!
