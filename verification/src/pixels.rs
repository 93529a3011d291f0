//! Quarter turns of raw pixel buffers: rows of pixels, each pixel a fixed
//! number of samples, laid out row after row.

use vstd::prelude::*;

verus! {

/// Where sample `k` of the pixel in column `x` and row `y` stands, in an
/// image whose rows are `row_len` pixels long and whose pixels have
/// `channels` samples.
pub open spec fn sample_index(row_len: int, channels: int, x: int, y: int, k: int) -> int {
    (y * row_len + x) * channels + k
}

proof fn lemma_sample_in_bounds(row_len: int, rows: int, channels: int, x: int, y: int, k: int)
    requires
        0 <= x < row_len,
        0 <= y < rows,
        0 <= k < channels,
    ensures
        0 <= y * row_len,
        y * row_len <= y * row_len + x,
        y * row_len + x <= (y * row_len + x) * channels,
        0 <= sample_index(row_len, channels, x, y, k) < row_len * rows * channels,
        row_len * rows * channels == rows * row_len * channels,
{
    assert(0 <= y * row_len) by (nonlinear_arith)
        requires 0 <= y, 0 <= row_len;
    assert(y * row_len + x < row_len * rows) by (nonlinear_arith)
        requires 0 <= x < row_len, 0 <= y < rows;
    assert((y * row_len + x) * channels + k < row_len * rows * channels) by (nonlinear_arith)
        requires 0 <= y * row_len + x < row_len * rows, 0 <= k < channels;
    assert(y * row_len + x <= (y * row_len + x) * channels) by (nonlinear_arith)
        requires 0 <= y * row_len + x, 1 <= channels;
    assert(row_len * rows * channels == rows * row_len * channels) by (nonlinear_arith);
}

proof fn lemma_sample_index_unique(
    row_len: int,
    channels: int,
    x1: int,
    y1: int,
    k1: int,
    x2: int,
    y2: int,
    k2: int,
)
    requires
        0 <= x1 < row_len,
        0 <= x2 < row_len,
        0 <= k1 < channels,
        0 <= k2 < channels,
        sample_index(row_len, channels, x1, y1, k1) == sample_index(row_len, channels, x2, y2, k2),
    ensures
        x1 == x2,
        y1 == y2,
        k1 == k2,
{
    let i = sample_index(row_len, channels, x1, y1, k1);
    vstd::arithmetic::div_mod::lemma_fundamental_div_mod_converse(i, channels, y1 * row_len + x1, k1);
    vstd::arithmetic::div_mod::lemma_fundamental_div_mod_converse(i, channels, y2 * row_len + x2, k2);
    vstd::arithmetic::div_mod::lemma_fundamental_div_mod_converse(y1 * row_len + x1, row_len, y1, x1);
    vstd::arithmetic::div_mod::lemma_fundamental_div_mod_converse(y2 * row_len + x2, row_len, y2, x2);
}

proof fn lemma_next_row(row_len: int, channels: int, y: int)
    ensures
        sample_index(row_len, channels, row_len, y, 0) == sample_index(row_len, channels, 0, y + 1, 0),
{
    assert(y * row_len + row_len == (y + 1) * row_len) by (nonlinear_arith);
}

proof fn lemma_next_pixel(row_len: int, channels: int, x: int, y: int)
    ensures
        sample_index(row_len, channels, x, y, channels) == sample_index(row_len, channels, x + 1, y, 0),
{
    assert((y * row_len + x) * channels + channels == (y * row_len + x + 1) * channels) by (nonlinear_arith);
}

/// The picture turned a quarter turn clockwise: the source is `width` pixels
/// wide and `height` high, the result `height` wide and `width` high, and the
/// pixel in column `x` and row `y` of the result is the source's pixel in
/// column `y` and row `height - 1 - x`, sample for sample.
pub fn rotate_clockwise<T: Copy>(width: usize, height: usize, channels: usize, samples: &Vec<T>) -> (r: Vec<T>)
    requires
        samples@.len() == width * height * channels,
    ensures
        r@.len() == samples@.len(),
        forall|x: int, y: int, k: int|
            0 <= x < height && 0 <= y < width && 0 <= k < channels
                ==> r@[#[trigger] sample_index(height as int, channels as int, x, y, k)]
                == samples@[sample_index(width as int, channels as int, y, height - 1 - x, k)],
{
    let ghost w = width as int;
    let ghost h = height as int;
    let ghost c = channels as int;
    let mut r: Vec<T> = Vec::new();
    let mut y: usize = 0;
    assert(sample_index(h, c, 0, 0, 0) == 0) by (nonlinear_arith);
    while y < width
        invariant
            samples@.len() == w * h * c,
            w == width,
            h == height,
            c == channels,
            y <= width,
            r@.len() == sample_index(h, c, 0, y as int, 0),
            forall|xx: int, yy: int, kk: int|
                0 <= xx < h && 0 <= yy && 0 <= kk < c
                    && #[trigger] sample_index(h, c, xx, yy, kk) < r@.len()
                    ==> r@[sample_index(h, c, xx, yy, kk)] == samples@[sample_index(w, c, yy, h - 1 - xx, kk)],
        decreases width - y,
    {
        let mut x: usize = 0;
        while x < height
            invariant
                samples@.len() == w * h * c,
                w == width,
                h == height,
                c == channels,
                y < width,
                x <= height,
                r@.len() == sample_index(h, c, x as int, y as int, 0),
                forall|xx: int, yy: int, kk: int|
                    0 <= xx < h && 0 <= yy && 0 <= kk < c
                        && #[trigger] sample_index(h, c, xx, yy, kk) < r@.len()
                        ==> r@[sample_index(h, c, xx, yy, kk)] == samples@[sample_index(w, c, yy, h - 1 - xx, kk)],
            decreases height - x,
        {
            let mut k: usize = 0;
            while k < channels
                invariant
                    samples@.len() == w * h * c,
                    w == width,
                    h == height,
                    c == channels,
                    y < width,
                    x < height,
                    k <= channels,
                    r@.len() == sample_index(h, c, x as int, y as int, k as int),
                    forall|xx: int, yy: int, kk: int|
                        0 <= xx < h && 0 <= yy && 0 <= kk < c
                            && #[trigger] sample_index(h, c, xx, yy, kk) < r@.len()
                            ==> r@[sample_index(h, c, xx, yy, kk)] == samples@[sample_index(w, c, yy, h - 1 - xx, kk)],
                decreases channels - k,
            {
                let src_row: usize = height - 1 - x;
                proof {
                    lemma_sample_in_bounds(w, h, c, y as int, src_row as int, k as int);
                }
                assert(samples@.len() == samples.len());
                let row_start: usize = src_row * width;
                let pixel: usize = row_start + y;
                let src: usize = pixel * channels + k;
                let ghost old_r = r@;
                r.push(samples[src]);
                assert forall|xx: int, yy: int, kk: int|
                    0 <= xx < h && 0 <= yy && 0 <= kk < c
                        && #[trigger] sample_index(h, c, xx, yy, kk) < r@.len()
                        implies r@[sample_index(h, c, xx, yy, kk)] == samples@[sample_index(w, c, yy, h - 1 - xx, kk)] by {
                    if sample_index(h, c, xx, yy, kk) == old_r.len() {
                        lemma_sample_index_unique(h, c, xx, yy, kk, x as int, y as int, k as int);
                    }
                }
                k = k + 1;
            }
            proof {
                lemma_next_pixel(h, c, x as int, y as int);
            }
            x = x + 1;
        }
        proof {
            lemma_next_row(h, c, y as int);
        }
        y = y + 1;
    }
    assert forall|x: int, y: int, k: int|
        0 <= x < height && 0 <= y < width && 0 <= k < channels implies
            r@[#[trigger] sample_index(height as int, channels as int, x, y, k)]
            == samples@[sample_index(width as int, channels as int, y, height - 1 - x, k)] by {
        lemma_sample_in_bounds(h, w, c, x, y, k);
    }
    r
}

} // verus!
