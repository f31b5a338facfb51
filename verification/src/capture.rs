//! Average color of one captured frame: the compute half of the producer
//! that feeds the color operation.
//!
//! The capture mechanism hands over a BGRA byte buffer of `height` rows, each
//! `stride` bytes long with `width` pixels of 4 bytes; the average of each
//! color channel over all pixels is the `(r, g, b)` sample fed into the color
//! command.

use vstd::prelude::*;

verus! {

/// Sum of channel `c` (0 = blue, 1 = green, 2 = red) over the first `n`
/// pixels of row `y`.
pub open spec fn row_channel_sum(buf: Seq<u8>, stride: int, y: int, n: int, c: int) -> int
    decreases n,
{
    if n <= 0 {
        0
    } else {
        row_channel_sum(buf, stride, y, n - 1, c) + buf[y * stride + (n - 1) * 4 + c]
    }
}

/// Sum of channel `c` over all `width` pixels of the first `n` rows.
pub open spec fn channel_sum(buf: Seq<u8>, stride: int, width: int, n: int, c: int) -> int
    decreases n,
{
    if n <= 0 {
        0
    } else {
        channel_sum(buf, stride, width, n - 1, c) + row_channel_sum(buf, stride, n - 1, width, c)
    }
}

/// A row's channel sum lies between 0 and 255 per pixel counted.
proof fn lemma_row_sum_bounds(buf: Seq<u8>, stride: int, y: int, n: int, c: int)
    requires
        0 <= n,
    ensures
        0 <= row_channel_sum(buf, stride, y, n, c) <= 255 * n,
    decreases n,
{
    if n > 0 {
        lemma_row_sum_bounds(buf, stride, y, n - 1, c);
    }
}

/// A frame's channel sum lies between 0 and 255 per pixel counted.
proof fn lemma_channel_sum_bounds(buf: Seq<u8>, stride: int, width: int, n: int, c: int)
    requires
        0 <= n,
        0 <= width,
    ensures
        0 <= channel_sum(buf, stride, width, n, c) <= 255 * width * n,
    decreases n,
{
    if n > 0 {
        lemma_channel_sum_bounds(buf, stride, width, n - 1, c);
        lemma_row_sum_bounds(buf, stride, n - 1, width, c);
        assert(255 * width * (n - 1) + 255 * width == 255 * width * n) by (nonlinear_arith);
    }
}

/// Averages each color channel over every pixel of one captured BGRA frame
/// buffer, returning the `(r, g, b)` sample for the color command. Each
/// returned channel is the integer mean of that channel over all
/// `width * height` pixels.
#[verifier::loop_isolation(false)]
pub fn average_color(buffer: &Vec<u8>, width: usize, height: usize, stride: usize) -> (rgb: (
    u8,
    u8,
    u8,
))
    requires
        0 < width <= 0x10000,
        0 < height <= 0x10000,
        buffer@.len() == height * stride,
        4 * width <= stride,
    ensures
        rgb.0 == channel_sum(buffer@, stride as int, width as int, height as int, 2) / (
        width * height) as int,
        rgb.1 == channel_sum(buffer@, stride as int, width as int, height as int, 1) / (
        width * height) as int,
        rgb.2 == channel_sum(buffer@, stride as int, width as int, height as int, 0) / (
        width * height) as int,
{
    let ghost buf = buffer@;
    let ghost w = width as int;
    // Pins the buffer length to a machine word, so the row and pixel offsets
    // below are known to stay within usize.
    let _buffer_len: usize = buffer.len();
    let mut sum_b: u64 = 0;
    let mut sum_g: u64 = 0;
    let mut sum_r: u64 = 0;
    let mut y: usize = 0;
    while y < height
        invariant
            y <= height,
            sum_b == channel_sum(buf, stride as int, w, y as int, 0),
            sum_g == channel_sum(buf, stride as int, w, y as int, 1),
            sum_r == channel_sum(buf, stride as int, w, y as int, 2),
        decreases height - y,
    {
        proof {
            assert(y * stride + stride <= height * stride) by (nonlinear_arith)
                requires
                    y < height,
                    0 <= stride;
        }
        let row_base: usize = y * stride;
        let mut x: usize = 0;
        while x < width
            invariant
                x <= width,
                row_base == y as int * stride,
                y < height,
                sum_b == channel_sum(buf, stride as int, w, y as int, 0) + row_channel_sum(
                    buf,
                    stride as int,
                    y as int,
                    x as int,
                    0,
                ),
                sum_g == channel_sum(buf, stride as int, w, y as int, 1) + row_channel_sum(
                    buf,
                    stride as int,
                    y as int,
                    x as int,
                    1,
                ),
                sum_r == channel_sum(buf, stride as int, w, y as int, 2) + row_channel_sum(
                    buf,
                    stride as int,
                    y as int,
                    x as int,
                    2,
                ),
            decreases width - x,
        {
            proof {
                assert(y * stride + stride <= height * stride) by (nonlinear_arith)
                    requires
                        y < height,
                        0 <= stride;
                lemma_channel_sum_bounds(buf, stride as int, w, y as int, 0);
                lemma_channel_sum_bounds(buf, stride as int, w, y as int, 1);
                lemma_channel_sum_bounds(buf, stride as int, w, y as int, 2);
                lemma_row_sum_bounds(buf, stride as int, y as int, x as int, 0);
                lemma_row_sum_bounds(buf, stride as int, y as int, x as int, 1);
                lemma_row_sum_bounds(buf, stride as int, y as int, x as int, 2);
                assert(255 * w * (y as int) + 255 * (x as int) + 255 < 0x100_0000_0000)
                    by (nonlinear_arith)
                    requires
                        0 < w <= 0x10000,
                        0 <= (y as int) <= 0x10000,
                        0 <= (x as int) < w;
            }
            let i: usize = row_base + x * 4;
            sum_b = sum_b + buffer[i] as u64;
            sum_g = sum_g + buffer[i + 1] as u64;
            sum_r = sum_r + buffer[i + 2] as u64;
            x = x + 1;
        }
        y = y + 1;
    }
    proof {
        assert(0 < (width as int) * (height as int) <= 0x1_0000_0000) by (nonlinear_arith)
            requires
                0 < width <= 0x10000,
                0 < height <= 0x10000;
    }
    let count: u64 = (width as u64) * (height as u64);
    proof {
        lemma_channel_sum_bounds(buf, stride as int, w, height as int, 0);
        lemma_channel_sum_bounds(buf, stride as int, w, height as int, 1);
        lemma_channel_sum_bounds(buf, stride as int, w, height as int, 2);
        assert(sum_b / count <= 255 && sum_g / count <= 255 && sum_r / count <= 255)
            by (nonlinear_arith)
            requires
                0 < count,
                count == w * height as int,
                0 <= sum_b <= 255 * w * height as int,
                0 <= sum_g <= 255 * w * height as int,
                0 <= sum_r <= 255 * w * height as int;
    }
    ((sum_r / count) as u8, (sum_g / count) as u8, (sum_b / count) as u8)
}

} // verus!
