//! Conversion of RGB565 framebuffers into 32-bit pixel buffers.
//!
//! The emulation core hands out frames as rows of 16-bit RGB565 pixels, with
//! `pitch` bytes from one row to the next (so a row may carry padding). The
//! display wants one 32-bit word per pixel: a full-opacity byte on top, then
//! the blue, green and red channels, each widened to eight bits. In memory,
//! on a little-endian target, such a word reads as the four bytes red, green,
//! blue, opacity.

use vstd::prelude::*;

verus! {

/// The 16-bit word of one RGB565 pixel, assembled from its two bytes in
/// little-endian order.
pub open spec fn pixel_word(lo: u8, hi: u8) -> int {
    hi * 0x100 + lo
}

/// The red channel of an RGB565 word (its top five bits), widened to eight
/// bits by shifting into the high end of the byte.
pub open spec fn red_of(p: int) -> int {
    ((p / 0x800) % 0x20) * 8
}

/// The green channel of an RGB565 word (its middle six bits), widened to
/// eight bits.
pub open spec fn green_of(p: int) -> int {
    ((p / 0x20) % 0x40) * 4
}

/// The blue channel of an RGB565 word (its bottom five bits), widened to
/// eight bits.
pub open spec fn blue_of(p: int) -> int {
    (p % 0x20) * 8
}

/// One converted pixel: a full-opacity byte on top, then the blue, green and
/// red channels, one byte each, from its two source bytes.
pub open spec fn xrgb_pixel(lo: u8, hi: u8) -> u32 {
    (0xFF000000 + blue_of(pixel_word(lo, hi)) * 0x10000 + green_of(pixel_word(lo, hi)) * 0x100
        + red_of(pixel_word(lo, hi))) as u32
}

/// The whole converted frame in row-major order: pixel `i` of the result is
/// read from the two source bytes at `(i / width) * pitch + 2 * (i % width)`.
pub open spec fn converted_frame(frame: Seq<u8>, width: int, height: int, pitch: int) -> Seq<
    u32,
> {
    Seq::new(
        (width * height) as nat,
        |i: int|
            xrgb_pixel(
                frame[(i / width) * pitch + 2 * (i % width)],
                frame[(i / width) * pitch + 2 * (i % width) + 1],
            ),
    )
}

/// The bitwise pixel conversion computes exactly the channel arithmetic of
/// `xrgb_pixel`.
proof fn lemma_xrgb_pixel_bits(lo: u8, hi: u8)
    by (bit_vector)
    ensures
        ({
            let pixel = ((hi as u32) << 8) | (lo as u32);
            (0xFFu32 << 24) | ((pixel & 0x1F) << 3) << 16 | (((pixel >> 5) & 0x3F) << 2) << 8 | ((
            pixel >> 11) & 0x1F) << 3
        }) == xrgb_pixel(lo, hi),
{
}

/// Convert an RGB565 framebuffer, row by row and honoring the row pitch,
/// into a 32-bit pixel buffer of exactly `width * height` entries.
#[verifier::loop_isolation(false)]
pub fn convert_pixel_array_from_rgb565_to_xrgb8888(
    frame: &[u8],
    width: usize,
    height: usize,
    pitch: usize,
) -> (converted: Vec<u32>)
    requires
        width * height <= usize::MAX,
        forall|y: int| 0 <= y < height ==> #[trigger] (y * pitch) + 2 * width <= frame@.len(),
    ensures
        converted@ == converted_frame(frame@, width as int, height as int, pitch as int),
{
    let ghost target = converted_frame(frame@, width as int, height as int, pitch as int);
    let frame_len: usize = frame.len();
    let mut converted: Vec<u32> = Vec::new();
    let mut y: usize = 0;
    while y < height
        invariant
            y <= height,
            converted@.len() == y * width,
            forall|i: int| 0 <= i < converted@.len() ==> converted@[i] == target[i],
        decreases height - y,
    {
        proof {
            assert((y as int) * (pitch as int) + 2 * (width as int) <= frame_len);
        }
        let row_offset: usize = y * pitch;
        let mut x: usize = 0;
        while x < width
            invariant
                y < height,
                x <= width,
                row_offset == y * pitch,
                converted@.len() == y * width + x,
                forall|i: int| 0 <= i < converted@.len() ==> converted@[i] == target[i],
            decreases width - x,
        {
            let lo = frame[row_offset + 2 * x];
            let hi = frame[row_offset + 2 * x + 1];
            let pixel: u32 = ((hi as u32) << 8) | (lo as u32);
            let r: u32 = ((pixel >> 11) & 0x1F) << 3;
            let g: u32 = ((pixel >> 5) & 0x3F) << 2;
            let b: u32 = (pixel & 0x1F) << 3;
            let value: u32 = (0xFFu32 << 24) | (b << 16) | (g << 8) | r;
            proof {
                lemma_xrgb_pixel_bits(lo, hi);
                vstd::arithmetic::mul::lemma_mul_is_distributive_add_other_way(
                    width as int,
                    y as int,
                    1,
                );
                vstd::arithmetic::mul::lemma_mul_inequality(
                    y as int + 1,
                    height as int,
                    width as int,
                );
                vstd::arithmetic::mul::lemma_mul_is_commutative(height as int, width as int);
                vstd::arithmetic::div_mod::lemma_fundamental_div_mod_converse(
                    y * width + x,
                    width as int,
                    y as int,
                    x as int,
                );
                assert(target[y * width + x] == xrgb_pixel(lo, hi));
            }
            converted.push(value);
            x = x + 1;
        }
        proof {
            vstd::arithmetic::mul::lemma_mul_is_distributive_add_other_way(
                width as int,
                y as int,
                1,
            );
        }
        y = y + 1;
    }
    proof {
        vstd::arithmetic::mul::lemma_mul_is_commutative(height as int, width as int);
        assert(converted@ =~= target);
    }
    converted
}

/// The four bytes of one 32-bit pixel in little-endian order.
pub open spec fn le_bytes_of(p: u32) -> Seq<u8> {
    seq![
        (p % 0x100) as u8,
        ((p / 0x100) % 0x100) as u8,
        ((p / 0x10000) % 0x100) as u8,
        ((p / 0x1000000) % 0x100) as u8,
    ]
}

/// Extracting the bytes of a pixel by shifting and masking computes exactly
/// the arithmetic of `le_bytes_of`.
proof fn lemma_le_bytes_bits(p: u32)
    by (bit_vector)
    ensures
        p & 0xFF == p % 0x100,
        (p >> 8) & 0xFF == (p / 0x100) % 0x100,
        (p >> 16) & 0xFF == (p / 0x10000) % 0x100,
        (p >> 24) & 0xFF == (p / 0x1000000) % 0x100,
{
}

/// Lay a 32-bit pixel buffer out as bytes, four per pixel in little-endian
/// order, the way the display's byte framebuffer expects them.
#[verifier::loop_isolation(false)]
pub fn frame_to_bytes(frame: &Vec<u32>) -> (bytes: Vec<u8>)
    ensures
        bytes@.len() == 4 * frame@.len(),
        forall|i: int|
            0 <= i < frame@.len() ==> #[trigger] bytes@.subrange(4 * i, 4 * i + 4) == le_bytes_of(
                frame@[i],
            ),
{
    let mut bytes: Vec<u8> = Vec::new();
    let mut i: usize = 0;
    while i < frame.len()
        invariant
            i <= frame@.len(),
            bytes@.len() == 4 * i,
            forall|j: int|
                0 <= j < i ==> #[trigger] bytes@.subrange(4 * j, 4 * j + 4) == le_bytes_of(
                    frame@[j],
                ),
        decreases frame@.len() - i,
    {
        let p = frame[i];
        let ghost prev = bytes@;
        bytes.push((p & 0xFF) as u8);
        bytes.push(((p >> 8) & 0xFF) as u8);
        bytes.push(((p >> 16) & 0xFF) as u8);
        bytes.push(((p >> 24) & 0xFF) as u8);
        proof {
            lemma_le_bytes_bits(p);
            assert forall|j: int| 0 <= j < i + 1 implies #[trigger] bytes@.subrange(
                4 * j,
                4 * j + 4,
            ) == le_bytes_of(frame@[j]) by {
                if j < i {
                    assert(prev.subrange(4 * j, 4 * j + 4) == le_bytes_of(frame@[j]));
                    assert(bytes@.subrange(4 * j, 4 * j + 4) =~= prev.subrange(4 * j, 4 * j + 4));
                } else {
                    assert(bytes@.subrange(4 * j, 4 * j + 4) =~= le_bytes_of(frame@[j]));
                }
            }
        }
        i = i + 1;
    }
    bytes
}

} // verus!
