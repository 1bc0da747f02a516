//! The picture: the video memory as a buffer of pixels.

use crate::cpu::bits::{bit, test_bit};
use crate::cpu::memory::{Memory, VIDEO_START};
use vstd::prelude::*;

verus! {

/// The width of the picture in pixels.
pub const SCREEN_WIDTH: usize = 224;

/// The height of the picture in pixels.
pub const SCREEN_HEIGHT: usize = 256;

/// The number of pixels in the picture.
pub const NUM_PIXELS: usize = 57344;

/// A lit pixel.
pub const WHITE: u32 = 0x00ffffff;

/// A dark pixel.
pub const BLACK: u32 = 0;

/// The pixel at index `j` of the picture, rows from the top, each row from the left.
///
/// The video memory starts at 0x2400 and holds one bit per pixel. The monitor
/// stands on its side: column `x` of the picture is the strip of 32 bytes at
/// `0x2400 + 32 * x`, whose first bit, bit 0 of its first byte, is the pixel at
/// the bottom of the column.
pub open spec fn pixel(mem: Seq<u8>, j: int) -> u32 {
    let x = j % 224;
    let up = 255 - j / 224;
    if bit(mem[0x2400 + 32 * x + up / 8], up % 8) {
        WHITE
    } else {
        BLACK
    }
}

/// Renders the video memory: one `u32` per pixel, 224 to a row, 256 rows,
/// [`WHITE`] where the bit of the pixel is set and [`BLACK`] where it is not.
pub fn render_frame(memory: &Memory) -> (buffer: Vec<u32>)
    ensures
        buffer@.len() == NUM_PIXELS,
        forall|j: int| 0 <= j < NUM_PIXELS ==> buffer@[j] == pixel(memory@, j),
{
    let mut buffer: Vec<u32> = Vec::new();
    let mut y: usize = 0;
    while y < SCREEN_HEIGHT
        invariant
            y <= SCREEN_HEIGHT,
            buffer@.len() == y * 224,
            forall|j: int| 0 <= j < buffer@.len() ==> buffer@[j] == pixel(memory@, j),
        decreases SCREEN_HEIGHT - y,
    {
        let up: usize = 255 - y;
        let strip: u16 = (up / 8) as u16;
        let b: u8 = (up % 8) as u8;
        let mut x: usize = 0;
        while x < SCREEN_WIDTH
            invariant
                x <= SCREEN_WIDTH,
                y < SCREEN_HEIGHT,
                up == 255 - y,
                strip == up / 8,
                b == up % 8,
                buffer@.len() == y * 224 + x,
                forall|j: int| 0 <= j < buffer@.len() ==> buffer@[j] == pixel(memory@, j),
            decreases SCREEN_WIDTH - x,
        {
            let byte: u8 = memory.read(VIDEO_START + 32 * (x as u16) + strip);
            let lit = test_bit(byte, b);
            proof {
                let j = y * 224 + x;
                assert(j % 224 == x && j / 224 == y) by (nonlinear_arith)
                    requires
                        j == y * 224 + x,
                        0 <= x < 224,
                        0 <= y,
                ;
            }
            buffer.push(if lit { WHITE } else { BLACK });
            x += 1;
        }
        y += 1;
    }
    buffer
}

} // verus!
