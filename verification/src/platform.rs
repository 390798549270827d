//! What the core and the host's window exchange.

use vstd::prelude::*;
use crate::framebuffer::RgbColor;
use crate::joypad_events::JoypadEvent;

verus! {

/// The bytes that one pixel takes in the host's picture.
pub const BYTES_PER_PIXEL: usize = 3;

#[derive(Debug, Clone, Copy, PartialEq, Eq, Structural)]
pub struct Size {
    pub width: usize,
    pub height: usize,
}

impl Size {
    pub fn new(width: usize, height: usize) -> (r: Self)
        ensures
            r == (Size { width, height }),
    {
        Self { width, height }
    }
}

/// What the host tells the core.
#[derive(Debug, Clone, Copy, PartialEq, Eq, Structural)]
pub enum PlatformEvent {
    Quit,
    Joypad(JoypadEvent),
}

/// Where the pixel in column `x` of row `y` starts in a picture whose rows
/// are `pitch` bytes apart.
pub open spec fn spec_pixel_offset(pitch: int, x: int, y: int) -> int {
    y * pitch + x * BYTES_PER_PIXEL
}

/// `buffer` with the three bytes from `offset` replaced by the red, green
/// and blue of `color`.
pub open spec fn spec_with_pixel(buffer: Seq<u8>, offset: int, color: RgbColor) -> Seq<u8> {
    buffer.update(offset, color.r).update(offset + 1, color.g).update(offset + 2, color.b)
}

/// Stores `color` as the pixel in column `x` of row `y` of the host's
/// picture.
pub fn write_pixel_to_buffer(buffer: &mut Vec<u8>, pitch: usize, x: usize, y: usize, color: RgbColor)
    requires
        spec_pixel_offset(pitch as int, x as int, y as int) + 2 < old(buffer)@.len(),
    ensures
        final(buffer)@ == spec_with_pixel(
            old(buffer)@,
            spec_pixel_offset(pitch as int, x as int, y as int),
            color,
        ),
{
    let length = buffer.len();
    proof {
        lemma_offset_parts(pitch as int, x as int, y as int);
        assert(y * pitch + x * 3 + 2 < length);
    }
    let offset = y * pitch + x * 3;
    buffer.set(offset, color.r);
    buffer.set(offset + 1, color.g);
    buffer.set(offset + 2, color.b);
}

proof fn lemma_offset_parts(pitch: int, x: int, y: int)
    by (nonlinear_arith)
    requires
        0 <= pitch,
        0 <= x,
        0 <= y,
    ensures
        0 <= y * pitch <= y * pitch + x * 3,
        0 <= x * 3 <= y * pitch + x * 3,
{
}

} // verus!
