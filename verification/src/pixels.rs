//! Where a pixel lives in the packed framebuffer.
//!
//! Rows are stored one after another, `EPD_ROW_BYTES` bytes each. Within a
//! byte the leftmost pixel is the most significant bit. A cleared bit is
//! black, a set bit is white, as in the controller's RAM.

use vstd::prelude::*;
use crate::panel::{EPD_BUFFER_SIZE, EPD_HEIGHT, EPD_ROW_BYTES, EPD_WIDTH};

verus! {

/// Whether `(x, y)` is a pixel of the panel.
pub open spec fn on_panel(x: int, y: int) -> bool {
    0 <= x < EPD_WIDTH && 0 <= y < EPD_HEIGHT
}

/// Index of the byte that holds pixel `(x, y)`.
pub open spec fn pixel_index(x: int, y: int) -> int {
    y * EPD_ROW_BYTES + x / 8
}

/// Position of pixel column `x` in its byte, counted from the least
/// significant bit.
pub open spec fn pixel_shift(x: int) -> u8 {
    (7 - x % 8) as u8
}

/// The single bit of pixel column `x` in its byte.
pub open spec fn pixel_mask(x: int) -> u8 {
    1u8 << pixel_shift(x)
}

/// Whether pixel `(x, y)` is black in the image `buf`.
pub open spec fn is_black(buf: Seq<u8>, x: int, y: int) -> bool {
    buf[pixel_index(x, y)] & pixel_mask(x) == 0
}

/// A byte with the bit at `shift` cleared (black) or set (white).
pub open spec fn paint(byte: u8, shift: u8, black: bool) -> u8 {
    if black {
        byte & !(1u8 << shift)
    } else {
        byte | (1u8 << shift)
    }
}

/// Every pixel of the panel has its byte inside the framebuffer, and two
/// pixels share a byte only if they are in the same row and the same group of
/// eight columns.
pub proof fn lemma_pixel_index(x: int, y: int, x2: int, y2: int)
    requires
        on_panel(x, y),
        on_panel(x2, y2),
    ensures
        0 <= pixel_index(x, y) < EPD_BUFFER_SIZE,
        0 <= pixel_shift(x) < 8,
        pixel_index(x, y) == pixel_index(x2, y2) <==> y == y2 && x / 8 == x2 / 8,
        pixel_index(x, y) == pixel_index(x2, y2) && pixel_shift(x) == pixel_shift(x2) ==> x == x2,
{
}

/// Painting a bit gives it the wanted polarity.
pub proof fn lemma_paint_sets(byte: u8, shift: u8, black: bool)
    requires
        shift < 8,
    ensures
        (paint(byte, shift, black) & (1u8 << shift) == 0) == black,
{
    assert(shift < 8 ==> (byte & !(1u8 << shift)) & (1u8 << shift) == 0) by (bit_vector);
    assert(shift < 8 ==> (byte | (1u8 << shift)) & (1u8 << shift) != 0) by (bit_vector);
}

/// Painting a bit leaves the other bits of the byte as they were.
pub proof fn lemma_paint_keeps(byte: u8, shift: u8, black: bool, other: u8)
    requires
        shift < 8,
        other < 8,
        other != shift,
    ensures
        paint(byte, shift, black) & (1u8 << other) == byte & (1u8 << other),
{
    assert(shift < 8 && other < 8 && other != shift ==> (byte & !(1u8 << shift)) & (1u8 << other)
        == byte & (1u8 << other)) by (bit_vector);
    assert(shift < 8 && other < 8 && other != shift ==> (byte | (1u8 << shift)) & (1u8 << other)
        == byte & (1u8 << other)) by (bit_vector);
}

} // verus!
