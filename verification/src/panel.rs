//! Panel geometry.

use vstd::prelude::*;

verus! {

/// Visible pixels per row.
pub const EPD_WIDTH: usize = 250;

/// Visible rows.
pub const EPD_HEIGHT: usize = 122;

/// Bytes that hold one row: eight pixels per byte, the last byte partly used.
pub const EPD_ROW_BYTES: usize = 32;

/// Bytes in the framebuffer: one full row stride for each row.
pub const EPD_BUFFER_SIZE: usize = 3904;

/// The row stride is the width in pixels divided by eight, rounded up, and the
/// buffer holds exactly one stride per row.
pub proof fn lemma_geometry()
    ensures
        EPD_ROW_BYTES == (EPD_WIDTH + 7) / 8,
        EPD_BUFFER_SIZE == EPD_ROW_BYTES * EPD_HEIGHT,
{
}

} // verus!
