//! Addressing windows: the part of the controller's RAM an update writes.
//!
//! The controller addresses its RAM in byte columns of eight pixels and in
//! single rows. A window is given by its first and last byte column and its
//! first and last row, all inclusive.

use vstd::prelude::*;
use vstd::arithmetic::div_mod::lemma_fundamental_div_mod_converse;
use vstd::math::min;
use crate::panel::{EPD_BUFFER_SIZE, EPD_HEIGHT, EPD_ROW_BYTES, EPD_WIDTH};

verus! {

/// A rectangle of controller RAM, in byte columns and rows, bounds inclusive.
#[derive(Clone, Copy, Debug, PartialEq, Eq, Structural)]
pub struct Window {
    /// First byte column.
    pub x_start: u8,
    /// Last byte column.
    pub x_end: u8,
    /// First row.
    pub y_start: u16,
    /// Last row.
    pub y_end: u16,
}

/// Whether a pixel rectangle with corner `(x, y)`, `w` pixels wide and `h`
/// high, has at least one pixel on the panel.
pub open spec fn rect_on_panel(x: u16, y: u16, w: u16, h: u16) -> bool {
    x < EPD_WIDTH && y < EPD_HEIGHT && w > 0 && h > 0
}

/// Last pixel column of the rectangle after clamping to the panel.
pub open spec fn clamped_x_end(x: u16, w: u16) -> int {
    min(x + w, EPD_WIDTH as int) - 1
}

/// Last row of the rectangle after clamping to the panel.
pub open spec fn clamped_y_end(y: u16, h: u16) -> int {
    min(y + h, EPD_HEIGHT as int) - 1
}

/// The window that covers the part of a pixel rectangle that lies on the
/// panel: columns are divided by eight, rows are kept.
pub open spec fn rect_window(x: u16, y: u16, w: u16, h: u16) -> Window {
    Window {
        x_start: (x / 8) as u8,
        x_end: (clamped_x_end(x, w) / 8) as u8,
        y_start: y,
        y_end: clamped_y_end(y, h) as u16,
    }
}

/// Low byte of a row number, as the controller's row registers take it.
pub open spec fn low_byte(v: u16) -> u8 {
    (v % 256) as u8
}

/// High byte of a row number.
pub open spec fn high_byte(v: u16) -> u8 {
    (v / 256) as u8
}

/// The byte of the image at `idx`, or white where the image has no such byte.
pub open spec fn byte_or_white(buf: Seq<u8>, idx: int) -> u8 {
    if 0 <= idx < buf.len() {
        buf[idx]
    } else {
        0xFF
    }
}

impl Window {
    /// A window is well formed when it is not empty and lies on the panel.
    pub open spec fn wf(&self) -> bool {
        &&& self.x_start <= self.x_end
        &&& self.x_end * 8 < EPD_WIDTH
        &&& self.y_start <= self.y_end
        &&& self.y_end < EPD_HEIGHT
    }

    /// Number of byte columns.
    pub open spec fn cols(&self) -> int {
        self.x_end - self.x_start + 1
    }

    /// Number of rows.
    pub open spec fn rows(&self) -> int {
        self.y_end - self.y_start + 1
    }

    /// Framebuffer index of the `k`-th byte of the window in row-major order.
    pub open spec fn index_of(&self, k: int) -> int {
        (self.y_start + k / self.cols()) * EPD_ROW_BYTES + self.x_start + k % self.cols()
    }

    /// The bytes of the image that fall in the window, row by row, each row
    /// from its first to its last byte column.
    pub open spec fn bytes_of(&self, buf: Seq<u8>) -> Seq<u8> {
        Seq::new(
            (self.rows() * self.cols()) as nat,
            |k: int| byte_or_white(buf, self.index_of(k)),
        )
    }

    /// The window that spans the whole panel.
    pub open spec fn whole() -> Window {
        Window {
            x_start: 0,
            x_end: ((EPD_WIDTH - 1) / 8) as u8,
            y_start: 0,
            y_end: (EPD_HEIGHT - 1) as u16,
        }
    }

    /// The window for a pixel rectangle with corner `(x, y)`, `w` pixels wide
    /// and `h` high, clamped to the panel. There is none if no pixel of the
    /// rectangle is on the panel.
    pub fn from_rect(x: u16, y: u16, w: u16, h: u16) -> (win: Option<Window>)
        ensures
            win.is_some() == rect_on_panel(x, y, w, h),
            win.is_some() ==> win.unwrap() == rect_window(x, y, w, h),
            win.is_some() ==> win.unwrap().wf(),
    {
        if x >= EPD_WIDTH as u16 || y >= EPD_HEIGHT as u16 || w == 0 || h == 0 {
            return None;
        }
        let right: u32 = x as u32 + w as u32;
        let below: u32 = y as u32 + h as u32;
        let xe: u32 = if right < EPD_WIDTH as u32 {
            right - 1
        } else {
            EPD_WIDTH as u32 - 1
        };
        let ye: u32 = if below < EPD_HEIGHT as u32 {
            below - 1
        } else {
            EPD_HEIGHT as u32 - 1
        };
        Some(
            Window {
                x_start: (x / 8) as u8,
                x_end: (xe / 8) as u8,
                y_start: y,
                y_end: ye as u16,
            },
        )
    }
}

/// The window that spans the whole panel is the one a rectangle covering the
/// panel clamps to, and its bytes are the whole framebuffer in order.
pub proof fn lemma_whole_window(buf: Seq<u8>)
    requires
        buf.len() == EPD_BUFFER_SIZE,
    ensures
        Window::whole().wf(),
        Window::whole() == rect_window(0, 0, 250, 122),
        Window::whole().bytes_of(buf) == buf,
{
    let win = Window::whole();
    assert(win.cols() == 32 && win.rows() == 122);
    assert forall|k: int| 0 <= k < 3904 implies win.index_of(k) == k by {
        assert(k == 32 * (k / 32) + k % 32);
    }
    assert(win.bytes_of(buf) =~= buf);
}

/// In a well-formed window, the byte in row `r` and byte column `c` of the
/// window, counted from its corner, is number `r * cols + c` in row-major
/// order, and it lies inside the framebuffer.
pub proof fn lemma_window_position(win: Window, r: int, c: int)
    requires
        win.wf(),
        0 <= r < win.rows(),
        0 <= c < win.cols(),
    ensures
        0 <= r * win.cols() + c < win.rows() * win.cols(),
        win.index_of(r * win.cols() + c) == (win.y_start + r) * EPD_ROW_BYTES + win.x_start + c,
        0 <= win.index_of(r * win.cols() + c) < EPD_BUFFER_SIZE,
{
    let cols = win.cols();
    let k = r * cols + c;
    assert(0 <= r * cols && r * cols + cols <= win.rows() * cols) by (nonlinear_arith)
        requires
            0 <= r,
            r + 1 <= win.rows(),
            cols > 0,
    ;
    lemma_fundamental_div_mod_converse(k, cols, r, c);
}

} // verus!
