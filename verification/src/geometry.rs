//! Sizes and rectangles, in whole pixels.

use vstd::prelude::*;

verus! {

/// Width of the region read back from the destination surface each frame.
pub const READ_BACK_WIDTH: u32 = 1920;

/// Height of the region read back from the destination surface each frame.
pub const READ_BACK_HEIGHT: u32 = 1080;

/// Bytes per pixel sample of a snapshot (red, green, blue, alpha).
pub const BYTES_PER_PIXEL: u32 = 4;

/// Width and height of a canvas, as the page reports them.
#[derive(Clone, Copy, Debug, PartialEq, Eq, Structural)]
pub struct CanvasSize {
    pub width: u32,
    pub height: u32,
}

/// An axis-aligned rectangle: its top-left corner and its extent.
#[derive(Clone, Copy, Debug, PartialEq, Eq, Structural)]
pub struct Rect {
    pub x: u32,
    pub y: u32,
    pub width: u32,
    pub height: u32,
}

impl Rect {
    /// The rectangle from the origin that covers a whole canvas of `size`.
    pub open spec fn covering(size: CanvasSize) -> Rect {
        Rect { x: 0, y: 0, width: size.width, height: size.height }
    }

    /// The region that every frame reads back: fixed, whatever the size of
    /// the destination canvas.
    pub open spec fn read_back() -> Rect {
        Rect { x: 0, y: 0, width: READ_BACK_WIDTH, height: READ_BACK_HEIGHT }
    }

    /// Number of bytes in a row-major RGBA8 snapshot of this rectangle.
    pub open spec fn spec_snapshot_len(self) -> nat {
        (self.width as nat) * (self.height as nat) * (BYTES_PER_PIXEL as nat)
    }

    /// Number of bytes in a row-major RGBA8 snapshot of this rectangle:
    /// width times height times four.
    pub fn snapshot_len(&self) -> (len: u128)
        ensures
            len == self.spec_snapshot_len(),
    {
        let w: u128 = self.width as u128;
        let h: u128 = self.height as u128;
        assert(w * h <= 0xffff_fffe_0000_0001) by (nonlinear_arith)
            requires
                0 <= w <= 0xffff_ffff,
                0 <= h <= 0xffff_ffff,
        ;
        let pixels: u128 = w * h;
        assert(pixels * 4 <= 0x3_ffff_fff8_0000_0004);
        pixels * (BYTES_PER_PIXEL as u128)
    }
}

/// The rectangle of the destination that a frame draws the source into:
/// the whole destination, at its size of the moment. The size of the source
/// plays no part.
pub fn scale_target(destination: CanvasSize) -> (target: Rect)
    ensures
        target == Rect::covering(destination),
{
    Rect { x: 0, y: 0, width: destination.width, height: destination.height }
}

/// The region of the destination that a frame reads back.
pub fn read_back_region() -> (region: Rect)
    ensures
        region == Rect::read_back(),
{
    Rect { x: 0, y: 0, width: READ_BACK_WIDTH, height: READ_BACK_HEIGHT }
}

} // verus!
