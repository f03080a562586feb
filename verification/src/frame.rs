//! The frame buffer: 256 by 240 pixels, three bytes each, row by row.

use vstd::prelude::*;

verus! {

/// Pixels in one row.
pub const WIDTH: usize = 256;

/// Rows in one frame.
pub const HEIGHT: usize = 240;

/// Bytes in one frame.
pub const FRAME_BYTES: usize = 184320;

/// A frame of pixels, as red, green and blue bytes.
pub struct Frame {
    pub data: Vec<u8>,
}

/// Where the first byte of the pixel in column `x` of row `y` lies.
pub open spec fn pixel_offset(x: int, y: int) -> int {
    (y * WIDTH + x) * 3
}

impl Frame {
    /// The frame has all its bytes.
    pub open spec fn wf(&self) -> bool {
        self.data@.len() == FRAME_BYTES
    }

    /// Whether the frame has a pixel in column `x` of row `y`.
    pub open spec fn contains(x: int, y: int) -> bool {
        0 <= x < WIDTH && 0 <= y < HEIGHT
    }

    /// The colour of the pixel in column `x` of row `y`.
    #[verifier::opaque]
    pub open spec fn pixel(&self, x: int, y: int) -> (u8, u8, u8) {
        let base = pixel_offset(x, y);
        (self.data@[base], self.data@[base + 1], self.data@[base + 2])
    }

    /// A frame with every byte 0.
    pub fn new() -> (r: Self)
        ensures
            r.wf(),
            forall|x: int, y: int| Self::contains(x, y) ==> #[trigger] r.pixel(x, y) == (0u8, 0u8, 0u8),
    {
        let mut data: Vec<u8> = Vec::new();
        let mut i: usize = 0;
        while i < FRAME_BYTES
            invariant
                i <= FRAME_BYTES,
                data@.len() == i,
                forall|k: int| 0 <= k < i ==> data@[k] == 0,
            decreases FRAME_BYTES - i,
        {
            data.push(0);
            i = i + 1;
        }
        let r = Frame { data };
        proof {
            reveal(Frame::pixel);
            assert forall|x: int, y: int| Self::contains(x, y) implies #[trigger] r.pixel(x, y) == (
                0u8,
                0u8,
                0u8,
            ) by {
                assert(0 <= pixel_offset(x, y) && pixel_offset(x, y) + 2 < FRAME_BYTES);
            }
        }
        r
    }

    /// Gives the pixel in column `x` of row `y` the colour `rgb`. A pixel
    /// outside the frame is dropped.
    pub fn set_pixel(&mut self, x: usize, y: usize, rgb: (u8, u8, u8))
        requires
            old(self).wf(),
        ensures
            final(self).wf(),
            !Self::contains(x as int, y as int) ==> final(self).data@ == old(self).data@,
            forall|px: int, py: int|
                Self::contains(px, py) ==> #[trigger] final(self).pixel(px, py) == (if px == x && py
                    == y {
                    rgb
                } else {
                    old(self).pixel(px, py)
                }),
    {
        if x < WIDTH && y < HEIGHT {
            let base = (y * WIDTH + x) * 3;
            self.data[base] = rgb.0;
            self.data[base + 1] = rgb.1;
            self.data[base + 2] = rgb.2;
            proof {
                reveal(Frame::pixel);
                assert forall|px: int, py: int| Self::contains(px, py) implies #[trigger] self.pixel(
                    px,
                    py,
                ) == (if px == x && py == y {
                    rgb
                } else {
                    old(self).pixel(px, py)
                }) by {
                    let other = pixel_offset(px, py);
                    assert(0 <= other && other + 2 < FRAME_BYTES);
                    if !(px == x && py == y) {
                        assert(py * WIDTH + px != y * WIDTH + x);
                        assert(other + 2 < base || base + 2 < other);
                    }
                }
            }
        }
    }

    /// The colour of the pixel in column `x` of row `y`.
    pub fn get_pixel(&self, x: usize, y: usize) -> (r: (u8, u8, u8))
        requires
            self.wf(),
            Self::contains(x as int, y as int),
        ensures
            r == self.pixel(x as int, y as int),
    {
        proof {
            reveal(Frame::pixel);
        }
        let base = (y * WIDTH + x) * 3;
        (self.data[base], self.data[base + 1], self.data[base + 2])
    }
}

} // verus!
