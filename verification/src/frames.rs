//! Static monochrome sprites composited over the animation.
use vstd::prelude::*;

verus! {

/// A sprite: `width` x `height` pixels, with a mask plane and an add plane
/// packed eight horizontal pixels per byte, `(width + 7) / 8` bytes per row.
/// Compositing clears the masked bits of a framebuffer byte and sets the add
/// bits.
#[derive(Clone, Debug)]
pub struct Frame {
    pub width: usize,
    pub height: usize,
    pub mask: Vec<u8>,
    pub add: Vec<u8>,
}

impl Frame {
    /// Bytes per sprite row.
    pub open spec fn spec_row_bytes(&self) -> int {
        (self.width + 7) / 8
    }

    /// The sprite fits the 32 x 128 display and its planes cover it exactly.
    pub open spec fn wf(&self) -> bool {
        &&& 0 < self.width <= 32
        &&& 0 < self.height <= 128
        &&& self.mask@.len() == self.spec_row_bytes() * self.height
        &&& self.add@.len() == self.spec_row_bytes() * self.height
    }

    /// Builds a sprite from its dimensions and planes.
    pub fn new(width: usize, height: usize, mask: Vec<u8>, add: Vec<u8>) -> (r: Frame)
        requires
            0 < width <= 32,
            0 < height <= 128,
            mask@.len() == ((width + 7) / 8) * height,
            add@.len() == ((width + 7) / 8) * height,
        ensures
            r.wf(),
            r.width == width,
            r.height == height,
            r.mask@ == mask@,
            r.add@ == add@,
    {
        Frame { width, height, mask, add }
    }
}

} // verus!
