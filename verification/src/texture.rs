//! The decoded texture image as the loop consumes it.
//!
//! An image decoder turns the texture file into a width, a height and a
//! contiguous buffer of RGB bytes; that triple is all this core ever
//! reads of it. The type here checks the one invariant that upload to
//! the driver depends on: the buffer holds exactly three bytes per
//! pixel.

use vstd::prelude::*;

verus! {

/// A decoded RGB image: `width * height` pixels, three bytes each, rows
/// contiguous.
pub struct TextureImage {
    pub width: u32,
    pub height: u32,
    pub pixels: Vec<u8>,
}

impl TextureImage {
    /// The invariant upload relies on: exactly three bytes per pixel.
    pub open spec fn well_formed(&self) -> bool {
        self.pixels@.len() == 3 * self.width * self.height
    }

    /// Accepts a decoded image if and only if the buffer length matches
    /// the dimensions at three bytes per pixel.
    pub fn new(width: u32, height: u32, pixels: Vec<u8>) -> (r: Option<TextureImage>)
        ensures
            r is Some <==> pixels@.len() == 3 * width * height,
            r matches Some(t) ==> {
                &&& t.width == width
                &&& t.height == height
                &&& t.pixels@ == pixels@
                &&& t.well_formed()
            },
    {
        let w: u64 = width as u64;
        let h: u64 = height as u64;
        proof {
            assert(w * h <= 0xffff_ffff_ffff_ffffu64) by (nonlinear_arith)
                requires
                    w <= 0xffff_ffffu64,
                    h <= 0xffff_ffffu64,
            ;
        }
        let wh: u64 = w * h;
        let expected: u128 = 3u128 * (wh as u128);
        proof {
            assert(wh == width * height);
            assert(3 * ((width * height) as int) == 3 * width * height) by (nonlinear_arith);
            assert(expected == 3 * width * height);
        }
        if (pixels.len() as u128) == expected {
            Some(TextureImage { width, height, pixels })
        } else {
            None
        }
    }

    /// The number of bytes the driver reads at upload.
    pub fn byte_len(&self) -> (n: usize)
        ensures
            n == self.pixels@.len(),
    {
        self.pixels.len()
    }
}

} // verus!
