use vstd::prelude::*;

verus! {

use crate::geometry::MAX_RHO_BOUND;

/// An immutable single-channel intensity image: a `width x height` grid of
/// samples in `0..=255`, stored row-major (`data[y * width + x]`).  The
/// side bound keeps flat index arithmetic within `usize`; it admits both
/// source images and rendered accumulators (whose height can reach the
/// diagonal bound).
pub struct GreyImage {
    pub width: usize,
    pub height: usize,
    pub data: Vec<u8>,
}

impl GreyImage {
    pub open spec fn wf(self) -> bool {
        &&& self.data@.len() == self.width * self.height
        &&& self.width <= MAX_RHO_BOUND
        &&& self.height <= MAX_RHO_BOUND
    }

    /// The intensity sample at `(x, y)`.
    pub open spec fn pixel(self, x: int, y: int) -> u8 {
        self.data@[y * self.width + x]
    }

    /// Wraps a row-major sample buffer, accepting it exactly when its length
    /// matches the dimensions and both sides are within [`MAX_RHO_BOUND`].
    pub fn new(width: usize, height: usize, data: Vec<u8>) -> (r: Option<GreyImage>)
        ensures
            r is Some <==> data@.len() == width * height && width <= MAX_RHO_BOUND && height
                <= MAX_RHO_BOUND,
            r matches Some(img) ==> img.wf() && img.width == width && img.height == height
                && img.data@ == data@,
    {
        if width > MAX_RHO_BOUND || height > MAX_RHO_BOUND {
            return None;
        }
        proof {
            assert((width as int) * (height as int) <= 0x8000_2000) by (nonlinear_arith)
                requires
                    width <= 46341,
                    height <= 46341,
            ;
        }
        if data.len() != width * height {
            return None;
        }
        Some(GreyImage { width, height, data })
    }

    pub fn width(&self) -> (w: usize)
        ensures
            w == self.width,
    {
        self.width
    }

    pub fn height(&self) -> (h: usize)
        ensures
            h == self.height,
    {
        self.height
    }

    /// Reads the sample at `(x, y)`.
    pub fn get(&self, x: usize, y: usize) -> (p: u8)
        requires
            self.wf(),
            x < self.width,
            y < self.height,
        ensures
            p == self.pixel(x as int, y as int),
    {
        proof {
            assert((y as int) * (self.width as int) + (x as int) < (self.width as int) * (
            self.height as int) && (y as int) * (self.width as int) + (x as int)
                < 0x8000_2000) by (nonlinear_arith)
                requires
                    x < self.width,
                    y < self.height,
                    self.width <= 46341,
                    self.height <= 46341,
            ;
        }
        self.data[y * self.width + x]
    }
}

} // verus!
