use vstd::prelude::*;

verus! {

/// Raw pixels read from a window: `width` by `height` pixels of four bytes
/// each (R, G, B, A), rows top to bottom, pixels left to right.
#[derive(Clone, Debug)]
pub struct CapturedImage {
    pub width: u32,
    pub height: u32,
    pub rgba: Vec<u8>,
}

/// An image of these dimensions and this many bytes is well formed: both
/// sides are positive and there are exactly four bytes per pixel.
pub open spec fn image_shape_ok(width: u32, height: u32, len: nat) -> bool {
    &&& width > 0
    &&& height > 0
    &&& len == 4 * (width as int) * (height as int)
}

impl CapturedImage {
    pub open spec fn well_formed(&self) -> bool {
        image_shape_ok(self.width, self.height, self.rgba@.len())
    }

    /// Tells whether the image is well formed.
    pub fn is_well_formed(&self) -> (r: bool)
        ensures
            r == self.well_formed(),
    {
        let w = self.width as u128;
        let h = self.height as u128;
        assert(w * h <= 0xffff_ffff * 0xffff_ffff) by (nonlinear_arith)
            requires
                w <= 0xffff_ffff,
                h <= 0xffff_ffff,
        ;
        let expected: u128 = 4 * (w * h);
        assert(expected == 4 * (self.width as int) * (self.height as int)) by (nonlinear_arith)
            requires
                expected == 4 * (w * h),
                w == self.width,
                h == self.height,
        ;
        self.width > 0 && self.height > 0 && self.rgba.len() as u128 == expected
    }
}

} // verus!
