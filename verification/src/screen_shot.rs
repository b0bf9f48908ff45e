//! The screenshot page: a drawing area showing a pre-rendered chart
//! bitmap.
//!
//! The chart itself is drawn by the plotting backend into an RGBA
//! buffer; the page's geometry — the bitmap's dimensions, the buffer
//! size the backend needs, and the row stride the canvas reads it with
//! — is fixed here.

use vstd::prelude::*;

verus! {

/// Bytes per RGBA pixel.
pub const BYTES_PER_PIXEL: u32 = 4;

/// Width of the chart bitmap, in pixels.
pub const CHART_WIDTH: u32 = 600;

/// Height of the chart bitmap, in pixels.
pub const CHART_HEIGHT: u32 = 400;

/// The screenshot page and the geometry of its chart bitmap.
pub struct ScreenShot {
    width: u32,
    height: u32,
}

impl ScreenShot {
    /// The page always shows the chart at its fixed size.
    #[verifier::type_invariant]
    spec fn fixed_size(self) -> bool {
        self.width == CHART_WIDTH && self.height == CHART_HEIGHT
    }

    /// The bitmap's dimensions, width by height, in pixels.
    pub closed spec fn dimensions(&self) -> (u32, u32) {
        (self.width, self.height)
    }

    /// A screenshot page at the fixed chart size.
    pub fn new() -> (r: ScreenShot)
        ensures
            r.dimensions() == (CHART_WIDTH, CHART_HEIGHT),
    {
        ScreenShot { width: CHART_WIDTH, height: CHART_HEIGHT }
    }

    /// The bitmap's width, in pixels.
    pub fn width(&self) -> (r: u32)
        ensures
            r == self.dimensions().0,
    {
        self.width
    }

    /// The bitmap's height, in pixels.
    pub fn height(&self) -> (r: u32)
        ensures
            r == self.dimensions().1,
    {
        self.height
    }

    /// How many bytes the RGBA buffer for the bitmap takes.
    pub fn buffer_len(&self) -> (r: u64)
        ensures
            r == self.dimensions().0 * self.dimensions().1 * BYTES_PER_PIXEL,
    {
        proof {
            use_type_invariant(&*self);
            assert(CHART_WIDTH * CHART_HEIGHT * BYTES_PER_PIXEL == 960000) by (nonlinear_arith)
                requires
                    CHART_WIDTH == 600,
                    CHART_HEIGHT == 400,
                    BYTES_PER_PIXEL == 4,
            ;
        }
        (CHART_WIDTH as u64) * (CHART_HEIGHT as u64) * (BYTES_PER_PIXEL as u64)
    }

    /// How many bytes one row of the bitmap takes.
    pub fn stride(&self) -> (r: u64)
        ensures
            r == self.dimensions().0 * BYTES_PER_PIXEL,
    {
        proof {
            use_type_invariant(&*self);
            assert(CHART_WIDTH * BYTES_PER_PIXEL == 2400) by (nonlinear_arith)
                requires
                    CHART_WIDTH == 600,
                    BYTES_PER_PIXEL == 4,
            ;
        }
        (CHART_WIDTH as u64) * (BYTES_PER_PIXEL as u64)
    }
}

} // verus!
