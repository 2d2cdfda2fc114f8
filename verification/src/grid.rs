//! Dense single-channel image buffer with boundary-clamped addressing.
//!
//! A grid holds `width * height` samples in row-major order; each sample is
//! the bit pattern of an IEEE-754 single-precision value. Reads at any signed
//! coordinate clamp to the nearest valid row and column (replicate-border
//! policy).
use vstd::prelude::*;

verus! {

/// Mathematical model of a pixel grid: its dimensions and the row-major
/// sequence of sample bit patterns.
#[verifier::ext_equal]
pub struct GridModel {
    pub width: int,
    pub height: int,
    pub data: Seq<u32>,
}

/// Well-formedness: the buffer holds exactly `width * height` samples and
/// each dimension fits a signed 32-bit coordinate.
pub open spec fn grid_wf(g: GridModel) -> bool {
    &&& g.data.len() == g.width * g.height
    &&& 0 <= g.width <= 0x7FFF_FFFF
    &&& 0 <= g.height <= 0x7FFF_FFFF
}

/// Clamps a coordinate to the inclusive range `[0, hi]`.
pub open spec fn clamp_coord(v: int, hi: int) -> int {
    if v < 0 {
        0
    } else if v > hi {
        hi
    } else {
        v
    }
}

/// The sample at signed coordinate `(x, y)` after replicate-border clamping.
pub open spec fn sample(g: GridModel, x: int, y: int) -> u32 {
    g.data[clamp_coord(x, g.width - 1) + clamp_coord(y, g.height - 1) * g.width]
}

/// Dense single-channel image buffer. Immutable once constructed: every
/// transform produces a new grid.
pub struct Pixels {
    width: usize,
    height: usize,
    data: Vec<u32>,
}

impl View for Pixels {
    type V = GridModel;

    closed spec fn view(&self) -> GridModel {
        GridModel { width: self.width as int, height: self.height as int, data: self.data@ }
    }
}

impl Pixels {
    /// Builds a grid from explicit dimensions and a flat row-major buffer.
    /// The buffer length must equal `width * height`; a mismatch is a caller
    /// error, not a recoverable condition.
    pub fn new_with_data(width: usize, height: usize, data: Vec<u32>) -> (r: Pixels)
        requires
            data@.len() == width * height,
            width <= 0x7FFF_FFFF,
            height <= 0x7FFF_FFFF,
        ensures
            r@ == (GridModel { width: width as int, height: height as int, data: data@ }),
            grid_wf(r@),
    {
        Pixels { width, height, data }
    }

    pub fn width(&self) -> (r: usize)
        ensures
            r == self@.width,
    {
        self.width
    }

    pub fn height(&self) -> (r: usize)
        ensures
            r == self@.height,
    {
        self.height
    }

    /// Read-only access to the flat row-major sample buffer.
    pub fn data(&self) -> (r: &Vec<u32>)
        ensures
            r@ == self@.data,
    {
        &self.data
    }

    /// The sample at signed coordinate `(x, y)`, with out-of-bounds
    /// coordinates clamped to the nearest valid row and column.
    pub fn get(&self, x: i32, y: i32) -> (r: u32)
        requires
            grid_wf(self@),
            self@.width >= 1,
            self@.height >= 1,
        ensures
            r == sample(self@, x as int, y as int),
    {
        let wm1: i32 = (self.width - 1) as i32;
        let hm1: i32 = (self.height - 1) as i32;
        let xc: i32 = if x < 0 {
            0
        } else if x > wm1 {
            wm1
        } else {
            x
        };
        let yc: i32 = if y < 0 {
            0
        } else if y > hm1 {
            hm1
        } else {
            y
        };
        let n = self.data.len();
        proof {
            let gw = self@.width;
            let gh = self@.height;
            let xi = xc as int;
            let yi = yc as int;
            assert(xi + yi * gw < gw * gh && 0 <= yi * gw < gw * gh) by (nonlinear_arith)
                requires
                    0 <= xi < gw,
                    0 <= yi < gh,
            ;
            assert(n == gw * gh);
        }
        let idx: usize = (xc as usize) + (yc as usize) * self.width;
        self.data[idx]
    }
}

} // verus!
