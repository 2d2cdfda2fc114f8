//! Block-average downsampling: trades resolution for throughput.
//!
//! The output dimensions are the truncated `width / ratio` by
//! `height / ratio`; trailing rows and columns that do not fill a whole
//! block are dropped, not padded. Each output sample is the mean of its
//! `ratio` by `ratio` source block, summed in row-major IEEE-754 order and
//! divided by `ratio * ratio`.
use vstd::prelude::*;
use vstd::arithmetic::div_mod::lemma_fundamental_div_mod;
use vstd::arithmetic::div_mod::lemma_mod_division_less_than_divisor;
use vstd::arithmetic::div_mod::lemma_multiply_divide_lt;
use rayon::iter::IntoParallelIterator;
use rayon::iter::ParallelIterator;
use crate::fbits::div_bits;
use crate::fbits::float_of_u32;
use crate::fbits::div_f32;
use crate::fbits::u32_to_f32;
use crate::grid::GridModel;
use crate::grid::Pixels;
use crate::grid::grid_wf;
use crate::stats::block_sum;
use crate::stats::sum_block;

verus! {

/// What a downsampling needs of its inputs: a well-formed grid and a
/// positive ratio whose square fits the signed 32-bit divisor.
pub open spec fn resize_req(g: GridModel, ratio: int) -> bool {
    &&& grid_wf(g)
    &&& 1 <= ratio
    &&& ratio * ratio <= 0x7FFF_FFFF
}

/// The mean of the `ratio` by `ratio` block whose top-left source corner is
/// `(ox * ratio, oy * ratio)`: the row-major IEEE-754 block sum divided by
/// `ratio * ratio`.
pub open spec fn block_mean_bits(g: GridModel, ratio: int, ox: int, oy: int) -> u32 {
    div_bits(
        block_sum(g, ox * ratio, oy * ratio, ratio),
        float_of_u32((ratio * ratio) as u32),
    )
}

/// The downsampled grid: `width / ratio` by `height / ratio`, every sample
/// the mean of its source block.
pub open spec fn resize_spec(g: GridModel, ratio: int) -> GridModel {
    GridModel {
        width: g.width / ratio,
        height: g.height / ratio,
        data: Seq::new(
            ((g.width / ratio) * (g.height / ratio)) as nat,
            |i: int| block_mean_bits(g, ratio, i % (g.width / ratio), i / (g.width / ratio)),
        ),
    }
}

/// The downsampled sample at flat output index `i`.
#[verifier::loop_isolation(false)]
pub fn resize_pixel(px: &Pixels, ratio: usize, i: usize) -> (r: u32)
    requires
        resize_req(px@, ratio as int),
        i < (px@.width / ratio as int) * (px@.height / ratio as int),
    ensures
        r == block_mean_bits(
            px@,
            ratio as int,
            (i as int) % (px@.width / ratio as int),
            (i as int) / (px@.width / ratio as int),
        ),
{
    let width = px.width();
    let height = px.height();
    let nw = width / ratio;
    let nh = height / ratio;
    proof {
        let gw = px@.width;
        let gh = px@.height;
        let rt = ratio as int;
        let nwi = nw as int;
        let nhi = nh as int;
        assert(nwi >= 1 && nhi >= 1) by (nonlinear_arith)
            requires
                (i as int) < nwi * nhi,
                0 <= i as int,
                0 <= nwi,
                0 <= nhi,
        ;
        lemma_mod_division_less_than_divisor(i as int, nwi);
        lemma_multiply_divide_lt(i as int, nwi, nhi);
        lemma_fundamental_div_mod(gw, rt);
        lemma_fundamental_div_mod(gh, rt);
        let oxi = (i as int) % nwi;
        let oyi = (i as int) / nwi;
        assert(oxi * rt + rt <= gw && oyi * rt + rt <= gh && 0 <= oxi * rt && 0 <= oyi * rt
            && rt <= rt * rt) by (nonlinear_arith)
            requires
                0 <= oxi < nwi,
                0 <= oyi < nhi,
                1 <= rt,
                gw >= rt * nwi,
                gh >= rt * nhi,
        ;
    }
    let ox = i % nw;
    let oy = i / nw;
    let x0 = ox * ratio;
    let y0 = oy * ratio;
    let s = sum_block(px, x0 as i32, y0 as i32, ratio as i32);
    let denom = u32_to_f32((ratio * ratio) as u32);
    div_f32(s, denom)
}

/// Relies on rayon's parallel iterator `map` over `0..len` followed by
/// `collect` into a `Vec`, which assembles the mapped values in index
/// order, not completion order; every element is computed by the verified
/// [`resize_pixel`].
#[verifier::external_body]
fn par_resize_pixels(px: &Pixels, ratio: usize, len: usize) -> (out: Vec<u32>)
    requires
        resize_req(px@, ratio as int),
        len == (px@.width / ratio as int) * (px@.height / ratio as int),
    ensures
        out@.len() == len,
        forall|i: int|
            0 <= i < len ==> out@[i] == block_mean_bits(
                px@,
                ratio as int,
                i % (px@.width / ratio as int),
                i / (px@.width / ratio as int),
            ),
{
    (0..len).into_par_iter().map(|i| resize_pixel(px, ratio, i)).collect()
}

/// Block-averages the grid by the integer `ratio`: the output is
/// `width / ratio` by `height / ratio` (truncating), and each output pixel
/// is the mean of its `ratio` by `ratio` source block, every pixel an
/// independent parallel task over the read-only source.
pub fn resize_pixels(px: &Pixels, ratio: usize) -> (out: Pixels)
    requires
        resize_req(px@, ratio as int),
    ensures
        out@ == resize_spec(px@, ratio as int),
{
    let width = px.width();
    let height = px.height();
    let n = px.data().len();
    let nw = width / ratio;
    let nh = height / ratio;
    proof {
        let gw = px@.width;
        let gh = px@.height;
        let nwi = nw as int;
        let nhi = nh as int;
        lemma_fundamental_div_mod(gw, ratio as int);
        lemma_fundamental_div_mod(gh, ratio as int);
        assert(nwi <= gw && nhi <= gh && nwi * nhi <= gw * gh) by (nonlinear_arith)
            requires
                0 <= nwi,
                0 <= nhi,
                1 <= ratio as int,
                gw >= (ratio as int) * nwi,
                gh >= (ratio as int) * nhi,
                0 <= gw,
                0 <= gh,
        ;
        assert(n == gw * gh);
    }
    let len = nw * nh;
    let buf = par_resize_pixels(px, ratio, len);
    let out = Pixels::new_with_data(nw, nh, buf);
    proof {
        assert(out@.data =~= resize_spec(px@, ratio as int).data);
        assert(out@ =~= resize_spec(px@, ratio as int));
    }
    out
}

} // verus!
