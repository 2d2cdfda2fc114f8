//! Assembly of the dense disparity map.
//!
//! Three strategies share one contract: a sequential row-major reference
//! pass, a fine-grained data-parallel map over every pixel, and a
//! coarse-grained partition of the rows into equal bands. Each returns
//! exactly [`disp_map_spec`], so the parallel strategies are proved to
//! produce the sequential output, element for element.
use vstd::prelude::*;
use vstd::arithmetic::div_mod::lemma_fundamental_div_mod;
use vstd::arithmetic::div_mod::lemma_mod_division_less_than_divisor;
use vstd::arithmetic::div_mod::lemma_multiply_divide_lt;
use rayon::iter::IntoParallelIterator;
use rayon::iter::ParallelIterator;
use crate::fbits::div_bits;
use crate::fbits::float_of_u32;
use crate::fbits::div_f32;
use crate::fbits::u32_to_f32;
use crate::grid::GridModel;
use crate::grid::Pixels;
use crate::grid::grid_wf;
use crate::zncc::best_disp_spec;
use crate::zncc::search_req;
use crate::zncc::best_zncc;

verus! {

/// What a disparity-map computation needs of its inputs: two well-formed
/// grids of identical non-empty dimensions, a positive window that keeps the
/// window arithmetic inside signed 32-bit coordinates, and a positive
/// disparity range.
pub open spec fn disp_req(l: GridModel, rg: GridModel, w: int, max_d: int) -> bool {
    &&& grid_wf(l)
    &&& grid_wf(rg)
    &&& l.width == rg.width
    &&& l.height == rg.height
    &&& l.width >= 1
    &&& l.height >= 1
    &&& 1 <= w
    &&& w * w <= 0x7FFF_FFFF
    &&& l.width + w <= 0x7FFF_FFFF
    &&& l.height + w <= 0x7FFF_FFFF
    &&& 1 <= max_d <= 0x3FFF_FFFF
}

/// The output sample at flat index `i`: the best disparity at pixel
/// `(i % width, i / width)`, divided (in IEEE-754 single precision) by the
/// disparity range, so the value lies in `[0, (max_d - 1) / max_d]`.
pub open spec fn disp_at(l: GridModel, rg: GridModel, w: int, max_d: int, i: int) -> u32 {
    div_bits(
        float_of_u32(best_disp_spec(l, rg, i % l.width, i / l.width, w, max_d) as u32),
        float_of_u32(max_d as u32),
    )
}

/// The disparity map: a grid of the input dimensions whose every sample is
/// [`disp_at`] of its flat index.
pub open spec fn disp_map_spec(l: GridModel, rg: GridModel, w: int, max_d: int) -> GridModel {
    GridModel {
        width: l.width,
        height: l.height,
        data: Seq::new((l.width * l.height) as nat, |i: int| disp_at(l, rg, w, max_d, i)),
    }
}

/// Law: every sample of the disparity map is some disparity `d` in
/// `[0, max_d)`, converted to single precision and divided by `max_d` — so
/// the map's values lie in `[0, (max_d - 1) / max_d]`, inside `[0, 1)`.
pub proof fn lemma_disp_map_entry(l: GridModel, rg: GridModel, w: int, max_d: int, i: int)
    requires
        max_d >= 1,
        0 <= i < l.width * l.height,
    ensures
        exists|d: int|
            0 <= d < max_d && disp_map_spec(l, rg, w, max_d).data[i] == div_bits(
                #[trigger] float_of_u32(d as u32),
                float_of_u32(max_d as u32),
            ),
{
    crate::zncc::lemma_best_disp_in_range(l, rg, i % l.width, i / l.width, w, max_d);
    let d = best_disp_spec(l, rg, i % l.width, i / l.width, w, max_d);
    assert(0 <= d < max_d && disp_map_spec(l, rg, w, max_d).data[i] == div_bits(
        float_of_u32(d as u32),
        float_of_u32(max_d as u32),
    ));
}

/// The disparity sample at flat index `i`: runs the ZNCC search at pixel
/// `(i % width, i / width)` and normalizes the winner by `max_d`.
#[verifier::loop_isolation(false)]
pub fn disp_pixel(l_pix: &Pixels, r_pix: &Pixels, w: i32, max_d: usize, i: usize) -> (r: u32)
    requires
        disp_req(l_pix@, r_pix@, w as int, max_d as int),
        i < l_pix@.width * l_pix@.height,
    ensures
        r == disp_at(l_pix@, r_pix@, w as int, max_d as int, i as int),
{
    let width = l_pix.width();
    let x = i % width;
    let y = i / width;
    proof {
        lemma_mod_division_less_than_divisor(i as int, width as int);
        lemma_multiply_divide_lt(i as int, width as int, l_pix@.height);
        let wi = w as int;
        assert(wi <= 46341) by (nonlinear_arith)
            requires
                1 <= wi,
                wi * wi <= 0x7FFF_FFFF,
        ;
        assert(search_req(l_pix@, r_pix@, x as int, y as int, w as int, max_d as int));
    }
    let b = best_zncc(l_pix, r_pix, x as i32, y as i32, w, max_d);
    div_f32(u32_to_f32(b as u32), u32_to_f32(max_d as u32))
}

/// Sequential reference pass: every pixel in row-major order.
#[verifier::loop_isolation(false)]
pub fn best_disp_map_seq(l_pix: &Pixels, r_pix: &Pixels, w: i32, max_disp: usize) -> (out: Pixels)
    requires
        disp_req(l_pix@, r_pix@, w as int, max_disp as int),
    ensures
        out@ == disp_map_spec(l_pix@, r_pix@, w as int, max_disp as int),
{
    let width = l_pix.width();
    let height = l_pix.height();
    let n = l_pix.data().len();
    let mut buf: Vec<u32> = Vec::new();
    let mut i: usize = 0;
    while i < n
        invariant
            i <= n,
            buf@.len() == i as int,
            forall|j: int|
                0 <= j < i ==> buf@[j] == disp_at(l_pix@, r_pix@, w as int, max_disp as int, j),
        decreases n - i,
    {
        let v = disp_pixel(l_pix, r_pix, w, max_disp, i);
        buf.push(v);
        i = i + 1;
    }
    let out = Pixels::new_with_data(width, height, buf);
    proof {
        assert(out@.data =~= disp_map_spec(l_pix@, r_pix@, w as int, max_disp as int).data);
        assert(out@ =~= disp_map_spec(l_pix@, r_pix@, w as int, max_disp as int));
    }
    out
}

/// Relies on rayon's parallel iterator `map` over `0..len` followed by
/// `collect` into a `Vec`, which assembles the mapped values in index
/// order, not completion order; every element is computed by the verified
/// [`disp_pixel`].
#[verifier::external_body]
fn par_disp_pixels(
    l_pix: &Pixels,
    r_pix: &Pixels,
    w: i32,
    max_disp: usize,
    len: usize,
) -> (out: Vec<u32>)
    requires
        disp_req(l_pix@, r_pix@, w as int, max_disp as int),
        len == l_pix@.width * l_pix@.height,
    ensures
        out@.len() == len,
        forall|i: int|
            0 <= i < len ==> out@[i] == disp_at(l_pix@, r_pix@, w as int, max_disp as int, i),
{
    (0..len).into_par_iter().map(|i| disp_pixel(l_pix, r_pix, w, max_disp, i)).collect()
}

/// Fine-grained strategy: every output pixel is an independent parallel
/// task over the two read-only input grids. `threads` is validated as a
/// configuration value (the row count must split evenly), but scheduling is
/// left to the data-parallel pool. The output equals the sequential
/// reference map.
pub fn best_disp_map(
    l_pix: Pixels,
    r_pix: Pixels,
    w: i32,
    max_disp: usize,
    threads: usize,
) -> (out: Pixels)
    requires
        disp_req(l_pix@, r_pix@, w as int, max_disp as int),
        threads >= 1,
        l_pix@.height % (threads as int) == 0,
    ensures
        out@ == disp_map_spec(l_pix@, r_pix@, w as int, max_disp as int),
{
    let width = l_pix.width();
    let height = l_pix.height();
    let len = l_pix.data().len();
    let buf = par_disp_pixels(&l_pix, &r_pix, w, max_disp, len);
    let out = Pixels::new_with_data(width, height, buf);
    proof {
        assert(out@.data =~= disp_map_spec(l_pix@, r_pix@, w as int, max_disp as int).data);
        assert(out@ =~= disp_map_spec(l_pix@, r_pix@, w as int, max_disp as int));
    }
    out
}

/// One horizontal band of the disparity map: the rows `y0 .. y0 + rows`,
/// as the matching contiguous slice of the full map.
#[verifier::loop_isolation(false)]
pub fn disp_band(
    l_pix: &Pixels,
    r_pix: &Pixels,
    w: i32,
    max_disp: usize,
    y0: usize,
    rows: usize,
) -> (out: Vec<u32>)
    requires
        disp_req(l_pix@, r_pix@, w as int, max_disp as int),
        y0 + rows <= l_pix@.height,
    ensures
        out@ == disp_map_spec(l_pix@, r_pix@, w as int, max_disp as int).data.subrange(
            y0 as int * l_pix@.width,
            (y0 + rows) as int * l_pix@.width,
        ),
{
    let width = l_pix.width();
    let height = l_pix.height();
    let n = l_pix.data().len();
    proof {
        let gw = l_pix@.width;
        let gh = l_pix@.height;
        let y0i = y0 as int;
        let ri = rows as int;
        assert((y0i + ri) * gw <= gw * gh && y0i * gw + ri * gw == (y0i + ri) * gw && 0 <= y0i * gw
            && 0 <= ri * gw) by (nonlinear_arith)
            requires
                0 <= y0i,
                0 <= ri,
                0 <= gw,
                y0i + ri <= gh,
        ;
        assert(n == gw * gh);
    }
    let start = y0 * width;
    let m = rows * width;
    let ghost dm = disp_map_spec(l_pix@, r_pix@, w as int, max_disp as int).data;
    let mut buf: Vec<u32> = Vec::new();
    let mut j: usize = 0;
    while j < m
        invariant
            j <= m,
            buf@.len() == j as int,
            forall|jj: int|
                0 <= jj < j ==> buf@[jj] == disp_at(
                    l_pix@,
                    r_pix@,
                    w as int,
                    max_disp as int,
                    start + jj,
                ),
        decreases m - j,
    {
        let v = disp_pixel(l_pix, r_pix, w, max_disp, start + j);
        buf.push(v);
        j = j + 1;
    }
    proof {
        assert(buf@ =~= dm.subrange(y0 as int * l_pix@.width, (y0 + rows) as int * l_pix@.width));
    }
    buf
}

/// Relies on rayon's parallel iterator `map` over the band indices
/// `0..threads` followed by `collect`, which assembles the bands in index
/// order, not completion order; each band is computed by the verified
/// [`disp_band`] with `y0 = b * band_rows`.
#[verifier::external_body]
fn par_disp_bands(
    l_pix: &Pixels,
    r_pix: &Pixels,
    w: i32,
    max_disp: usize,
    threads: usize,
    band_rows: usize,
) -> (out: Vec<Vec<u32>>)
    requires
        disp_req(l_pix@, r_pix@, w as int, max_disp as int),
        threads >= 1,
        (band_rows as int) * (threads as int) == l_pix@.height,
    ensures
        out@.len() == threads,
        forall|b: int|
            0 <= b < threads ==> out@[b]@ == disp_map_spec(
                l_pix@,
                r_pix@,
                w as int,
                max_disp as int,
            ).data.subrange(
                b * (band_rows as int) * l_pix@.width,
                (b + 1) * (band_rows as int) * l_pix@.width,
            ),
{
    (0..threads)
        .into_par_iter()
        .map(|b| disp_band(l_pix, r_pix, w, max_disp, b * band_rows, band_rows))
        .collect()
}

/// Coarse-grained strategy: splits the rows into `threads` equal contiguous
/// bands (`height % threads == 0` is a precondition — an unequal division
/// is a configuration error), computes every band in parallel over shared
/// read-only grids, and concatenates the bands in band order. The output
/// equals the sequential reference map.
#[verifier::loop_isolation(false)]
pub fn best_disp_map_bands(
    l_pix: Pixels,
    r_pix: Pixels,
    w: i32,
    max_disp: usize,
    threads: usize,
) -> (out: Pixels)
    requires
        disp_req(l_pix@, r_pix@, w as int, max_disp as int),
        1 <= threads <= l_pix@.height,
        l_pix@.height % (threads as int) == 0,
    ensures
        out@ == disp_map_spec(l_pix@, r_pix@, w as int, max_disp as int),
{
    let width = l_pix.width();
    let height = l_pix.height();
    let n = l_pix.data().len();
    let band_rows = height / threads;
    proof {
        lemma_fundamental_div_mod(height as int, threads as int);
        let gw = l_pix@.width;
        let gh = l_pix@.height;
        let bi = band_rows as int;
        let ti = threads as int;
        assert(bi * ti == gh) by (nonlinear_arith)
            requires
                gh == ti * bi + gh % ti,
                gh % ti == 0,
        ;
        assert(bi * gw <= gh * gw && gh * gw == gw * gh) by (nonlinear_arith)
            requires
                0 <= bi,
                0 <= gw,
                0 <= gh,
                bi <= gh,
        ;
        assert(n == gw * gh);
    }
    let band_len = band_rows * width;
    let bands = par_disp_bands(&l_pix, &r_pix, w, max_disp, threads, band_rows);
    let ghost dm = disp_map_spec(l_pix@, r_pix@, w as int, max_disp as int).data;
    proof {
        assert(dm.len() == l_pix@.width * l_pix@.height);
    }
    let mut buf: Vec<u32> = Vec::new();
    let mut b: usize = 0;
    while b < threads
        invariant
            b <= threads,
            buf@.len() == b as int * band_len as int,
            0 <= b as int * band_len as int <= dm.len(),
            buf@ == dm.take(b as int * band_len as int),
        decreases threads - b,
    {
        proof {
            let gw = l_pix@.width;
            let gh = l_pix@.height;
            let bi = band_rows as int;
            let ti = threads as int;
            let ki = b as int;
            let bl = band_len as int;
            assert(ki * bl + bl == (ki + 1) * bl && (ki + 1) * bl <= ti * bl && ti * bl == gw * gh
                && ki * bl == ki * bi * gw && (ki + 1) * bl == (ki + 1) * bi * gw) by (
            nonlinear_arith)
                requires
                    0 <= ki < ti,
                    bl == bi * gw,
                    bi * ti == gh,
                    0 <= gw,
                    0 <= bi,
            ;
        }
        let band = &bands[b];
        let mut j: usize = 0;
        while j < band_len
            invariant
                j <= band_len,
                buf@.len() == b as int * band_len as int + j as int,
                buf@ == dm.take(b as int * band_len as int + j as int),
            decreases band_len - j,
        {
            let v = band[j];
            proof {
                let k = b as int * band_len as int + j as int;
                assert(band@[j as int] == dm[k]);
                assert(dm.take(k + 1) =~= dm.take(k).push(dm[k]));
            }
            buf.push(v);
            j = j + 1;
        }
        b = b + 1;
    }
    proof {
        let gw = l_pix@.width;
        let gh = l_pix@.height;
        let bi = band_rows as int;
        let ti = threads as int;
        let bl = band_len as int;
        assert(ti * bl == gw * gh) by (nonlinear_arith)
            requires
                bl == bi * gw,
                bi * ti == gh,
        ;
        assert(buf@ =~= dm);
    }
    let out = Pixels::new_with_data(width, height, buf);
    proof {
        assert(out@ =~= disp_map_spec(l_pix@, r_pix@, w as int, max_disp as int));
    }
    out
}

} // verus!
