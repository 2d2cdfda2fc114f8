//! Windowed statistics: the local mean and the local centered-energy norm
//! over a square window, with replicate-border clamping.
//!
//! Every quantity is defined by the exact IEEE-754 single-precision
//! computation that produces it: a running sum in row-major order starting
//! from positive zero, so the contracts pin down the result bit for bit.
use vstd::prelude::*;
use crate::fbits::add_bits;
use crate::fbits::sub_bits;
use crate::fbits::mul_bits;
use crate::fbits::div_bits;
use crate::fbits::sqrt_bits;
use crate::fbits::float_of_u32;
use crate::fbits::add_f32;
use crate::fbits::sub_f32;
use crate::fbits::mul_f32;
use crate::fbits::div_f32;
use crate::fbits::sqrt_f32;
use crate::fbits::u32_to_f32;
use crate::grid::GridModel;
use crate::grid::Pixels;
use crate::grid::grid_wf;
use crate::grid::sample;

verus! {

/// Leftmost column (or topmost row) of a window of size `w` centered at `c`.
pub open spec fn win_lo(c: int, w: int) -> int {
    c - w / 2
}

/// Running IEEE-754 sum of the clamped samples of the `w`-wide square block
/// whose top-left corner is `(x0, y0)`: all samples of the rows before `r`
/// and the first `c` samples of row `r`, added in row-major order starting
/// from positive zero.
pub open spec fn sum_win(g: GridModel, x0: int, y0: int, w: int, r: int, c: int) -> u32
    decreases r, c,
{
    if c > 0 {
        add_bits(sum_win(g, x0, y0, w, r, c - 1), sample(g, x0 + c - 1, y0 + r))
    } else if r > 0 {
        sum_win(g, x0, y0, w, r - 1, w)
    } else {
        0u32
    }
}

/// The IEEE-754 sum of the whole `w` by `w` block at `(x0, y0)`.
pub open spec fn block_sum(g: GridModel, x0: int, y0: int, w: int) -> u32 {
    sum_win(g, x0, y0, w, w - 1, w)
}

/// The window mean: the block sum divided by `w * w` (as a single-precision
/// value). The divisor is always `w * w`, however many distinct samples the
/// clamping touched, so border windows are biased toward the edge value by
/// design.
pub open spec fn mean_bits(g: GridModel, cx: int, cy: int, w: int) -> u32 {
    div_bits(
        block_sum(g, win_lo(cx, w), win_lo(cy, w), w),
        float_of_u32((w * w) as u32),
    )
}

/// Running IEEE-754 sum of the squared deviations of the block's samples
/// from `m`, in the same row-major order as `sum_win`.
pub open spec fn sq_dev_win(g: GridModel, x0: int, y0: int, w: int, m: u32, r: int, c: int) -> u32
    decreases r, c,
{
    if c > 0 {
        add_bits(
            sq_dev_win(g, x0, y0, w, m, r, c - 1),
            mul_bits(
                sub_bits(sample(g, x0 + c - 1, y0 + r), m),
                sub_bits(sample(g, x0 + c - 1, y0 + r), m),
            ),
        )
    } else if r > 0 {
        sq_dev_win(g, x0, y0, w, m, r - 1, w)
    } else {
        0u32
    }
}

/// The centered-energy norm of the window: the square root of the sum of
/// squared deviations from the window mean. This is the plain L2 norm of the
/// mean-subtracted window — it is not divided by the sample count, so it is
/// not a standard deviation; it is exactly the denominator term that the
/// normalized cross-correlation needs.
pub open spec fn energy_norm_bits(g: GridModel, cx: int, cy: int, w: int) -> u32 {
    sqrt_bits(
        sq_dev_win(g, win_lo(cx, w), win_lo(cy, w), w, mean_bits(g, cx, cy, w), w - 1, w),
    )
}

/// What a single window computation needs of its inputs: a well-formed,
/// non-empty grid, a positive window size, and coordinates far enough from
/// the signed 32-bit limits that the window's column and row arithmetic
/// cannot overflow.
pub open spec fn window_req(g: GridModel, cx: int, cy: int, w: int) -> bool {
    &&& grid_wf(g)
    &&& g.width >= 1
    &&& g.height >= 1
    &&& 1 <= w
    &&& w * w <= 0x7FFF_FFFF
    &&& cx - w >= -0x8000_0000
    &&& cx + w <= 0x7FFF_FFFF
    &&& cy - w >= -0x8000_0000
    &&& cy + w <= 0x7FFF_FFFF
}

/// IEEE-754 sum of the `w` by `w` block of clamped samples whose top-left
/// corner is `(x0, y0)`, in row-major order.
#[verifier::loop_isolation(false)]
pub(crate) fn sum_block(pixels: &Pixels, x0: i32, y0: i32, w: i32) -> (r: u32)
    requires
        grid_wf(pixels@),
        pixels@.width >= 1,
        pixels@.height >= 1,
        1 <= w,
        x0 + w <= 0x7FFF_FFFF,
        y0 + w <= 0x7FFF_FFFF,
    ensures
        r == block_sum(pixels@, x0 as int, y0 as int, w as int),
{
    let mut acc: u32 = 0;
    let mut row: i32 = 0;
    while row < w
        invariant
            0 <= row <= w,
            acc == sum_win(pixels@, x0 as int, y0 as int, w as int, row as int, 0),
        decreases w - row,
    {
        let mut col: i32 = 0;
        while col < w
            invariant
                0 <= col <= w,
                0 <= row < w,
                acc == sum_win(pixels@, x0 as int, y0 as int, w as int, row as int, col as int),
            decreases w - col,
        {
            let s = pixels.get(x0 + col, y0 + row);
            acc = add_f32(acc, s);
            col = col + 1;
        }
        row = row + 1;
    }
    assert(sum_win(pixels@, x0 as int, y0 as int, w as int, w as int, 0) == block_sum(
        pixels@,
        x0 as int,
        y0 as int,
        w as int,
    ));
    acc
}

/// The mean of the `w` by `w` window centered at `(cx, cy)`: the row-major
/// IEEE-754 sum of the clamped samples, divided by `w * w`.
pub fn mean_window(pixels: &Pixels, cx: i32, cy: i32, w: i32) -> (r: u32)
    requires
        window_req(pixels@, cx as int, cy as int, w as int),
    ensures
        r == mean_bits(pixels@, cx as int, cy as int, w as int),
{
    let d = w / 2;
    let s = sum_block(pixels, cx - d, cy - d, w);
    let denom = u32_to_f32((w * w) as u32);
    div_f32(s, denom)
}

/// The centered-energy norm of the `w` by `w` window centered at `(cx, cy)`:
/// `sqrt(sum((sample - mean)^2))` over the clamped window, in row-major
/// IEEE-754 arithmetic. Zero on any constant window, since every deviation
/// is zero.
#[verifier::loop_isolation(false)]
pub fn energy_norm_window(pixels: &Pixels, cx: i32, cy: i32, w: i32) -> (r: u32)
    requires
        window_req(pixels@, cx as int, cy as int, w as int),
    ensures
        r == energy_norm_bits(pixels@, cx as int, cy as int, w as int),
{
    let m = mean_window(pixels, cx, cy, w);
    let d = w / 2;
    let x0 = cx - d;
    let y0 = cy - d;
    let mut acc: u32 = 0;
    let mut row: i32 = 0;
    while row < w
        invariant
            0 <= row <= w,
            acc == sq_dev_win(pixels@, x0 as int, y0 as int, w as int, m, row as int, 0),
        decreases w - row,
    {
        let mut col: i32 = 0;
        while col < w
            invariant
                0 <= col <= w,
                0 <= row < w,
                acc == sq_dev_win(pixels@, x0 as int, y0 as int, w as int, m, row as int, col as int),
            decreases w - col,
        {
            let s = pixels.get(x0 + col, y0 + row);
            let dev = sub_f32(s, m);
            acc = add_f32(acc, mul_f32(dev, dev));
            col = col + 1;
        }
        row = row + 1;
    }
    assert(sq_dev_win(pixels@, x0 as int, y0 as int, w as int, m, w as int, 0) == sq_dev_win(
        pixels@,
        x0 as int,
        y0 as int,
        w as int,
        m,
        w as int - 1,
        w as int,
    ));
    sqrt_f32(acc)
}

/// What a whole-grid filter needs of its inputs: a well-formed, non-empty
/// grid and a positive window that keeps every pixel's window arithmetic
/// inside signed 32-bit coordinates.
pub open spec fn filter_req(g: GridModel, w: int) -> bool {
    &&& grid_wf(g)
    &&& g.width >= 1
    &&& g.height >= 1
    &&& 1 <= w
    &&& w * w <= 0x7FFF_FFFF
    &&& g.width + w <= 0x7FFF_FFFF
    &&& g.height + w <= 0x7FFF_FFFF
}

/// The mean filter: a grid of the input dimensions whose sample at flat
/// index `i` is the window mean centered at `(i % width, i / width)`.
pub open spec fn mean_filter_spec(g: GridModel, w: int) -> GridModel {
    GridModel {
        width: g.width,
        height: g.height,
        data: Seq::new(
            (g.width * g.height) as nat,
            |i: int| mean_bits(g, i % g.width, i / g.width, w),
        ),
    }
}

/// The energy-norm filter: a grid of the input dimensions whose sample at
/// flat index `i` is the window's centered-energy norm at
/// `(i % width, i / width)`.
pub open spec fn energy_norm_filter_spec(g: GridModel, w: int) -> GridModel {
    GridModel {
        width: g.width,
        height: g.height,
        data: Seq::new(
            (g.width * g.height) as nat,
            |i: int| energy_norm_bits(g, i % g.width, i / g.width, w),
        ),
    }
}

/// The per-pixel window coordinates are valid window centers.
proof fn lemma_filter_pixel_req(g: GridModel, w: int, i: int)
    requires
        filter_req(g, w),
        0 <= i < g.width * g.height,
    ensures
        window_req(g, i % g.width, i / g.width, w),
        0 <= i % g.width < g.width,
        0 <= i / g.width < g.height,
{
    vstd::arithmetic::div_mod::lemma_mod_division_less_than_divisor(i, g.width);
    vstd::arithmetic::div_mod::lemma_multiply_divide_lt(i, g.width, g.height);
    assert(w <= 46341) by (nonlinear_arith)
        requires
            1 <= w,
            w * w <= 0x7FFF_FFFF,
    ;
}

/// Applies the window mean at every pixel: a new grid of the same
/// dimensions, each sample the mean of its window in the source.
#[verifier::loop_isolation(false)]
pub fn mean_filter(pixels: &Pixels, w: i32) -> (out: Pixels)
    requires
        filter_req(pixels@, w as int),
    ensures
        out@ == mean_filter_spec(pixels@, w as int),
{
    let width = pixels.width();
    let n = pixels.data().len();
    let mut buf: Vec<u32> = Vec::new();
    let mut i: usize = 0;
    while i < n
        invariant
            i <= n,
            buf@.len() == i as int,
            forall|j: int|
                0 <= j < i ==> buf@[j] == mean_bits(
                    pixels@,
                    j % pixels@.width,
                    j / pixels@.width,
                    w as int,
                ),
        decreases n - i,
    {
        proof {
            lemma_filter_pixel_req(pixels@, w as int, i as int);
        }
        let x = i % width;
        let y = i / width;
        let v = mean_window(pixels, x as i32, y as i32, w);
        buf.push(v);
        i = i + 1;
    }
    let out = Pixels::new_with_data(width, pixels.height(), buf);
    proof {
        assert(out@.data =~= mean_filter_spec(pixels@, w as int).data);
        assert(out@ =~= mean_filter_spec(pixels@, w as int));
    }
    out
}

/// Applies the centered-energy norm at every pixel: a new grid of the same
/// dimensions, each sample the L2 norm of its mean-subtracted window.
#[verifier::loop_isolation(false)]
pub fn energy_norm_filter(pixels: &Pixels, w: i32) -> (out: Pixels)
    requires
        filter_req(pixels@, w as int),
    ensures
        out@ == energy_norm_filter_spec(pixels@, w as int),
{
    let width = pixels.width();
    let n = pixels.data().len();
    let mut buf: Vec<u32> = Vec::new();
    let mut i: usize = 0;
    while i < n
        invariant
            i <= n,
            buf@.len() == i as int,
            forall|j: int|
                0 <= j < i ==> buf@[j] == energy_norm_bits(
                    pixels@,
                    j % pixels@.width,
                    j / pixels@.width,
                    w as int,
                ),
        decreases n - i,
    {
        proof {
            lemma_filter_pixel_req(pixels@, w as int, i as int);
        }
        let x = i % width;
        let y = i / width;
        let v = energy_norm_window(pixels, x as i32, y as i32, w);
        buf.push(v);
        i = i + 1;
    }
    let out = Pixels::new_with_data(width, pixels.height(), buf);
    proof {
        assert(out@.data =~= energy_norm_filter_spec(pixels@, w as int).data);
        assert(out@ =~= energy_norm_filter_spec(pixels@, w as int));
    }
    out
}

} // verus!
