//! Zero-mean normalized cross-correlation (ZNCC) between a left window and a
//! horizontally shifted right window, and the search for the disparity with
//! the best score.
//!
//! The search keeps a candidate only when its score is strictly greater than
//! the best seen so far, starting from (score = +0.0, disparity = 0). Three
//! observable consequences are part of the contract: ties keep the smaller
//! disparity, a NaN score never wins (the IEEE less-than is false on NaN),
//! and when every candidate is NaN or at most +0.0 the result stays 0.
use vstd::prelude::*;
use crate::fbits::add_bits;
use crate::fbits::sub_bits;
use crate::fbits::mul_bits;
use crate::fbits::div_bits;
use crate::fbits::lt_bits;
use crate::fbits::add_f32;
use crate::fbits::sub_f32;
use crate::fbits::mul_f32;
use crate::fbits::div_f32;
use crate::fbits::lt_f32;
use crate::grid::GridModel;
use crate::grid::Pixels;
use crate::grid::sample;
use crate::stats::win_lo;
use crate::stats::mean_bits;
use crate::stats::energy_norm_bits;
use crate::stats::window_req;
use crate::stats::mean_window;
use crate::stats::energy_norm_window;

verus! {

/// Running IEEE-754 sum, in row-major order from positive zero, of the
/// products of deviations: left sample minus `lm` times the right sample
/// `disp` columns to the left minus `rm`, over the `w` by `w` block whose
/// top-left corner is `(x0, y0)`.
pub open spec fn prod_win(
    l: GridModel,
    rg: GridModel,
    x0: int,
    y0: int,
    w: int,
    disp: int,
    lm: u32,
    rm: u32,
    r: int,
    c: int,
) -> u32
    decreases r, c,
{
    if c > 0 {
        add_bits(
            prod_win(l, rg, x0, y0, w, disp, lm, rm, r, c - 1),
            mul_bits(
                sub_bits(sample(l, x0 + c - 1, y0 + r), lm),
                sub_bits(sample(rg, x0 + c - 1 - disp, y0 + r), rm),
            ),
        )
    } else if r > 0 {
        prod_win(l, rg, x0, y0, w, disp, lm, rm, r - 1, w)
    } else {
        0u32
    }
}

/// The ZNCC score at disparity `disp` for the window centered at `(cx, cy)`,
/// given the left window's mean `lm`. The right mean is taken at the same
/// center — only the scanned samples are shifted. The numerator is divided
/// first by the left window's energy norm, then by the energy norm of the
/// right window centered `disp` columns to the left. A zero-energy window
/// makes this 0/0, a NaN.
pub open spec fn zncc_bits(
    l: GridModel,
    rg: GridModel,
    cx: int,
    cy: int,
    w: int,
    disp: int,
    lm: u32,
) -> u32 {
    let rm = mean_bits(rg, cx, cy, w);
    let num = prod_win(l, rg, win_lo(cx, w), win_lo(cy, w), w, disp, lm, rm, w - 1, w);
    div_bits(
        div_bits(num, energy_norm_bits(l, cx, cy, w)),
        energy_norm_bits(rg, cx - disp, cy, w),
    )
}

/// The ZNCC score of candidate disparity `d`, with the left mean computed
/// once from the left window, as the search does.
pub open spec fn zncc_candidate(
    l: GridModel,
    rg: GridModel,
    cx: int,
    cy: int,
    w: int,
    d: int,
) -> u32 {
    zncc_bits(l, rg, cx, cy, w, d, mean_bits(l, cx, cy, w))
}

/// What one ZNCC evaluation needs of its inputs: valid windows in both
/// grids, a non-negative shift, and room for the shifted column arithmetic.
pub open spec fn zncc_req(
    l: GridModel,
    rg: GridModel,
    cx: int,
    cy: int,
    w: int,
    disp: int,
) -> bool {
    &&& window_req(l, cx, cy, w)
    &&& window_req(rg, cx, cy, w)
    &&& 0 <= disp
    &&& cx - w - disp >= -0x8000_0000
}

/// State of the disparity search after its first `k` candidates: the best
/// score's bit pattern and the best disparity, starting from
/// (+0.0, 0). Candidate `d` replaces the state exactly when its score is
/// strictly greater (IEEE less-than of the held score and the candidate).
pub open spec fn best_pair(
    l: GridModel,
    rg: GridModel,
    cx: int,
    cy: int,
    w: int,
    k: int,
) -> (u32, int)
    decreases k,
{
    if k <= 0 {
        (0u32, 0int)
    } else {
        let prev = best_pair(l, rg, cx, cy, w, k - 1);
        if lt_bits(prev.0, zncc_candidate(l, rg, cx, cy, w, k - 1)) {
            (zncc_candidate(l, rg, cx, cy, w, k - 1), k - 1)
        } else {
            prev
        }
    }
}

/// The disparity the search returns after scanning `0 .. max_d`.
pub open spec fn best_disp_spec(
    l: GridModel,
    rg: GridModel,
    cx: int,
    cy: int,
    w: int,
    max_d: int,
) -> int {
    best_pair(l, rg, cx, cy, w, max_d).1
}

/// Law: the disparity the search holds after `k` candidates lies in
/// `[0, k)`, and is the default 0 while no candidate has been scanned — so
/// the returned disparity always lies in `[0, max_d)` for a non-empty
/// range, and is 0 otherwise.
pub proof fn lemma_best_disp_in_range(
    l: GridModel,
    rg: GridModel,
    cx: int,
    cy: int,
    w: int,
    k: int,
)
    ensures
        0 <= best_pair(l, rg, cx, cy, w, k).1,
        k >= 1 ==> best_pair(l, rg, cx, cy, w, k).1 < k,
        k <= 0 ==> best_pair(l, rg, cx, cy, w, k).1 == 0,
    decreases k,
{
    if k > 0 {
        lemma_best_disp_in_range(l, rg, cx, cy, w, k - 1);
    }
}

/// What the disparity search needs of its inputs.
pub open spec fn search_req(
    l: GridModel,
    rg: GridModel,
    cx: int,
    cy: int,
    w: int,
    max_d: int,
) -> bool {
    &&& window_req(l, cx, cy, w)
    &&& window_req(rg, cx, cy, w)
    &&& 0 <= max_d <= 0x3FFF_FFFF
    &&& cx - w - max_d >= -0x8000_0000
}

/// The ZNCC score between the window centered at `(cx, cy)` in the left
/// grid and the window of the right grid whose scanned samples sit `disp`
/// columns to the left, given the left window's mean `l_mean`.
#[verifier::loop_isolation(false)]
pub fn zncc_window(
    l_pix: &Pixels,
    r_pix: &Pixels,
    cx: i32,
    cy: i32,
    w: i32,
    disp: i32,
    l_mean: u32,
) -> (r: u32)
    requires
        zncc_req(l_pix@, r_pix@, cx as int, cy as int, w as int, disp as int),
    ensures
        r == zncc_bits(l_pix@, r_pix@, cx as int, cy as int, w as int, disp as int, l_mean),
{
    let r_mean = mean_window(r_pix, cx, cy, w);
    let d = w / 2;
    let x0 = cx - d;
    let y0 = cy - d;
    let mut acc: u32 = 0;
    let mut row: i32 = 0;
    while row < w
        invariant
            0 <= row <= w,
            acc == prod_win(
                l_pix@,
                r_pix@,
                x0 as int,
                y0 as int,
                w as int,
                disp as int,
                l_mean,
                r_mean,
                row as int,
                0,
            ),
        decreases w - row,
    {
        let mut col: i32 = 0;
        while col < w
            invariant
                0 <= col <= w,
                0 <= row < w,
                acc == prod_win(
                    l_pix@,
                    r_pix@,
                    x0 as int,
                    y0 as int,
                    w as int,
                    disp as int,
                    l_mean,
                    r_mean,
                    row as int,
                    col as int,
                ),
            decreases w - col,
        {
            let lv = l_pix.get(x0 + col, y0 + row);
            let rv = r_pix.get(x0 + col - disp, y0 + row);
            acc = add_f32(acc, mul_f32(sub_f32(lv, l_mean), sub_f32(rv, r_mean)));
            col = col + 1;
        }
        row = row + 1;
    }
    assert(prod_win(
        l_pix@,
        r_pix@,
        x0 as int,
        y0 as int,
        w as int,
        disp as int,
        l_mean,
        r_mean,
        w as int,
        0,
    ) == prod_win(
        l_pix@,
        r_pix@,
        x0 as int,
        y0 as int,
        w as int,
        disp as int,
        l_mean,
        r_mean,
        w as int - 1,
        w as int,
    ));
    let el = energy_norm_window(l_pix, cx, cy, w);
    let er = energy_norm_window(r_pix, cx - disp, cy, w);
    div_f32(div_f32(acc, el), er)
}

/// Scans disparities `0 .. max_d` and returns the one whose ZNCC score is
/// strictly greater than every earlier candidate's, starting from the
/// default (score +0.0, disparity 0). The contract carries the three laws of
/// the search: the result lies in `[0, max_d)` (or is 0 when the range is
/// empty); when two candidates score equal bit patterns the later one is
/// never returned; and when no candidate is strictly above +0.0 (NaN scores
/// included, since IEEE less-than is false on NaN) the result is 0.
#[verifier::loop_isolation(false)]
pub fn best_zncc(
    l_pix: &Pixels,
    r_pix: &Pixels,
    cx: i32,
    cy: i32,
    w: i32,
    max_d: usize,
) -> (best: usize)
    requires
        search_req(l_pix@, r_pix@, cx as int, cy as int, w as int, max_d as int),
    ensures
        best as int == best_disp_spec(l_pix@, r_pix@, cx as int, cy as int, w as int, max_d as int),
        max_d >= 1 ==> best < max_d,
        max_d == 0 ==> best == 0,
        forall|d1: int, d2: int|
            0 <= d1 < d2 < max_d && zncc_candidate(l_pix@, r_pix@, cx as int, cy as int, w as int, d1)
                == zncc_candidate(l_pix@, r_pix@, cx as int, cy as int, w as int, d2)
                ==> best as int != d2,
        (forall|d: int|
            0 <= d < max_d ==> !lt_bits(
                0u32,
                zncc_candidate(l_pix@, r_pix@, cx as int, cy as int, w as int, d),
            )) ==> best == 0,
{
    let l_mean = mean_window(l_pix, cx, cy, w);
    let mut best_s: u32 = 0;
    let mut best_d: usize = 0;
    let mut disp: usize = 0;
    while disp < max_d
        invariant
            0 <= disp <= max_d,
            best_s == best_pair(l_pix@, r_pix@, cx as int, cy as int, w as int, disp as int).0,
            best_d as int == best_pair(l_pix@, r_pix@, cx as int, cy as int, w as int, disp as int).1,
            disp == 0 ==> best_d == 0,
            disp >= 1 ==> best_d < disp,
            forall|d: int|
                0 <= d < disp ==> !lt_bits(
                    best_s,
                    #[trigger] zncc_candidate(l_pix@, r_pix@, cx as int, cy as int, w as int, d),
                ) || best_s == zncc_candidate(l_pix@, r_pix@, cx as int, cy as int, w as int, d),
            forall|d1: int, d2: int|
                0 <= d1 < d2 < disp && zncc_candidate(l_pix@, r_pix@, cx as int, cy as int, w as int, d1)
                    == zncc_candidate(l_pix@, r_pix@, cx as int, cy as int, w as int, d2)
                    ==> best_d as int != d2,
            (forall|d: int|
                0 <= d < disp ==> !lt_bits(
                    0u32,
                    #[trigger] zncc_candidate(l_pix@, r_pix@, cx as int, cy as int, w as int, d),
                )) ==> (best_s == 0u32 && best_d == 0),
        decreases max_d - disp,
    {
        let z = zncc_window(l_pix, r_pix, cx, cy, w, disp as i32, l_mean);
        let ghost k = disp as int;
        let ghost zc = zncc_candidate(l_pix@, r_pix@, cx as int, cy as int, w as int, k);
        proof {
            assert(z == zc);
        }
        let better = lt_f32(best_s, z);
        if better {
            proof {
                assert forall|d: int| 0 <= d < k implies !lt_bits(
                    zc,
                    #[trigger] zncc_candidate(l_pix@, r_pix@, cx as int, cy as int, w as int, d),
                ) || zc == zncc_candidate(l_pix@, r_pix@, cx as int, cy as int, w as int, d) by {
                    let cd = zncc_candidate(l_pix@, r_pix@, cx as int, cy as int, w as int, d);
                    if lt_bits(zc, cd) {
                        assert(lt_bits(best_s, cd));
                    }
                }
            }
            best_s = z;
            best_d = disp;
        }
        disp = disp + 1;
    }
    best_d
}

} // verus!
