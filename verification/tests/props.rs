//! Behavior of the windowed statistics, the ZNCC search and the map
//! assembly, checked on concrete grids against a plain `f32` replication of
//! the same arithmetic.
use disparity::Pixels;
use disparity::mean_window;
use disparity::energy_norm_window;
use disparity::mean_filter;
use disparity::energy_norm_filter;
use disparity::zncc_window;
use disparity::best_zncc;

fn grid_from(width: usize, height: usize, vals: &[f32]) -> Pixels {
    assert_eq!(vals.len(), width * height);
    let bits: Vec<u32> = vals.iter().map(|v| v.to_bits()).collect();
    Pixels::new_with_data(width, height, bits)
}

fn constant_grid(width: usize, height: usize, v: f32) -> Pixels {
    grid_from(width, height, &vec![v; width * height])
}

fn ref_get(vals: &[f32], width: usize, height: usize, x: i32, y: i32) -> f32 {
    let xc = x.max(0).min(width as i32 - 1) as usize;
    let yc = y.max(0).min(height as i32 - 1) as usize;
    vals[xc + yc * width]
}

fn ref_mean(vals: &[f32], width: usize, height: usize, cx: i32, cy: i32, w: i32) -> f32 {
    let d = w / 2;
    let mut sum = 0.0f32;
    for row in cy - d..cy + d + 1 {
        for col in cx - d..cx + d + 1 {
            sum += ref_get(vals, width, height, col, row);
        }
    }
    sum / (w * w) as f32
}

fn ref_energy_norm(vals: &[f32], width: usize, height: usize, cx: i32, cy: i32, w: i32) -> f32 {
    let d = w / 2;
    let mean = ref_mean(vals, width, height, cx, cy, w);
    let mut sum = 0.0f32;
    for row in cy - d..cy + d + 1 {
        for col in cx - d..cx + d + 1 {
            let v = ref_get(vals, width, height, col, row);
            sum += (v - mean) * (v - mean);
        }
    }
    sum.sqrt()
}

fn ref_zncc(
    l: &[f32],
    r: &[f32],
    width: usize,
    height: usize,
    cx: i32,
    cy: i32,
    w: i32,
    disp: i32,
    l_mean: f32,
) -> f32 {
    let d = w / 2;
    let r_mean = ref_mean(r, width, height, cx, cy, w);
    let mut sum = 0.0f32;
    for row in cy - d..cy + d + 1 {
        for col in cx - d..cx + d + 1 {
            sum += (ref_get(l, width, height, col, row) - l_mean)
                * (ref_get(r, width, height, col - disp, row) - r_mean);
        }
    }
    sum / ref_energy_norm(l, width, height, cx, cy, w)
        / ref_energy_norm(r, width, height, cx - disp, cy, w)
}

fn ref_best(
    l: &[f32],
    r: &[f32],
    width: usize,
    height: usize,
    cx: i32,
    cy: i32,
    w: i32,
    max_d: usize,
) -> usize {
    let l_mean = ref_mean(l, width, height, cx, cy, w);
    let mut best_score = 0.0f32;
    let mut best = 0usize;
    for disp in 0..max_d {
        let z = ref_zncc(l, r, width, height, cx, cy, w, disp as i32, l_mean);
        if z > best_score {
            best_score = z;
            best = disp;
        }
    }
    best
}

fn dyadic_vals(width: usize, height: usize, a: usize, b: usize) -> Vec<f32> {
    (0..width * height).map(|i| ((i * a + b) % 64) as f32 / 64.0).collect()
}

#[test]
fn get_clamps_to_the_border() {
    let g = grid_from(2, 2, &[0.125, 0.25, 0.5, 0.75]);
    assert_eq!(g.get(0, 0), 0.125f32.to_bits());
    assert_eq!(g.get(1, 0), 0.25f32.to_bits());
    assert_eq!(g.get(-5, 0), 0.125f32.to_bits());
    assert_eq!(g.get(9, 0), 0.25f32.to_bits());
    assert_eq!(g.get(0, -3), 0.125f32.to_bits());
    assert_eq!(g.get(1, 7), 0.75f32.to_bits());
    assert_eq!(g.width(), 2);
    assert_eq!(g.height(), 2);
}

#[test]
fn constant_grid_mean_is_the_constant() {
    for &c in &[0.5f32, 0.25f32, 1.0f32] {
        let g = constant_grid(5, 4, c);
        for &w in &[1i32, 3, 5] {
            for &(x, y) in &[(2i32, 2i32), (0, 0), (4, 3), (0, 3), (4, 0)] {
                assert_eq!(mean_window(&g, x, y, w), c.to_bits());
            }
        }
    }
}

#[test]
fn constant_grid_energy_norm_is_zero() {
    for &c in &[0.5f32, 0.25f32, 1.0f32] {
        let g = constant_grid(5, 4, c);
        for &w in &[1i32, 3, 5] {
            for &(x, y) in &[(2i32, 2i32), (0, 0), (4, 3), (0, 3)] {
                assert_eq!(energy_norm_window(&g, x, y, w), 0.0f32.to_bits());
            }
        }
    }
}

#[test]
fn mean_window_matches_plain_f32_arithmetic() {
    let vals = dyadic_vals(4, 3, 37, 11);
    let g = grid_from(4, 3, &vals);
    for &(x, y) in &[(0i32, 0i32), (1, 1), (3, 2), (2, 0), (0, 2)] {
        let expect = ref_mean(&vals, 4, 3, x, y, 3);
        assert_eq!(mean_window(&g, x, y, 3), expect.to_bits());
    }
}

#[test]
fn energy_norm_matches_plain_f32_arithmetic() {
    let vals = dyadic_vals(4, 3, 29, 5);
    let g = grid_from(4, 3, &vals);
    for &(x, y) in &[(0i32, 0i32), (1, 1), (3, 2), (2, 0)] {
        let expect = ref_energy_norm(&vals, 4, 3, x, y, 3);
        assert_eq!(energy_norm_window(&g, x, y, 3), expect.to_bits());
    }
}

#[test]
fn zncc_matches_plain_f32_arithmetic() {
    let lv = dyadic_vals(8, 5, 37, 11);
    let rv = dyadic_vals(8, 5, 53, 7);
    let l = grid_from(8, 5, &lv);
    let r = grid_from(8, 5, &rv);
    for &(x, y) in &[(4i32, 2i32), (1, 1), (6, 3)] {
        let l_mean = ref_mean(&lv, 8, 5, x, y, 3);
        assert_eq!(mean_window(&l, x, y, 3), l_mean.to_bits());
        for disp in 0..3i32 {
            let expect = ref_zncc(&lv, &rv, 8, 5, x, y, 3, disp, l_mean);
            assert_eq!(zncc_window(&l, &r, x, y, 3, disp, l_mean.to_bits()), expect.to_bits());
        }
    }
}

#[test]
fn best_zncc_matches_plain_f32_search() {
    let lv = dyadic_vals(8, 6, 37, 11);
    let rv = dyadic_vals(8, 6, 53, 7);
    let l = grid_from(8, 6, &lv);
    let r = grid_from(8, 6, &rv);
    for y in 0..6i32 {
        for x in 0..8i32 {
            let got = best_zncc(&l, &r, x, y, 3, 4);
            assert_eq!(got, ref_best(&lv, &rv, 8, 6, x, y, 3, 4));
            assert!(got < 4);
        }
    }
}

#[test]
fn tie_break_returns_the_smaller_disparity() {
    // The right image repeats the left's one-hot feature at two shifts, so
    // the candidates at disparities 1 and 3 score bit-identical; the search
    // must keep 1.
    let mut lv = vec![0.0f32; 9 * 5];
    let mut rv = vec![0.0f32; 9 * 5];
    lv[5 + 2 * 9] = 1.0; // left feature at (5, 2)
    rv[4 + 2 * 9] = 1.0; // right feature at (4, 2): perfect match at disparity 1
    rv[2 + 2 * 9] = 1.0; // right feature at (2, 2): perfect match at disparity 3
    let l = grid_from(9, 5, &lv);
    let r = grid_from(9, 5, &rv);
    let l_mean_bits = mean_window(&l, 5, 2, 3);
    let z1 = zncc_window(&l, &r, 5, 2, 3, 1, l_mean_bits);
    let z3 = zncc_window(&l, &r, 5, 2, 3, 3, l_mean_bits);
    assert_eq!(z1, z3);
    assert!(f32::from_bits(z1) > 0.0);
    assert_eq!(best_zncc(&l, &r, 5, 2, 3, 5), 1);
}

#[test]
fn degenerate_scores_fall_back_to_zero() {
    // At (4, 2) the only non-flat candidate window is anti-correlated
    // (score below zero) and every other candidate is 0/0, a NaN; the
    // search must return the default disparity 0.
    let mut lv = vec![0.0f32; 9 * 5];
    let mut rv = vec![0.0f32; 9 * 5];
    lv[4 + 2 * 9] = 1.0; // left feature at (4, 2)
    rv[5 + 2 * 9] = 1.0; // right feature at (5, 2), inside the disparity-0 window only
    let l = grid_from(9, 5, &lv);
    let r = grid_from(9, 5, &rv);
    let l_mean_bits = mean_window(&l, 4, 2, 3);
    let z0 = zncc_window(&l, &r, 4, 2, 3, 0, l_mean_bits);
    assert!(f32::from_bits(z0) < 0.0);
    let z2 = zncc_window(&l, &r, 4, 2, 3, 2, l_mean_bits);
    assert!(f32::from_bits(z2).is_nan());
    assert_eq!(best_zncc(&l, &r, 4, 2, 3, 5), 0);
}

#[test]
fn mean_filter_matches_per_pixel_windows() {
    let vals = dyadic_vals(5, 4, 41, 3);
    let g = grid_from(5, 4, &vals);
    let f = mean_filter(&g, 3);
    assert_eq!(f.width(), 5);
    assert_eq!(f.height(), 4);
    for y in 0..4i32 {
        for x in 0..5i32 {
            let expect = ref_mean(&vals, 5, 4, x, y, 3);
            assert_eq!(f.data()[(x + y * 5) as usize], expect.to_bits());
        }
    }
}

#[test]
fn energy_norm_filter_matches_per_pixel_windows() {
    let vals = dyadic_vals(5, 4, 23, 9);
    let g = grid_from(5, 4, &vals);
    let f = energy_norm_filter(&g, 3);
    assert_eq!(f.width(), 5);
    assert_eq!(f.height(), 4);
    for y in 0..4i32 {
        for x in 0..5i32 {
            let expect = ref_energy_norm(&vals, 5, 4, x, y, 3);
            assert_eq!(f.data()[(x + y * 5) as usize], expect.to_bits());
        }
    }
}
