//! End-to-end scenarios: disparity maps through every execution strategy,
//! and block-average downsampling.
use disparity::Pixels;
use disparity::best_disp_map;
use disparity::best_disp_map_seq;
use disparity::best_disp_map_bands;
use disparity::resize_pixels;

fn grid_from(width: usize, height: usize, vals: &[f32]) -> Pixels {
    assert_eq!(vals.len(), width * height);
    let bits: Vec<u32> = vals.iter().map(|v| v.to_bits()).collect();
    Pixels::new_with_data(width, height, bits)
}

fn constant_grid(width: usize, height: usize, v: f32) -> Pixels {
    grid_from(width, height, &vec![v; width * height])
}

fn dyadic_vals(width: usize, height: usize, a: usize, b: usize) -> Vec<f32> {
    (0..width * height).map(|i| ((i * a + b) % 64) as f32 / 64.0).collect()
}

#[test]
fn flat_pair_gives_an_all_zero_map() {
    // A 4x4 constant pair: every candidate score is 0/0, a NaN, so every
    // pixel falls back to disparity 0 and the map is all zeros.
    let l = constant_grid(4, 4, 0.5);
    let r = constant_grid(4, 4, 0.5);
    let out = best_disp_map(l, r, 3, 5, 1);
    assert_eq!(out.width(), 4);
    assert_eq!(out.height(), 4);
    for &bits in out.data().iter() {
        assert_eq!(bits, 0.0f32.to_bits());
    }
}

#[test]
fn shifted_bright_pixel_reads_disparity_three() {
    // The right image holds the left's single bright pixel three columns to
    // the left; at the feature the search finds disparity 3 of 5, so the
    // map reads exactly 3/5 there.
    let mut lv = vec![0.0f32; 8 * 8];
    let mut rv = vec![0.0f32; 8 * 8];
    lv[4 + 4 * 8] = 1.0;
    rv[1 + 4 * 8] = 1.0;
    let l = grid_from(8, 8, &lv);
    let r = grid_from(8, 8, &rv);
    let out = best_disp_map(l, r, 3, 5, 1);
    let expect = 3.0f32 / 5.0f32;
    assert_eq!(out.data()[4 + 4 * 8], expect.to_bits());
    assert_eq!(f32::from_bits(out.data()[4 + 4 * 8]), 0.6f32);
}

#[test]
fn all_strategies_agree_with_the_sequential_reference() {
    let lv = dyadic_vals(8, 6, 37, 11);
    let rv = dyadic_vals(8, 6, 53, 7);
    let seq = {
        let l = grid_from(8, 6, &lv);
        let r = grid_from(8, 6, &rv);
        best_disp_map_seq(&l, &r, 3, 4).data().clone()
    };
    for &threads in &[1usize, 2, 3, 6] {
        let l = grid_from(8, 6, &lv);
        let r = grid_from(8, 6, &rv);
        let fine = best_disp_map(l, r, 3, 4, threads);
        assert_eq!(fine.data(), &seq);
        let l = grid_from(8, 6, &lv);
        let r = grid_from(8, 6, &rv);
        let coarse = best_disp_map_bands(l, r, 3, 4, threads);
        assert_eq!(coarse.data(), &seq);
    }
}

#[test]
fn map_values_stay_inside_the_disparity_range() {
    let lv = dyadic_vals(8, 6, 37, 11);
    let rv = dyadic_vals(8, 6, 53, 7);
    let l = grid_from(8, 6, &lv);
    let r = grid_from(8, 6, &rv);
    let out = best_disp_map(l, r, 3, 4, 2);
    for &bits in out.data().iter() {
        let v = f32::from_bits(bits);
        assert!(v >= 0.0);
        assert!(v <= 3.0f32 / 4.0f32);
    }
}

#[test]
fn downsampling_a_constant_grid_keeps_the_constant() {
    let g = constant_grid(6, 4, 0.5);
    let half = resize_pixels(&g, 2);
    assert_eq!(half.width(), 3);
    assert_eq!(half.height(), 2);
    for &bits in half.data().iter() {
        assert_eq!(bits, 0.5f32.to_bits());
    }
    let third = resize_pixels(&g, 3);
    assert_eq!(third.width(), 2);
    assert_eq!(third.height(), 1);
    for &bits in third.data().iter() {
        assert_eq!(bits, 0.5f32.to_bits());
    }
}

#[test]
fn downsampling_averages_each_block() {
    let vals: Vec<f32> = (0..16).map(|i| i as f32 / 16.0).collect();
    let g = grid_from(4, 4, &vals);
    let out = resize_pixels(&g, 2);
    assert_eq!(out.width(), 2);
    assert_eq!(out.height(), 2);
    for oy in 0..2usize {
        for ox in 0..2usize {
            let mut sum = 0.0f32;
            for row in 0..2usize {
                for col in 0..2usize {
                    sum += vals[(ox * 2 + col) + (oy * 2 + row) * 4];
                }
            }
            let expect = sum / 4.0f32;
            assert_eq!(out.data()[ox + oy * 2], expect.to_bits());
        }
    }
}

#[test]
fn downsampling_drops_partial_blocks() {
    // 5x3 by ratio 2: only the 4x2 prefix contributes; output is 2x1.
    let vals: Vec<f32> = (0..15).map(|i| i as f32 / 32.0).collect();
    let g = grid_from(5, 3, &vals);
    let out = resize_pixels(&g, 2);
    assert_eq!(out.width(), 2);
    assert_eq!(out.height(), 1);
    for ox in 0..2usize {
        let mut sum = 0.0f32;
        for row in 0..2usize {
            for col in 0..2usize {
                sum += vals[(ox * 2 + col) + row * 5];
            }
        }
        let expect = sum / 4.0f32;
        assert_eq!(out.data()[ox], expect.to_bits());
    }
}
