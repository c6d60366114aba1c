use platformer_core::game_world::{generate_height_map, GameWorld, HEIGHT_LIMIT};
use platformer_core::{BLOCK_SIZE, FLOOR_MEDIAN, FLOOR_THRESHOLD, WORLD_WIDTH};

use noise::utils::{NoiseMapBuilder, PlaneMapBuilder};
use noise::{Fbm, Worley};

/// The game's noise pipeline: a fractal-Brownian-motion field over Worley
/// noise, sampled along one line, affinely mapped around the floor median
/// and truncated to whole blocks.
fn noise_heights(seed: u32) -> Vec<usize> {
    let fbm = Fbm::<Worley>::new(seed);
    let bounds = WORLD_WIDTH as f64 * 0.0025;
    let map = PlaneMapBuilder::new(fbm)
        .set_size(WORLD_WIDTH, 1)
        .set_x_bounds(-bounds, bounds)
        .set_y_bounds(-bounds, bounds)
        .build();
    (0..WORLD_WIDTH)
        .map(|x| {
            let h = FLOOR_MEDIAN as f32 + map.get_value(x, 0) as f32 * FLOOR_THRESHOLD as f32;
            let h = h.trunc();
            if h < 0.0 {
                0
            } else if h > HEIGHT_LIMIT as f32 {
                HEIGHT_LIMIT
            } else {
                h as usize
            }
        })
        .collect()
}

#[test]
fn generate_height_map_is_deterministic() {
    let a = noise_heights(0);
    let b = noise_heights(0);
    assert_eq!(a, b, "the noise signal must be byte-identical across runs");

    let w1 = generate_height_map(a.clone(), false);
    let w2 = generate_height_map(b, false);
    assert_eq!(w1.width, WORLD_WIDTH);
    for x in 0..WORLD_WIDTH {
        assert_eq!(w1.get_height(x), w2.get_height(x));
        assert_eq!(w1.get_height(x), a[x]);
    }

    let s1 = generate_height_map(a.clone(), true);
    let s2 = generate_height_map(a.clone(), true);
    for x in 0..WORLD_WIDTH {
        assert_eq!(s1.get_height(x), s2.get_height(x));
    }
}

#[test]
fn height_lookup_wraps_around_the_world() {
    let heights = noise_heights(7);
    let gw = generate_height_map(heights, false);
    for x in [0usize, 1, 17, 500, WORLD_WIDTH - 1] {
        assert_eq!(gw.get_height(x), gw.get_height(x + WORLD_WIDTH));
        assert_eq!(gw.get_height(x), gw.get_height(x + 3 * WORLD_WIDTH));
    }
}

#[test]
fn spike_suppression_lowers_single_column_peaks() {
    let gw = GameWorld::new(vec![3, 9, 4, 4]);
    // column 1 is a spike over neighbours 3 and 4: lowered to 4
    assert_eq!(gw.get_height_in_blocks(1), 4);
    // column 2 is not strictly above both neighbours
    assert_eq!(gw.get_height_in_blocks(2), 4);
    // neighbours wrap: column 0 sees column 3 on its left
    assert_eq!(gw.get_height_in_blocks(0), 3);
    // column 3 sees column 0 on its right; 4 > 4 is false, so it stays
    assert_eq!(gw.get_height_in_blocks(3), 4);

    let spike_at_edge = GameWorld::new(vec![9, 2, 2, 3]);
    // column 0 is above both column 3 (wrapped left) and column 1: max(3, 2)
    assert_eq!(spike_at_edge.get_height_in_blocks(0), 3);
}

#[test]
fn smoothing_pass_matches_lookup_suppression() {
    let raw = vec![5usize, 8, 5, 6, 6, 9, 4, 4];
    let plain = generate_height_map(raw.clone(), false);
    let smoothed = generate_height_map(raw, true);
    for x in 0..8 {
        assert_eq!(smoothed.get_height(x), plain.get_height_in_blocks(x));
    }
}

#[test]
fn block_positions_are_pixel_multiples() {
    let p = GameWorld::get_block_position(3, 7);
    assert_eq!(p.x, (3 * BLOCK_SIZE) as i64);
    assert_eq!(p.y, (7 * BLOCK_SIZE) as i64);
}

#[test]
fn surface_sits_half_a_block_below_the_height() {
    let gw = GameWorld::new(vec![64; 128]);
    assert_eq!(gw.get_surface(10), (64 * BLOCK_SIZE) as i64 - (BLOCK_SIZE / 2) as i64);
}

#[test]
fn random_column_is_always_in_range() {
    let gw = GameWorld::new(vec![64; 128]);
    for _ in 0..200 {
        assert!(gw.get_random_x_block() < 128);
    }
    let tiny = GameWorld::new(vec![5]);
    for _ in 0..10 {
        assert_eq!(tiny.get_random_x_block(), 0);
    }
}
