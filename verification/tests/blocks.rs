use platformer_core::game_world::GameWorld;
use platformer_core::map::{
    earth_tile_index, get_block, is_solid, neighbors, surface_tile_index, Block, SolidBlock,
};
use platformer_core::WORLD_HEIGHT;

fn flat(width: usize, height: usize) -> GameWorld {
    GameWorld::new(vec![height; width])
}

#[test]
fn classification_is_total_and_exclusive() {
    let gw = flat(128, 64);
    for x in 0..128 {
        for y in 0..WORLD_HEIGHT {
            let b = get_block(x, y, &gw);
            let surface = b == Block::Solid(SolidBlock::Surface);
            let earth = b == Block::Solid(SolidBlock::Earth);
            let air = b == Block::Air;
            let stone = b == Block::Solid(SolidBlock::Stone);
            assert_eq!(
                1,
                surface as u32 + earth as u32 + air as u32,
                "exactly one class at ({x}, {y})"
            );
            assert!(!stone, "the classifier never yields stone");
            assert_eq!(surface, y == 63);
            assert_eq!(earth, y < 63);
            assert_eq!(air, y >= 64);
        }
    }
}

#[test]
fn surface_always_has_air_above() {
    let heights: Vec<usize> = (0..96).map(|x: usize| 40 + (x * 7) % 31).collect();
    let gw = GameWorld::new(heights);
    for x in 0..96 {
        for y in 0..WORLD_HEIGHT {
            if get_block(x, y, &gw) == Block::Solid(SolidBlock::Surface) {
                assert_eq!(get_block(x, y + 1, &gw), Block::Air);
            }
        }
    }
}

#[test]
fn classification_wraps_horizontally() {
    let mut heights = vec![64usize; 64];
    heights[3] = 70;
    let gw = GameWorld::new(heights);
    for y in 0..WORLD_HEIGHT {
        assert_eq!(get_block(3, y, &gw), get_block(3 + 64, y, &gw));
    }
}

#[test]
fn neighbors_clamp_at_zero() {
    let gw = flat(32, 4);
    let n = neighbors(0, 0, &gw);
    // row and column clamp to 0, so "down" and "left" see the cell itself
    assert_eq!(n.down, get_block(0, 0, &gw));
    assert_eq!(n.left, get_block(0, 0, &gw));
    assert_eq!(n.up, get_block(0, 1, &gw));
    assert_eq!(n.right, get_block(1, 0, &gw));
    assert!(is_solid(n.down));
}

#[test]
fn surface_tiles_select_corners_and_flat_top() {
    // flat terrain: a surface block has air above and solid on both sides
    let gw = flat(64, 64);
    assert_eq!(surface_tile_index(5, 63, &gw), 1);

    // a column one block higher than its left neighbour: top-left corner
    let mut heights = vec![64usize; 64];
    for h in heights.iter_mut().skip(8) {
        *h = 65;
    }
    let gw = GameWorld::new(heights);
    // column 8 rises: its surface cell (row 64) has air on the left
    assert_eq!(surface_tile_index(8, 64, &gw), 0);
    // column 7 is lower: its surface cell (row 63) has solid right, air up;
    // left solid, down solid: no corner arm matches, flat top
    assert_eq!(surface_tile_index(7, 63, &gw), 1);
}

#[test]
fn surface_tile_descending_step_selects_right_corner() {
    // columns 0..8 high, the rest low: column 7's surface has air on the right
    let heights: Vec<usize> = (0..64).map(|x| if x < 8 { 65 } else { 64 }).collect();
    let gw = GameWorld::new(heights);
    assert_eq!(surface_tile_index(7, 64, &gw), 3);
}

#[test]
fn earth_tiles_select_edges_and_filler() {
    // a deep column next to a much lower one exposes a vertical edge
    let heights: Vec<usize> = (0..64).map(|x| if x < 8 { 40 } else { 70 }).collect();
    let gw = GameWorld::new(heights);
    // cell (8, 50): earth; left neighbour column has height 40, so air left
    assert_eq!(get_block(8, 50, &gw), Block::Solid(SolidBlock::Earth));
    assert_eq!(earth_tile_index(8, 50, &gw), 14);
    // cell (7, 30): earth surrounded by earth on all sides: filler
    assert_eq!(get_block(7, 30, &gw), Block::Solid(SolidBlock::Earth));
    assert_eq!(earth_tile_index(7, 30, &gw), 8);
    // cell (12, 50): interior earth of the high plateau: filler
    assert_eq!(earth_tile_index(12, 50, &gw), 8);
}

#[test]
fn earth_tile_right_edge() {
    // high plateau on the left, low ground on the right: the plateau's last
    // column exposes its right side
    let heights: Vec<usize> = (0..64).map(|x| if x < 8 { 70 } else { 40 }).collect();
    let gw = GameWorld::new(heights);
    assert_eq!(get_block(7, 50, &gw), Block::Solid(SolidBlock::Earth));
    assert_eq!(earth_tile_index(7, 50, &gw), 10);
}
