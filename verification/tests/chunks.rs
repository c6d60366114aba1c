use platformer_core::game_world::{GameWorld, Point};
use platformer_core::map::{new_chunk, new_chunk_polyline, SolidBlock};
use platformer_core::{BLOCK_SIZE, CHUNK_WIDTH, WORLD_CENTER_COL};

fn varied(width: usize) -> GameWorld {
    GameWorld::new((0..width).map(|x| 50 + (x * 5) % 23).collect())
}

#[test]
fn respawning_a_chunk_reproduces_its_geometry() {
    let gw = varied(128);
    let first = new_chunk(3, &gw, -512, -1024);
    let first_blocks = first.blocks.clone();
    let first_polyline = first.polyline.clone();
    drop(first);
    // re-spawn the same index at another placement
    let again = new_chunk(3, &gw, 3584, -1040);
    assert_eq!(first_blocks, again.blocks);
    assert_eq!(first_polyline, again.polyline);
    assert_eq!(again.index, 3);
    assert_eq!(again.x_offset, 3584);
    assert_eq!(again.y_offset, -1040);
}

#[test]
fn chunk_index_wraps_modulo_chunk_count() {
    let gw = varied(128);  // 8 chunks
    let wrapped = new_chunk(11, &gw, 0, 0);
    let direct = new_chunk(3, &gw, 0, 0);
    assert_eq!(wrapped.index, 3);
    assert_eq!(wrapped.blocks, direct.blocks);
    assert_eq!(wrapped.polyline, direct.polyline);
}

#[test]
fn polyline_vertex_count_stays_within_bounds() {
    let gw = varied(960);
    for ci in 0..60 {
        let polyline = new_chunk_polyline(&gw, ci);
        assert!(polyline.len() >= CHUNK_WIDTH + 4);
        assert!(polyline.len() <= 2 * CHUNK_WIDTH + 4);
    }
}

#[test]
fn zigzag_terrain_fills_the_polyline_capacity() {
    let gw = GameWorld::new((0..128).map(|x| if x % 2 == 0 { 64 } else { 65 }).collect());
    // a step at every column boundary: the allocated capacity is reached
    let polyline = new_chunk_polyline(&gw, 2);
    assert_eq!(polyline.len(), 2 * CHUNK_WIDTH + 4);
}

#[test]
fn flat_world_chunk_scenario() {
    // world_width = 128, chunk_width = 16, constant height 64
    let gw = GameWorld::new(vec![64; 128]);
    let chunk_count = 128 / CHUNK_WIDTH;
    for ci in 0..chunk_count {
        let c = new_chunk(ci, &gw, 0, -1024);

        // every column: earth for rows 0..62, one surface row at 63, air above
        let mut per_column = vec![Vec::new(); CHUNK_WIDTH];
        for b in &c.blocks {
            if ci == chunk_count / 2 && b.kind == SolidBlock::Stone {
                continue;
            }
            per_column[b.local_x].push((b.local_y, b.kind));
        }
        for column in &per_column {
            assert_eq!(column.len(), 64);
            let surfaces: Vec<_> =
                column.iter().filter(|(_, k)| *k == SolidBlock::Surface).collect();
            assert_eq!(surfaces.len(), 1);
            assert_eq!(surfaces[0].0, 63);
            for (y, kind) in column {
                if *kind == SolidBlock::Earth {
                    assert!(*y < 63);
                }
                assert!(*y < 64, "no solid block above the surface");
            }
        }

        // the polyline is the rectangle outline: no internal steps
        let p = &c.polyline;
        assert_eq!(p.len(), CHUNK_WIDTH + 4);
        let half = (BLOCK_SIZE / 2) as i64;
        let top = (64 * BLOCK_SIZE) as i64;
        assert_eq!(p[0], Point { x: -half, y: 0 });
        assert_eq!(p[1], Point { x: -half, y: top });
        for j in 0..CHUNK_WIDTH {
            let px = ((j + 1) * BLOCK_SIZE) as i64 - half;
            assert_eq!(p[2 + j], Point { x: px, y: top });
        }
        let right = (CHUNK_WIDTH * BLOCK_SIZE) as i64 - half;
        assert_eq!(p[p.len() - 2], Point { x: right, y: 0 });
        assert_eq!(p[p.len() - 1], Point { x: -half, y: 0 });
    }
}

#[test]
fn centre_chunk_carries_the_stone_marker() {
    let gw = GameWorld::new(vec![64; 128]);
    let chunk_count = 128 / CHUNK_WIDTH;
    let marked = new_chunk(chunk_count / 2, &gw, 0, 0);
    let stones: Vec<_> =
        marked.blocks.iter().filter(|b| b.kind == SolidBlock::Stone).collect();
    assert_eq!(stones.len(), 1);
    assert_eq!(stones[0].local_x, 0);
    // ten blocks above the height of the world's centre column (wrapped)
    let h = gw.get_height(WORLD_CENTER_COL);
    assert_eq!(stones[0].local_y, h + 10);

    let unmarked = new_chunk(0, &gw, 0, 0);
    assert!(unmarked.blocks.iter().all(|b| b.kind != SolidBlock::Stone));
}
