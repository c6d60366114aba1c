//! The map: block classification over the height map, neighbour-aware tile
//! selection, chunk construction with a collision polyline, and the streaming
//! policy that keeps a constant window of chunks loaded around a moving
//! reference point.

use vstd::prelude::*;

use crate::game_world::{GameWorld, Point};
use crate::{
    BLOCK_SIZE, CHUNKS_TO_LOAD, CHUNK_WIDTH, MAX_OFFSET, WORLD_BOTTOM_OFFSET_IN_PIXELS,
    WORLD_CENTER_COL, WORLD_HEIGHT,
};

verus! {

/// A solid block's material.
#[derive(PartialEq, Eq, Structural, Clone, Copy, Debug)]
pub enum SolidBlock {
    Surface,
    Stone,
    Earth,
}

/// One cell of the world grid.
#[derive(PartialEq, Eq, Structural, Clone, Copy, Debug)]
pub enum Block {
    Air,
    Solid(SolidBlock),
}

/// Whether the world is evenly divided into chunks.
pub open spec fn chunked_wf(gw: GameWorld) -> bool {
    &&& gw.wf()
    &&& gw.width >= CHUNK_WIDTH
    &&& gw.width % CHUNK_WIDTH == 0
}

/// The number of chunks the world is divided into.
pub open spec fn spec_chunk_count(gw: GameWorld) -> int {
    gw.width as int / CHUNK_WIDTH as int
}

/// Checks the startup configuration invariant: the world must split evenly
/// into chunks.  A violation is a static misconfiguration and fatal.
pub fn is_chunk_aligned(game_world: &GameWorld) -> (b: bool)
    requires
        game_world.wf(),
    ensures
        b <==> chunked_wf(*game_world),
{
    game_world.width >= CHUNK_WIDTH && game_world.width % CHUNK_WIDTH == 0
}

/// The material of the cell at column `x`, row `y`: `Surface` for the topmost
/// solid cell of the column, `Earth` below it, `Air` at and above the column
/// height.  Total over all integer coordinates; columns wrap.
pub open spec fn spec_block_at(gw: GameWorld, x: int, y: int) -> Block {
    let h = gw.spec_height_at(x) as int;
    if y < h && y + 1 >= h {
        Block::Solid(SolidBlock::Surface)
    } else if y < h {
        Block::Solid(SolidBlock::Earth)
    } else {
        Block::Air
    }
}

/// Classifies the cell at column `x`, row `y` of the world grid.
pub fn get_block(x: usize, y: usize, game_world: &GameWorld) -> (b: Block)
    requires
        game_world.wf(),
    ensures
        b == spec_block_at(*game_world, x as int, y as int),
{
    let h = game_world.get_height(x);
    if y < h && y + 1 >= h {
        Block::Solid(SolidBlock::Surface)
    } else if y < h {
        Block::Solid(SolidBlock::Earth)
    } else {
        Block::Air
    }
}

/// Classification totality: every cell is exactly one of `Surface`, `Earth`
/// or `Air`, decided by the column height alone; the classifier itself never
/// yields `Stone` (the spawn-marker stone is a separate, explicit override).
pub proof fn lemma_classification_total(gw: GameWorld, x: int, y: int)
    requires
        gw.wf(),
    ensures
        ({
            let h = gw.spec_height_at(x) as int;
            let b = spec_block_at(gw, x, y);
            &&& (b == Block::Solid(SolidBlock::Surface) <==> y == h - 1)
            &&& (b == Block::Solid(SolidBlock::Earth) <==> y < h - 1)
            &&& (b == Block::Air <==> y >= h)
            &&& b != Block::Solid(SolidBlock::Stone)
        }),
{
}

/// Neighbour symmetry: the cell straight above a `Surface` cell is `Air` —
/// the surface is by construction the topmost solid cell of its column.
pub proof fn lemma_surface_topmost(gw: GameWorld, x: int, y: int)
    requires
        gw.wf(),
        spec_block_at(gw, x, y) == Block::Solid(SolidBlock::Surface),
    ensures
        spec_block_at(gw, x, y + 1) == Block::Air,
{
}

/// The materials of the eight cells around a cell.  Row and column indices
/// clamp at zero (the world does not wrap vertically); large columns wrap
/// through the height lookup.
#[derive(PartialEq, Eq, Structural, Clone, Copy, Debug)]
pub struct Neighborhood {
    pub up_left: Block,
    pub up: Block,
    pub up_right: Block,
    pub right: Block,
    pub down_right: Block,
    pub down: Block,
    pub down_left: Block,
    pub left: Block,
}

/// The eight-neighbour materials of the cell at column `x`, row `y`.
pub open spec fn spec_neighbors(gw: GameWorld, x: int, y: int) -> Neighborhood {
    let down_y = if y == 0 {
        0
    } else {
        y - 1
    };
    let left_x = if x == 0 {
        0
    } else {
        x - 1
    };
    Neighborhood {
        up_left: spec_block_at(gw, left_x, y + 1),
        up: spec_block_at(gw, x, y + 1),
        up_right: spec_block_at(gw, x + 1, y + 1),
        right: spec_block_at(gw, x + 1, y),
        down_right: spec_block_at(gw, x + 1, down_y),
        down: spec_block_at(gw, x, down_y),
        down_left: spec_block_at(gw, left_x, down_y),
        left: spec_block_at(gw, left_x, y),
    }
}

/// Computes the eight-neighbour materials of the cell at column `x`, row `y`.
pub fn neighbors(x: usize, y: usize, game_world: &GameWorld) -> (n: Neighborhood)
    requires
        game_world.wf(),
        x < usize::MAX,
        y < usize::MAX,
    ensures
        n == spec_neighbors(*game_world, x as int, y as int),
{
    let down_y = if y == 0 {
        0
    } else {
        y - 1
    };
    let left_x = if x == 0 {
        0
    } else {
        x - 1
    };
    Neighborhood {
        up_left: get_block(left_x, y + 1, game_world),
        up: get_block(x, y + 1, game_world),
        up_right: get_block(x + 1, y + 1, game_world),
        right: get_block(x + 1, y, game_world),
        down_right: get_block(x + 1, down_y, game_world),
        down: get_block(x, down_y, game_world),
        down_left: get_block(left_x, down_y, game_world),
        left: get_block(left_x, y, game_world),
    }
}

/// Whether a block is solid.
pub fn is_solid(b: Block) -> (r: bool)
    ensures
        r == (b is Solid),
{
    match b {
        Block::Solid(_) => true,
        Block::Air => false,
    }
}

/// The tile-sheet index an earth block selects from its eight neighbours:
/// vertical edges, the four concave corners, or the plain filler tile.
pub open spec fn spec_earth_tile(n: Neighborhood) -> usize {
    if n.up is Solid && n.right is Solid && n.down is Solid && n.left is Air {
        14
    } else if n.up is Solid && n.right is Air && n.down is Solid && n.left is Solid {
        10
    } else if n.up_left is Air && n.up is Solid && n.up_right is Solid && n.right is Solid
        && n.down_right is Solid && n.down is Solid && n.down_left is Solid && n.left is Solid {
        12
    } else if n.up_left is Solid && n.up is Solid && n.up_right is Air && n.right is Solid
        && n.down_right is Solid && n.down is Solid && n.down_left is Solid && n.left is Solid {
        11
    } else if n.up_left is Solid && n.up is Solid && n.up_right is Solid && n.right is Solid
        && n.down_right is Air && n.down is Solid && n.down_left is Solid && n.left is Solid {
        4
    } else if n.up_left is Solid && n.up is Solid && n.up_right is Solid && n.right is Solid
        && n.down_right is Solid && n.down is Solid && n.down_left is Air && n.left is Solid {
        5
    } else {
        8
    }
}

/// Selects the tile-sheet index for an earth block at column `x_in_world`,
/// row `y_in_world`.
pub fn earth_tile_index(x_in_world: usize, y_in_world: usize, game_world: &GameWorld) -> (t: usize)
    requires
        game_world.wf(),
        x_in_world < usize::MAX,
        y_in_world < usize::MAX,
    ensures
        t == spec_earth_tile(spec_neighbors(*game_world, x_in_world as int, y_in_world as int)),
{
    let n = neighbors(x_in_world, y_in_world, game_world);
    if is_solid(n.up) && is_solid(n.right) && is_solid(n.down) && !is_solid(n.left) {
        14
    } else if is_solid(n.up) && !is_solid(n.right) && is_solid(n.down) && is_solid(n.left) {
        10
    } else if !is_solid(n.up_left) && is_solid(n.up) && is_solid(n.up_right) && is_solid(n.right)
        && is_solid(n.down_right) && is_solid(n.down) && is_solid(n.down_left) && is_solid(n.left) {
        12
    } else if is_solid(n.up_left) && is_solid(n.up) && !is_solid(n.up_right) && is_solid(n.right)
        && is_solid(n.down_right) && is_solid(n.down) && is_solid(n.down_left) && is_solid(n.left) {
        11
    } else if is_solid(n.up_left) && is_solid(n.up) && is_solid(n.up_right) && is_solid(n.right)
        && !is_solid(n.down_right) && is_solid(n.down) && is_solid(n.down_left) && is_solid(n.left) {
        4
    } else if is_solid(n.up_left) && is_solid(n.up) && is_solid(n.up_right) && is_solid(n.right)
        && is_solid(n.down_right) && is_solid(n.down) && !is_solid(n.down_left) && is_solid(n.left) {
        5
    } else {
        8
    }
}

/// The tile-sheet index a surface block selects from its four orthogonal
/// neighbours: the four convex corners or the flat-top tile.
pub open spec fn spec_surface_tile(n: Neighborhood) -> usize {
    if n.up is Air && n.right is Air && n.down is Solid && n.left is Solid {
        3
    } else if n.up is Solid && n.right is Air && n.down is Air && n.left is Solid {
        24
    } else if n.up is Solid && n.right is Solid && n.down is Air && n.left is Air {
        21
    } else if n.up is Air && n.right is Solid && n.down is Solid && n.left is Air {
        0
    } else {
        1
    }
}

/// Selects the tile-sheet index for a surface block at column `x_in_world`,
/// row `y_in_world`.
pub fn surface_tile_index(x_in_world: usize, y_in_world: usize, game_world: &GameWorld) -> (t:
    usize)
    requires
        game_world.wf(),
        x_in_world < usize::MAX,
        y_in_world < usize::MAX,
    ensures
        t == spec_surface_tile(spec_neighbors(*game_world, x_in_world as int, y_in_world as int)),
{
    let n = neighbors(x_in_world, y_in_world, game_world);
    if !is_solid(n.up) && !is_solid(n.right) && is_solid(n.down) && is_solid(n.left) {
        3
    } else if is_solid(n.up) && !is_solid(n.right) && !is_solid(n.down) && is_solid(n.left) {
        24
    } else if is_solid(n.up) && is_solid(n.right) && !is_solid(n.down) && !is_solid(n.left) {
        21
    } else if !is_solid(n.up) && is_solid(n.right) && is_solid(n.down) && !is_solid(n.left) {
        0
    } else {
        1
    }
}

/// One solid block of a chunk, as handed to the renderer: its chunk-local
/// cell, its material and its tile-sheet index.  Stone blocks use a fixed
/// appearance and carry index 0.
#[derive(PartialEq, Eq, Structural, Clone, Copy, Debug)]
pub struct BlockTile {
    pub local_x: usize,
    pub local_y: usize,
    pub kind: SolidBlock,
    pub tile_index: usize,
}

/// One loaded chunk: its index in the circular world, its current placement
/// in pixels, and the geometry it owns — block tiles and the collision
/// polyline.  A chunk's children live and die with it.
pub struct Chunk {
    pub index: usize,
    pub x_offset: i64,
    pub y_offset: i64,
    pub blocks: Vec<BlockTile>,
    pub polyline: Vec<Point>,
}

/// The spawn-marker stone: a single non-generic block placed over the
/// world's centre column, in the centre chunk only.
pub open spec fn spec_marker_tiles(gw: GameWorld, ci: int) -> Seq<BlockTile> {
    if ci == spec_chunk_count(gw) / 2 {
        seq![
            BlockTile {
                local_x: 0,
                local_y: (gw.spec_height_at(WORLD_CENTER_COL as int) + 10) as usize,
                kind: SolidBlock::Stone,
                tile_index: 0,
            },
        ]
    } else {
        Seq::empty()
    }
}

/// The tiles (none for air) generated for chunk-local cell `(cx, cy)` of
/// chunk `ci`.
pub open spec fn spec_cell_tiles(gw: GameWorld, ci: int, cx: int, cy: int) -> Seq<BlockTile> {
    let wx = ci * CHUNK_WIDTH + cx;
    match spec_block_at(gw, wx, cy) {
        Block::Air => Seq::empty(),
        Block::Solid(SolidBlock::Earth) => seq![
            BlockTile {
                local_x: cx as usize,
                local_y: cy as usize,
                kind: SolidBlock::Earth,
                tile_index: spec_earth_tile(spec_neighbors(gw, wx, cy)),
            },
        ],
        Block::Solid(SolidBlock::Surface) => seq![
            BlockTile {
                local_x: cx as usize,
                local_y: cy as usize,
                kind: SolidBlock::Surface,
                tile_index: spec_surface_tile(spec_neighbors(gw, wx, cy)),
            },
        ],
        Block::Solid(SolidBlock::Stone) => seq![
            BlockTile {
                local_x: cx as usize,
                local_y: cy as usize,
                kind: SolidBlock::Stone,
                tile_index: 0,
            },
        ],
    }
}

/// The tiles of the lowest `rows` cells of local column `cx`, bottom-up.
pub open spec fn spec_column_tiles(gw: GameWorld, ci: int, cx: int, rows: nat) -> Seq<BlockTile>
    decreases rows,
{
    if rows == 0 {
        Seq::empty()
    } else {
        spec_column_tiles(gw, ci, cx, (rows - 1) as nat) + spec_cell_tiles(
            gw,
            ci,
            cx,
            rows - 1,
        )
    }
}

/// The tiles of the first `cols` local columns of chunk `ci`, left to right.
pub open spec fn spec_columns_tiles(gw: GameWorld, ci: int, cols: nat) -> Seq<BlockTile>
    decreases cols,
{
    if cols == 0 {
        Seq::empty()
    } else {
        spec_columns_tiles(gw, ci, (cols - 1) as nat) + spec_column_tiles(
            gw,
            ci,
            cols - 1,
            WORLD_HEIGHT as nat,
        )
    }
}

/// Every block tile spawned for chunk `ci`: the optional spawn marker, then
/// each column's tiles.
pub open spec fn spec_chunk_blocks(gw: GameWorld, ci: int) -> Seq<BlockTile> {
    spec_marker_tiles(gw, ci) + spec_columns_tiles(gw, ci, CHUNK_WIDTH as nat)
}

/// The polyline vertices contributed by local column `j` of a chunk whose
/// range starts at world column `start`: one vertex at the column's right
/// boundary at the column's height, plus a step vertex when the next
/// column's height differs.
pub open spec fn spec_poly_col(gw: GameWorld, start: int, j: int) -> Seq<Point> {
    let b = BLOCK_SIZE as int;
    let px = ((j + 1) * b - b / 2) as i64;
    let y = (gw.spec_height_at(start + j) as int * b) as i64;
    let y2 = (gw.spec_height_at(start + j + 1) as int * b) as i64;
    if y != y2 {
        seq![Point { x: px, y }, Point { x: px, y: y2 }]
    } else {
        seq![Point { x: px, y }]
    }
}

/// The vertices contributed by the first `k` local columns.
pub open spec fn spec_poly_cols(gw: GameWorld, start: int, k: nat) -> Seq<Point>
    decreases k,
{
    if k == 0 {
        Seq::empty()
    } else {
        spec_poly_cols(gw, start, (k - 1) as nat) + spec_poly_col(gw, start, k - 1)
    }
}

/// The polyline's bottom-left corner, where the loop starts and closes.
pub open spec fn spec_poly_origin() -> Point {
    Point { x: (-(BLOCK_SIZE as int / 2)) as i64, y: 0 }
}

/// The polyline up to and including the first `k` columns' vertices: the
/// bottom-left corner, the left wall's top, then the stepped profile.
pub open spec fn spec_poly_prefix(gw: GameWorld, ci: int, k: nat) -> Seq<Point> {
    let b = BLOCK_SIZE as int;
    let start = ci * CHUNK_WIDTH as int;
    let left_top = Point {
        x: (-(b / 2)) as i64,
        y: (gw.spec_height_at(start) as int * b) as i64,
    };
    seq![spec_poly_origin(), left_top] + spec_poly_cols(gw, start, k)
}

/// The full collision polyline of chunk `ci`: left wall, stepped surface
/// profile, right wall, closed along the chunk's bottom edge.
pub open spec fn spec_polyline(gw: GameWorld, ci: int) -> Seq<Point> {
    let b = BLOCK_SIZE as int;
    let bottom_right = Point { x: (CHUNK_WIDTH as int * b - b / 2) as i64, y: 0 };
    spec_poly_prefix(gw, ci, CHUNK_WIDTH as nat) + seq![bottom_right, spec_poly_origin()]
}

/// Builds the collision polyline for the column range of chunk `chunk_index`.
pub fn new_chunk_polyline(game_world: &GameWorld, chunk_index: usize) -> (vertices: Vec<Point>)
    requires
        chunked_wf(*game_world),
        chunk_index < spec_chunk_count(*game_world),
    ensures
        vertices@ == spec_polyline(*game_world, chunk_index as int),
{
    let mut vertices: Vec<Point> = Vec::with_capacity(CHUNK_WIDTH * 2 + 4);

    let range_start = chunk_index * CHUNK_WIDTH;
    let bs = BLOCK_SIZE as i64;
    proof {
        assert(bs == 16);
    }
    let half = (BLOCK_SIZE / 2) as i64;
    vertices.push(Point { x: -half, y: 0 });
    let h0 = game_world.get_height(range_start);
    vertices.push(Point { x: -half, y: (h0 as i64) * bs });

    for j in 0..CHUNK_WIDTH
        invariant
            vertices@ =~= spec_poly_prefix(*game_world, chunk_index as int, j as nat),
    {
        let xw = range_start + j;
        let y = game_world.get_height(xw);
        let y2 = game_world.get_height(xw + 1);
        let px = ((j + 1) * BLOCK_SIZE - BLOCK_SIZE / 2) as i64;
        let py = (y as i64) * bs;
        let py2 = (y2 as i64) * bs;
        vertices.push(Point { x: px, y: py });
        if py != py2 {
            vertices.push(Point { x: px, y: py2 });
        }
        proof {
            assert(vertices@ =~= spec_poly_prefix(
                *game_world,
                chunk_index as int,
                (j + 1) as nat,
            ));
        }
    }

    vertices.push(
        Point { x: (CHUNK_WIDTH * BLOCK_SIZE - BLOCK_SIZE / 2) as i64, y: 0 },
    );
    vertices.push(Point { x: -half, y: 0 });
    proof {
        assert(vertices@ =~= spec_polyline(*game_world, chunk_index as int));
    }
    vertices
}

/// Whether a chunk's owned geometry is exactly what the height map dictates
/// for chunk index `ci`.
pub open spec fn chunk_geometry_matches(c: Chunk, gw: GameWorld, ci: int) -> bool {
    &&& c.blocks@ == spec_chunk_blocks(gw, ci)
    &&& c.polyline@ == spec_polyline(gw, ci)
}

/// Materialises the chunk with index `chunk_index` (reduced modulo the chunk
/// count) at placement `(x, y)`: every solid cell of its column range becomes
/// one block tile, and the chunk receives its collision polyline.
#[verifier::rlimit(40)]
pub fn new_chunk(chunk_index: usize, game_world: &GameWorld, x: i64, y: i64) -> (c: Chunk)
    requires
        chunked_wf(*game_world),
    ensures
        c.index == chunk_index as int % spec_chunk_count(*game_world),
        c.index < spec_chunk_count(*game_world),
        c.x_offset == x,
        c.y_offset == y,
        chunk_geometry_matches(c, *game_world, c.index as int),
{
    let cnt = game_world.width / CHUNK_WIDTH;
    let ci = chunk_index % cnt;
    let start_x = CHUNK_WIDTH * ci;

    let mut blocks: Vec<BlockTile> = Vec::new();
    if ci == cnt / 2 {
        let h = game_world.get_height(WORLD_CENTER_COL);
        blocks.push(
            BlockTile { local_x: 0, local_y: h + 10, kind: SolidBlock::Stone, tile_index: 0 },
        );
    }
    proof {
        assert(blocks@ =~= spec_marker_tiles(*game_world, ci as int) + spec_columns_tiles(
            *game_world,
            ci as int,
            0,
        ));
    }

    for col_x in 0..CHUNK_WIDTH
        invariant
            blocks@ =~= spec_marker_tiles(*game_world, ci as int) + spec_columns_tiles(
                *game_world,
                ci as int,
                col_x as nat,
            ),
    {
        for col_y in 0..WORLD_HEIGHT
            invariant
                blocks@ =~= spec_marker_tiles(*game_world, ci as int) + spec_columns_tiles(
                    *game_world,
                    ci as int,
                    col_x as nat,
                ) + spec_column_tiles(*game_world, ci as int, col_x as int, col_y as nat),
        {
            let wx = start_x + col_x;
            match get_block(wx, col_y, game_world) {
                Block::Air => {},
                Block::Solid(SolidBlock::Earth) => {
                    let t = earth_tile_index(wx, col_y, game_world);
                    blocks.push(
                        BlockTile {
                            local_x: col_x,
                            local_y: col_y,
                            kind: SolidBlock::Earth,
                            tile_index: t,
                        },
                    );
                },
                Block::Solid(SolidBlock::Stone) => {
                    blocks.push(
                        BlockTile {
                            local_x: col_x,
                            local_y: col_y,
                            kind: SolidBlock::Stone,
                            tile_index: 0,
                        },
                    );
                },
                Block::Solid(SolidBlock::Surface) => {
                    let t = surface_tile_index(wx, col_y, game_world);
                    blocks.push(
                        BlockTile {
                            local_x: col_x,
                            local_y: col_y,
                            kind: SolidBlock::Surface,
                            tile_index: t,
                        },
                    );
                },
            }
            proof {
                assert(blocks@ =~= spec_marker_tiles(*game_world, ci as int)
                    + spec_columns_tiles(*game_world, ci as int, col_x as nat)
                    + spec_column_tiles(
                    *game_world,
                    ci as int,
                    col_x as int,
                    (col_y + 1) as nat,
                ));
            }
        }
        proof {
            assert(blocks@ =~= spec_marker_tiles(*game_world, ci as int) + spec_columns_tiles(
                *game_world,
                ci as int,
                (col_x + 1) as nat,
            ));
        }
    }

    let polyline = new_chunk_polyline(game_world, ci);
    Chunk { index: ci, x_offset: x, y_offset: y, blocks, polyline }
}

/// Round-trip regeneration: two chunks built over the same height map for
/// the same chunk index carry identical block sets and polylines, whatever
/// their placement offsets — evicting an index and re-spawning it later
/// reproduces the geometry it had when first spawned.
pub proof fn lemma_chunk_round_trip(c1: Chunk, c2: Chunk, gw: GameWorld, ci: int)
    requires
        chunk_geometry_matches(c1, gw, ci),
        chunk_geometry_matches(c2, gw, ci),
    ensures
        c1.blocks@ == c2.blocks@,
        c1.polyline@ == c2.polyline@,
{
}

/// How many of the first `k` column boundaries of the range starting at
/// `start` are steps: boundaries where the two columns' heights differ.
pub open spec fn spec_step_count(gw: GameWorld, start: int, k: nat) -> int
    decreases k,
{
    if k == 0 {
        0
    } else {
        spec_step_count(gw, start, (k - 1) as nat) + if gw.spec_height_at(start + k - 1)
            != gw.spec_height_at(start + k) {
            1int
        } else {
            0int
        }
    }
}

proof fn lemma_step_count_bounds(gw: GameWorld, start: int, k: nat)
    ensures
        0 <= spec_step_count(gw, start, k) <= k,
    decreases k,
{
    if k > 0 {
        lemma_step_count_bounds(gw, start, (k - 1) as nat);
    }
}

/// The stepped profile of `k` columns contributes one vertex per column and
/// one more per step between adjacent columns.
pub proof fn lemma_poly_cols_len(gw: GameWorld, start: int, k: nat)
    requires
        gw.wf(),
    ensures
        spec_poly_cols(gw, start, k).len() == k + spec_step_count(gw, start, k),
        k <= spec_poly_cols(gw, start, k).len() <= 2 * k,
    decreases k,
{
    lemma_step_count_bounds(gw, start, k);
    if k > 0 {
        lemma_poly_cols_len(gw, start, (k - 1) as nat);
        let w = gw.width as int;
        vstd::arithmetic::div_mod::lemma_mod_bound(start + k - 1, w);
        vstd::arithmetic::div_mod::lemma_mod_bound(start + k, w);
        // bounded heights scale to pixel values without truncation, so the
        // pixel comparison in the profile agrees with the height comparison
        let h1 = gw.spec_height_at(start + k - 1) as int;
        let h2 = gw.spec_height_at(start + k) as int;
        assert(((h1 * BLOCK_SIZE) as i64 != (h2 * BLOCK_SIZE) as i64) == (h1 != h2));
    }
}

/// The exact polyline vertex count: the four corner and wall vertices, one
/// vertex per column, and one more per height step between adjacent columns.
pub proof fn lemma_polyline_len_exact(gw: GameWorld, ci: int)
    requires
        gw.wf(),
    ensures
        spec_polyline(gw, ci).len() == CHUNK_WIDTH + 4 + spec_step_count(
            gw,
            ci * CHUNK_WIDTH as int,
            CHUNK_WIDTH as nat,
        ),
{
    lemma_poly_cols_len(gw, ci * CHUNK_WIDTH as int, CHUNK_WIDTH as nat);
}

/// Polyline vertex-count bounds: every chunk's polyline has between
/// `CHUNK_WIDTH + 4` vertices (a flat profile) and `2 * CHUNK_WIDTH + 4`
/// vertices (its allocated capacity; a step at every column boundary).
pub proof fn lemma_polyline_vertex_bounds(gw: GameWorld, ci: int)
    requires
        gw.wf(),
    ensures
        CHUNK_WIDTH + 4 <= spec_polyline(gw, ci).len() <= 2 * CHUNK_WIDTH + 4,
{
    lemma_poly_cols_len(gw, ci * CHUNK_WIDTH as int, CHUNK_WIDTH as nat);
}

/// Over terrain stepped at nearly every column boundary the polyline fills
/// most of its capacity: at least `2 * CHUNK_WIDTH + 2` vertices.
pub proof fn lemma_polyline_vertex_count_near_capacity(gw: GameWorld, ci: int)
    requires
        gw.wf(),
        spec_step_count(gw, ci * CHUNK_WIDTH as int, CHUNK_WIDTH as nat) >= CHUNK_WIDTH - 2,
    ensures
        2 * CHUNK_WIDTH + 2 <= spec_polyline(gw, ci).len() <= 2 * CHUNK_WIDTH + 4,
{
    lemma_poly_cols_len(gw, ci * CHUNK_WIDTH as int, CHUNK_WIDTH as nat);
}

/// Over a flat height map the profile of `k` columns has no steps: exactly
/// one vertex per column.
pub proof fn lemma_poly_cols_flat(gw: GameWorld, start: int, k: nat)
    requires
        gw.wf(),
        forall|i: int, j: int|
            0 <= i < gw.heights().len() && 0 <= j < gw.heights().len() ==> gw.heights()[i]
                == gw.heights()[j],
    ensures
        spec_poly_cols(gw, start, k).len() == k,
    decreases k,
{
    if k > 0 {
        lemma_poly_cols_flat(gw, start, (k - 1) as nat);
        let w = gw.width as int;
        vstd::arithmetic::div_mod::lemma_mod_division_less_than_divisor(start + k - 1, w);
        vstd::arithmetic::div_mod::lemma_mod_division_less_than_divisor(start + k, w);
        assert(gw.spec_height_at(start + k - 1) == gw.spec_height_at(start + k));
    }
}

/// Over a flat height map every chunk's polyline is the plain rectangle
/// outline: `CHUNK_WIDTH + 4` vertices, with no internal step vertices.
pub proof fn lemma_flat_polyline_len(gw: GameWorld, ci: int)
    requires
        gw.wf(),
        forall|i: int, j: int|
            0 <= i < gw.heights().len() && 0 <= j < gw.heights().len() ==> gw.heights()[i]
                == gw.heights()[j],
    ensures
        spec_polyline(gw, ci).len() == CHUNK_WIDTH + 4,
{
    lemma_poly_cols_flat(gw, ci * CHUNK_WIDTH as int, CHUNK_WIDTH as nat);
}

/// Marker for the map subsystem, which owns chunk streaming.
pub struct MapPlugin;

/// Bound on a chunk placement the streaming step accepts, in pixels.
pub const POSITION_LIMIT: i64 = 0x4000_0000;

/// The chunk index the loaded window is currently centred on.
pub struct CurrentChunkOffset(pub usize);

/// Notification that `slot` now holds a freshly spawned chunk with index
/// `chunk_index`.  Fired synchronously, once per spawn, so dependent systems
/// can attach children after the chunk's geometry exists.
#[derive(PartialEq, Eq, Structural, Clone, Copy, Debug)]
pub struct NewChunkEvent {
    pub slot: usize,
    pub chunk_index: usize,
}

/// The active chunk set: the streaming window over the circular world.
pub struct MapState {
    pub chunks: Vec<Chunk>,
    pub current_chunk_offset: CurrentChunkOffset,
}

/// Every loaded chunk's index is a valid chunk index of the world.
pub open spec fn map_state_wf(s: MapState, gw: GameWorld) -> bool {
    forall|k: int|
        0 <= k < s.chunks@.len() ==> (#[trigger] s.chunks@[k]).index < spec_chunk_count(gw)
}

/// Whether a tick moving by `dx` evicts this chunk: it has scrolled out of
/// the window, in the direction the reference point moves away from it.
pub open spec fn spec_evicts(c: Chunk, dx: int) -> bool {
    spec_evicts_backward(c, dx) || spec_evicts_forward(c, dx)
}

/// Eviction while the reference point moves left: the chunk trails the
/// window on its right edge and is respawned `CHUNKS_TO_LOAD` indices back.
pub open spec fn spec_evicts_backward(c: Chunk, dx: int) -> bool {
    c.x_offset - dx > MAX_OFFSET && dx < 0
}

/// Eviction while the reference point moves right: the chunk trails the
/// window on its left edge and is respawned `CHUNKS_TO_LOAD` indices ahead.
pub open spec fn spec_evicts_forward(c: Chunk, dx: int) -> bool {
    c.x_offset - dx < -MAX_OFFSET && dx > 0
}

/// The chunk index `CHUNKS_TO_LOAD` ahead of `i`, wrapped around the world.
pub open spec fn spec_wrap_forward(i: int, cnt: int) -> int {
    (i + CHUNKS_TO_LOAD) % cnt
}

/// The chunk index `CHUNKS_TO_LOAD` behind `i`, wrapped around the world
/// (normalised by adding the chunk count so it never goes negative).
pub open spec fn spec_wrap_backward(i: int, cnt: int) -> int {
    (i + cnt - CHUNKS_TO_LOAD) % cnt
}

/// How one streaming tick moving by `(dx, dy)` transforms the chunk of one
/// slot: every chunk scrolls; a chunk that leaves the window is replaced, in
/// the same tick and slot, by the chunk one window span away.
pub open spec fn spec_slot_after_tick(
    gw: GameWorld,
    c0: Chunk,
    c1: Chunk,
    dx: int,
    dy: int,
) -> bool {
    let moved = c0.x_offset - dx;
    let cnt = spec_chunk_count(gw);
    &&& c1.y_offset == c0.y_offset - dy
    &&& (!spec_evicts(c0, dx) ==> c1.index == c0.index && c1.x_offset == moved && c1.blocks@
        == c0.blocks@ && c1.polyline@ == c0.polyline@)
    &&& (spec_evicts_backward(c0, dx) ==> c1.index == spec_wrap_backward(c0.index as int, cnt)
        && c1.x_offset == moved - 2 * MAX_OFFSET && chunk_geometry_matches(
        c1,
        gw,
        c1.index as int,
    ))
    &&& (spec_evicts_forward(c0, dx) ==> c1.index == spec_wrap_forward(c0.index as int, cnt)
        && c1.x_offset == moved + 2 * MAX_OFFSET && chunk_geometry_matches(
        c1,
        gw,
        c1.index as int,
    ))
}

/// How many of the first `k` chunks a tick moving by `dx` evicts.
pub open spec fn spec_evict_count(s: Seq<Chunk>, dx: int, k: int) -> int
    decreases k,
{
    if k <= 0 {
        0
    } else {
        spec_evict_count(s, dx, k - 1) + if spec_evicts(s[k - 1], dx) {
            1int
        } else {
            0int
        }
    }
}

/// The net movement of the window centre over the first `k` chunks: one
/// step back per backward eviction, one step forward per forward eviction.
pub open spec fn spec_offset_delta(s: Seq<Chunk>, dx: int, k: int) -> int
    decreases k,
{
    if k <= 0 {
        0
    } else {
        spec_offset_delta(s, dx, k - 1) + if spec_evicts_backward(s[k - 1], dx) {
            -1int
        } else if spec_evicts_forward(s[k - 1], dx) {
            1int
        } else {
            0int
        }
    }
}

proof fn lemma_offset_delta_bounds(s: Seq<Chunk>, dx: int, k: int)
    requires
        0 <= k,
    ensures
        -k <= spec_offset_delta(s, dx, k) <= k,
    decreases k,
{
    if k > 0 {
        lemma_offset_delta_bounds(s, dx, k - 1);
    }
}

/// Builds the initial streaming window: `CHUNKS_TO_LOAD` chunks centred on
/// the middle of the world, side by side, resting on the world's bottom row.
pub fn startup(game_world: &GameWorld) -> (s: MapState)
    requires
        chunked_wf(*game_world),
        CHUNKS_TO_LOAD <= spec_chunk_count(*game_world),
    ensures
        s.chunks@.len() == CHUNKS_TO_LOAD,
        s.current_chunk_offset.0 == spec_chunk_count(*game_world) / 2,
        map_state_wf(s, *game_world),
        forall|k: int|
            0 <= k < CHUNKS_TO_LOAD ==> {
                let c = #[trigger] s.chunks@[k];
                &&& c.index == (spec_chunk_count(*game_world) / 2 - CHUNKS_TO_LOAD / 2 + k)
                    % spec_chunk_count(*game_world)
                &&& c.x_offset == (k - CHUNKS_TO_LOAD / 2) * ((CHUNK_WIDTH * BLOCK_SIZE) as int)
                &&& c.y_offset == WORLD_BOTTOM_OFFSET_IN_PIXELS
                &&& chunk_geometry_matches(c, *game_world, c.index as int)
            },
{
    let cnt = game_world.width / CHUNK_WIDTH;
    let initial = cnt / 2;
    let half = CHUNKS_TO_LOAD / 2;
    let mut chunks: Vec<Chunk> = Vec::new();
    for k in 0..CHUNKS_TO_LOAD
        invariant
            chunks@.len() == k,
            forall|i: int|
                0 <= i < k ==> {
                    let c = #[trigger] chunks@[i];
                    &&& c.index == (spec_chunk_count(*game_world) / 2 - CHUNKS_TO_LOAD / 2 + i)
                        % spec_chunk_count(*game_world)
                    &&& c.x_offset == (i - CHUNKS_TO_LOAD / 2) * ((CHUNK_WIDTH * BLOCK_SIZE) as int)
                    &&& c.y_offset == WORLD_BOTTOM_OFFSET_IN_PIXELS
                    &&& chunk_geometry_matches(c, *game_world, c.index as int)
                    &&& c.index < spec_chunk_count(*game_world)
                },
    {
        let chunk_index = initial + k - half;
        let span = (CHUNK_WIDTH * BLOCK_SIZE) as i64;
        proof {
            assert(span == 256);
        }
        let x = ((k as i64) - (half as i64)) * span;
        let c = new_chunk(chunk_index, game_world, x, WORLD_BOTTOM_OFFSET_IN_PIXELS);
        chunks.push(c);
    }
    MapState { chunks, current_chunk_offset: CurrentChunkOffset(initial) }
}

/// One streaming tick: every loaded chunk scrolls by `(-dx, -dy)`; each chunk
/// that has trailed out of the window is despawned and, in the same tick and
/// slot, replaced by a freshly built chunk one window span away on the
/// leading edge, its index `CHUNKS_TO_LOAD` further along (wrapped).  The
/// loaded chunk count never changes; one event is returned per replacement.
pub fn map_movement(
    state: &mut MapState,
    game_world: &GameWorld,
    dx: i64,
    dy: i64,
) -> (events: Vec<NewChunkEvent>)
    requires
        chunked_wf(*game_world),
        CHUNKS_TO_LOAD <= spec_chunk_count(*game_world),
        map_state_wf(*old(state), *game_world),
        forall|k: int|
            0 <= k < old(state).chunks@.len() ==> {
                let c = #[trigger] old(state).chunks@[k];
                &&& -POSITION_LIMIT <= c.x_offset <= POSITION_LIMIT
                &&& -POSITION_LIMIT <= c.y_offset <= POSITION_LIMIT
            },
        -MAX_OFFSET <= dx <= MAX_OFFSET,
        -MAX_OFFSET <= dy <= MAX_OFFSET,
        old(state).current_chunk_offset.0 >= old(state).chunks@.len(),
        old(state).current_chunk_offset.0 + old(state).chunks@.len() <= usize::MAX,
    ensures
        final(state).chunks@.len() == old(state).chunks@.len(),
        map_state_wf(*final(state), *game_world),
        forall|k: int|
            0 <= k < old(state).chunks@.len() ==> spec_slot_after_tick(
                *game_world,
                old(state).chunks@[k],
                #[trigger] final(state).chunks@[k],
                dx as int,
                dy as int,
            ),
        final(state).current_chunk_offset.0 as int == old(state).current_chunk_offset.0
            + spec_offset_delta(
            old(state).chunks@,
            dx as int,
            old(state).chunks@.len() as int,
        ),
        events@.len() == spec_evict_count(
            old(state).chunks@,
            dx as int,
            old(state).chunks@.len() as int,
        ),
        forall|j: int|
            0 <= j < events@.len() ==> {
                let e = #[trigger] events@[j];
                &&& e.slot < old(state).chunks@.len()
                &&& spec_evicts(old(state).chunks@[e.slot as int], dx as int)
                &&& e.chunk_index == final(state).chunks@[e.slot as int].index
            },
{
    let cnt = game_world.width / CHUNK_WIDTH;
    let n = state.chunks.len();
    let mut events: Vec<NewChunkEvent> = Vec::new();
    for k in 0..n
        invariant
            state.chunks@.len() == n,
            forall|i: int| k <= i < n ==> state.chunks@[i] == old(state).chunks@[i],
            forall|i: int|
                0 <= i < k ==> spec_slot_after_tick(
                    *game_world,
                    old(state).chunks@[i],
                    #[trigger] state.chunks@[i],
                    dx as int,
                    dy as int,
                ),
            forall|i: int|
                0 <= i < n ==> (#[trigger] state.chunks@[i]).index < spec_chunk_count(
                    *game_world,
                ),
            state.current_chunk_offset.0 as int == old(state).current_chunk_offset.0
                + spec_offset_delta(old(state).chunks@, dx as int, k as int),
            events@.len() == spec_evict_count(old(state).chunks@, dx as int, k as int),
            forall|j: int|
                0 <= j < events@.len() ==> {
                    let e = #[trigger] events@[j];
                    &&& e.slot < k
                    &&& spec_evicts(old(state).chunks@[e.slot as int], dx as int)
                    &&& e.chunk_index == state.chunks@[e.slot as int].index
                },
    {
        proof {
            lemma_offset_delta_bounds(old(state).chunks@, dx as int, k as int);
        }
        let c = &mut state.chunks[k];
        c.x_offset = c.x_offset - dx;
        c.y_offset = c.y_offset - dy;

        if (c.x_offset > MAX_OFFSET && dx < 0) || (c.x_offset < -MAX_OFFSET && dx > 0) {
            let (new_chunk_offset, next_index) = if c.x_offset > 0 {
                state.current_chunk_offset.0 = state.current_chunk_offset.0 - 1;
                (c.x_offset - MAX_OFFSET * 2, (c.index + cnt) - CHUNKS_TO_LOAD)
            } else {
                state.current_chunk_offset.0 = state.current_chunk_offset.0 + 1;
                (c.x_offset + MAX_OFFSET * 2, c.index + CHUNKS_TO_LOAD)
            };
            let nc = new_chunk(next_index, game_world, new_chunk_offset, c.y_offset);
            let spawned_index = nc.index;
            *c = nc;
            events.push(NewChunkEvent { slot: k, chunk_index: spawned_index });
        }
    }
    events
}

} // verus!
