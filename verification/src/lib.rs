//! Core logic of a 2D side-scrolling platformer: a procedurally generated,
//! horizontally wrapping terrain split into fixed-width chunks of blocks,
//! streamed in and out around a moving reference point.
//!
//! The world model is fully integral: column heights are block counts and
//! placements are pixel coordinates.  Randomness enters only through narrow
//! wrappers around the `rand` crate; everything derived from a height map is a
//! pure, proved function of it.

#![verifier::loop_isolation(false)]

use vstd::prelude::*;

pub mod camera;
pub mod character;
pub mod control;
pub mod enemy;
pub mod game;
pub mod game_world;
pub mod map;
pub mod physics;
pub mod pickables;
pub mod player;
pub mod ui;
pub mod utils;

verus! {

/// Canvas height in pixels.
pub const CANVAS_HEIGHT: usize = 432;

/// Canvas width based on height to keep a 16:9 aspect ratio.
pub const CANVAS_WIDTH: usize = CANVAS_HEIGHT / 9 * 16;

/// Block size in pixels (height and width).
pub const BLOCK_SIZE: usize = 16;

/// Chunk width in blocks.
pub const CHUNK_WIDTH: usize = 16;

/// Number of chunks kept loaded simultaneously.
pub const CHUNKS_TO_LOAD: usize = 16;

/// Scroll speed of the map in blocks per second.
pub const MAP_MOVEMENT_SPEED_IN_BLOCKS: usize = 4;

/// Scroll speed of the camera in pixels per second.
pub const CAMERA_REGULAR_SPEED: usize = BLOCK_SIZE * MAP_MOVEMENT_SPEED_IN_BLOCKS;

/// Character sprite size in pixels.
pub const CHARACTER_SIZE: usize = BLOCK_SIZE * 2;

/// Character movement speed in pixels per second.
pub const CHARACTER_MOVEMENT_SPEED: usize = BLOCK_SIZE * MAP_MOVEMENT_SPEED_IN_BLOCKS * 2;

/// Vertical speed given to the character by a jump.
pub const CHARACTER_JUMP_SPEED: usize = CHARACTER_MOVEMENT_SPEED / 30;

/// How far the character may roam from the camera centre before it follows.
pub const CHARACTER_ROAMING_THRESHOLD: usize = CHUNK_WIDTH * BLOCK_SIZE;

/// Length of one in-game day in seconds.
pub const DAY_DURATION_IN_SECONDS: usize = 4 * 60;

/// World width in columns: one full day of scrolling wraps around the world.
pub const WORLD_WIDTH: usize = DAY_DURATION_IN_SECONDS * MAP_MOVEMENT_SPEED_IN_BLOCKS;

/// World height in blocks.
pub const WORLD_HEIGHT: usize = 128;

/// Number of chunks the standard world is divided into.
pub const CHUNK_COUNT: usize = WORLD_WIDTH / CHUNK_WIDTH;

/// Chunk index the loaded window is initially centred on.
pub const CHUNK_INITIAL_OFFSET: usize = CHUNK_COUNT / 2;

/// Vertical mid-point of the world in blocks; the median terrain height.
pub const FLOOR_MEDIAN: usize = WORLD_HEIGHT / 2;

/// Maximal deviation of the terrain height from the median, in blocks.
pub const FLOOR_THRESHOLD: usize = FLOOR_MEDIAN / 2;

/// Vertical placement of the world's bottom row, in blocks below the origin.
pub const WORLD_BOTTOM_OFFSET: i64 = -64;

/// Vertical placement of the world's bottom row, in pixels.
pub const WORLD_BOTTOM_OFFSET_IN_PIXELS: i64 = WORLD_BOTTOM_OFFSET * 16;

/// The column at the centre of the standard world.
pub const WORLD_CENTER_COL: usize = WORLD_WIDTH / 2 - 1;

/// Half the pixel span of the loaded chunk window
/// (`CHUNKS_TO_LOAD * CHUNK_WIDTH * BLOCK_SIZE / 2`): a chunk farther behind
/// the moving reference point than this is evicted and replaced.
pub const MAX_OFFSET: i64 = 2048;

} // verus!
