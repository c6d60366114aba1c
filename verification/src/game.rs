//! Top-level game wiring markers and the day counter.

use vstd::prelude::*;

verus! {

/// Marker for the game's root plugin.
pub struct GamePlugin;

/// Builder marker grouping every subsystem of the game.
pub struct GamePluginGroupBuilder;

/// How many in-game days have passed: the reference point has wrapped the
/// circular world once per day.
pub struct DayCount(pub i32);

} // verus!
