//! The decorative player sprite placed at the world's centre at startup.

use vstd::prelude::*;

verus! {

/// Marker component for the decorative player entity.
pub struct Player;

/// Marker for the player subsystem.
pub struct PlayerPlugin;

} // verus!
