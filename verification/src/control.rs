//! Input mapping: turns the pressed-key state into the per-tick scroll
//! offset and character movement intent.  The host engine polls the keys and
//! supplies the per-tick speed; the mapping itself is pure.

use vstd::prelude::*;

verus! {

/// Marker for the control subsystem.
pub struct ControlPlugin;

/// The per-tick map scroll offset, in pixels: horizontal and vertical.
pub struct MapControlOffset(pub i64, pub i64);

/// The character's movement intent: `x` in `-1..=1`, `y` is `1` on a jump.
pub struct CharacterControlInput {
    pub x: i64,
    pub y: i64,
}

/// The signed direction of an input axis: `1` for the positive key, `-1`
/// for the negative key, `0` for neither or both.
pub fn axis_direction(positive_pressed: bool, negative_pressed: bool) -> (d: i64)
    ensures
        d == (if positive_pressed {
            1int
        } else {
            0int
        }) - (if negative_pressed {
            1int
        } else {
            0int
        }),
{
    let p: i64 = if positive_pressed {
        1
    } else {
        0
    };
    let n: i64 = if negative_pressed {
        1
    } else {
        0
    };
    p - n
}

/// Maps the arrow keys to this tick's map scroll offset at the given
/// per-tick speed.
pub fn map_movement_input(
    right: bool,
    left: bool,
    up: bool,
    down: bool,
    speed_per_tick: i64,
) -> (o: MapControlOffset)
    requires
        0 <= speed_per_tick <= 0x10_0000,
    ensures
        o.0 == ((if right {
            1int
        } else {
            0int
        }) - (if left {
            1int
        } else {
            0int
        })) * speed_per_tick,
        o.1 == ((if up {
            1int
        } else {
            0int
        }) - (if down {
            1int
        } else {
            0int
        })) * speed_per_tick,
{
    let xdir = axis_direction(right, left);
    let ydir = axis_direction(up, down);
    let xdelta: i64 = if xdir == 1 {
        speed_per_tick
    } else if xdir == -1 {
        -speed_per_tick
    } else {
        0
    };
    let ydelta: i64 = if ydir == 1 {
        speed_per_tick
    } else if ydir == -1 {
        -speed_per_tick
    } else {
        0
    };
    MapControlOffset(xdelta, ydelta)
}

/// Maps the movement keys to the character's movement intent.
pub fn character_movement_input(
    left_key: bool,
    right_key: bool,
    jump_key: bool,
) -> (i: CharacterControlInput)
    ensures
        i.x == (if right_key {
            1int
        } else {
            0int
        }) - (if left_key {
            1int
        } else {
            0int
        }),
        i.y == (if jump_key {
            1int
        } else {
            0int
        }),
{
    let x = axis_direction(right_key, left_key);
    let y: i64 = if jump_key {
        1
    } else {
        0
    };
    CharacterControlInput { x, y }
}

} // verus!
