//! The in-game camera's follow logic.  The camera waits until the character
//! roams past a threshold, catches up to it, then keeps scrolling in the
//! direction of travel.  Positions and speeds are pixels per frame; the host
//! renderer supplies the per-frame speed (which may depend on zoom) and
//! performs the actual transform updates.

use vstd::prelude::*;
use vstd::math::abs;

use crate::{BLOCK_SIZE, CHARACTER_ROAMING_THRESHOLD, CHUNKS_TO_LOAD, CHUNK_WIDTH};

verus! {

/// Marker for the camera subsystem.
pub struct CameraPlugin;

/// The follow state of the in-game camera.
#[derive(PartialEq, Eq, Structural, Clone, Copy, Debug, Default)]
pub enum CameraState {
    #[default]
    Waiting,
    Moving,
    CatchingUp,
}

/// Bound on the camera positions and speeds the follow step accepts.
pub const CAMERA_POSITION_LIMIT: i64 = 0x4000_0000;

/// Bound on a per-frame camera speed.
pub const CAMERA_SPEED_LIMIT: i64 = 0x10_0000;

/// The in-game camera: its position, follow state and current speed, all in
/// whole pixels.
pub struct InGameCamera {
    pub is_going_right: bool,
    pub x: i64,
    pub y: i64,
    pub chunk_unload_after: i64,
    pub state: CameraState,
    pub char_roaming_threshold: i64,
    pub catching_up: i64,
    pub speed: i64,
}

impl InGameCamera {
    /// A camera at the origin, waiting for the character to roam.
    pub fn new() -> (cam: InGameCamera)
        ensures
            cam.is_going_right == false,
            cam.x == 0,
            cam.y == 0,
            cam.chunk_unload_after == (CHUNKS_TO_LOAD / 2 * CHUNK_WIDTH * BLOCK_SIZE) as int,
            cam.state == CameraState::Waiting,
            cam.char_roaming_threshold == CHARACTER_ROAMING_THRESHOLD as int,
            cam.catching_up == 0,
            cam.speed == 0,
    {
        InGameCamera {
            is_going_right: false,
            x: 0,
            y: 0,
            chunk_unload_after: ((CHUNKS_TO_LOAD / 2) * CHUNK_WIDTH * BLOCK_SIZE) as i64,
            state: CameraState::Waiting,
            char_roaming_threshold: CHARACTER_ROAMING_THRESHOLD as i64,
            catching_up: 0,
            speed: 0,
        }
    }
}

/// One camera follow step, given the character's position and the per-frame
/// speed the renderer computed.  Waiting: the camera stands still until the
/// character roams past the threshold, then starts catching up towards it.
/// Catching up: the remaining distance shrinks by the speed until it is
/// spent, which switches the camera to plain scrolling.  Moving or catching
/// up, the camera advances by the speed in its direction of travel and
/// follows the character vertically.
pub fn move_camera(cam: &mut InGameCamera, char_x: i64, char_y: i64, speed: i64)
    requires
        0 <= speed <= CAMERA_SPEED_LIMIT,
        -CAMERA_POSITION_LIMIT <= old(cam).x <= CAMERA_POSITION_LIMIT,
        -CAMERA_POSITION_LIMIT <= char_x <= CAMERA_POSITION_LIMIT,
        -CAMERA_POSITION_LIMIT <= char_y <= CAMERA_POSITION_LIMIT,
        0 <= old(cam).catching_up <= CAMERA_POSITION_LIMIT,
    ensures
        final(cam).char_roaming_threshold == old(cam).char_roaming_threshold,
        final(cam).chunk_unload_after == old(cam).chunk_unload_after,
        old(cam).state is Waiting ==> final(cam).x == old(cam).x && final(cam).y == old(cam).y
            && final(cam).speed == old(cam).speed && (if abs(char_x as int) > old(
            cam,
        ).char_roaming_threshold {
            &&& final(cam).state is CatchingUp
            &&& final(cam).is_going_right == (char_x > 0)
            &&& final(cam).catching_up == abs(char_x as int)
        } else {
            *final(cam) == *old(cam)
        }),
        !(old(cam).state is Waiting) ==> {
            let step: int = if old(cam).is_going_right {
                speed as int
            } else {
                -(speed as int)
            };
            &&& final(cam).is_going_right == old(cam).is_going_right
            &&& final(cam).speed == speed
            &&& final(cam).x == old(cam).x + step
            &&& final(cam).y == char_y
        },
        old(cam).state is CatchingUp ==> (if old(cam).catching_up - speed <= 0 {
            final(cam).catching_up == 0 && final(cam).state is Moving
        } else {
            final(cam).catching_up == old(cam).catching_up - speed
                && final(cam).state is CatchingUp
        }),
        old(cam).state is Moving ==> final(cam).state is Moving
            && final(cam).catching_up == old(cam).catching_up,
{
    if cam.state == CameraState::Waiting {
        let char_offset = if char_x >= 0 {
            char_x
        } else {
            -char_x
        };
        if char_offset > cam.char_roaming_threshold {
            cam.is_going_right = char_x > 0;
            cam.state = CameraState::CatchingUp;
            cam.catching_up = char_offset;
        }
        return ;
    } else if cam.state == CameraState::CatchingUp {
        cam.speed = speed;
        cam.catching_up = cam.catching_up - speed;
        if cam.catching_up <= 0 {
            cam.catching_up = 0;
            cam.state = CameraState::Moving;
        }
    } else {
        cam.speed = speed;
    }

    let step: i64 = if cam.is_going_right {
        cam.speed
    } else {
        -cam.speed
    };
    cam.x = cam.x + step;
    cam.y = char_y;
}

} // verus!
