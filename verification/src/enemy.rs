//! The slime enemy: its animation state machine, patrol direction and the
//! per-frame decisions.  As for the character, the physics engine performs
//! the movement; velocities and contact normals reach the decision logic in
//! thousandths of a unit.

use vstd::prelude::*;

use crate::character::STATE_SPEED_THRESHOLD_MILLIS;

verus! {

/// Marker for the enemy subsystem.
pub struct EnemyPlugin;

/// Health in half-hearts: `current` out of `2 * max_full_hearts`.
pub struct HealthPoints {
    pub max_full_hearts: u8,
    pub current: u8,
}

impl HealthPoints {
    /// Full health over `hearts` hearts.
    pub fn full(hearts: u8) -> (hp: HealthPoints)
        requires
            hearts <= 127,
        ensures
            hp.max_full_hearts == hearts,
            hp.current == 2 * hearts,
    {
        HealthPoints { max_full_hearts: hearts, current: hearts * 2 }
    }
}

/// The slime's animation state.
#[derive(PartialEq, Eq, Structural, Clone, Copy, Debug, Default)]
pub enum SlimeState {
    #[default]
    Idle,
    Walking,
    Falling,
}

impl SlimeState {
    /// The first and last sprite-sheet frame of this state's animation.
    pub open spec fn spec_range(self) -> (usize, usize) {
        match self {
            SlimeState::Idle => (0usize, 1usize),
            SlimeState::Walking => (0usize, 5usize),
            SlimeState::Falling => (2usize, 2usize),
        }
    }

    pub fn get_range(&self) -> (r: (usize, usize))
        ensures
            r == self.spec_range(),
    {
        match self {
            SlimeState::Idle => (0, 1),
            SlimeState::Walking => (0, 5),
            SlimeState::Falling => (2, 2),
        }
    }
}

/// A repeating animation timer in whole milliseconds: it finishes once per
/// interval, wrapping the spare time into the next cycle.
pub struct AnimationTimer {
    pub interval_millis: u64,
    pub elapsed_millis: u64,
}

impl AnimationTimer {
    /// A fresh timer with the given repeat interval.
    pub fn new(interval_millis: u64) -> (t: AnimationTimer)
        requires
            1 <= interval_millis,
        ensures
            t.interval_millis == interval_millis,
            t.elapsed_millis == 0,
    {
        AnimationTimer { interval_millis, elapsed_millis: 0 }
    }

    /// Advances the timer by `delta_millis`; reports whether the interval
    /// elapsed, keeping the remainder for the next cycle.
    pub fn tick(&mut self, delta_millis: u64) -> (finished: bool)
        requires
            1 <= old(self).interval_millis,
            old(self).elapsed_millis < old(self).interval_millis,
            old(self).elapsed_millis + delta_millis <= u64::MAX,
        ensures
            final(self).interval_millis == old(self).interval_millis,
            finished == (old(self).elapsed_millis + delta_millis >= old(self).interval_millis),
            final(self).elapsed_millis == (old(self).elapsed_millis + delta_millis) % (old(
                self,
            ).interval_millis as int),
    {
        self.elapsed_millis = self.elapsed_millis + delta_millis;
        if self.elapsed_millis >= self.interval_millis {
            self.elapsed_millis = self.elapsed_millis % self.interval_millis;
            true
        } else {
            proof {
                vstd::arithmetic::div_mod::lemma_small_mod(
                    self.elapsed_millis as nat,
                    self.interval_millis as nat,
                );
            }
            false
        }
    }
}

/// A slime enemy.
pub struct Slime {
    pub movement_speed: i64,
    pub looking_left: bool,
    pub state: SlimeState,
}

/// The horizontal direction a slime patrols in: `1` or `-1`.
pub struct Direction {
    pub x: i64,
}

/// The animation state a slime enters, decided from its vertical velocity
/// (in thousandths of a pixel per frame) and whether it walks.
pub fn next_slime_state(vertical_speed_millis: i64, walking: bool) -> (s: SlimeState)
    ensures
        s == (if vertical_speed_millis < -STATE_SPEED_THRESHOLD_MILLIS {
            SlimeState::Falling
        } else if walking {
            SlimeState::Walking
        } else {
            SlimeState::Idle
        }),
{
    if vertical_speed_millis < -STATE_SPEED_THRESHOLD_MILLIS {
        SlimeState::Falling
    } else if walking {
        SlimeState::Walking
    } else {
        SlimeState::Idle
    }
}

/// The patrol direction after touching a wall: a slime walking left turns
/// around on a contact normal pointing right (above half a unit), and one
/// walking right turns around on a normal pointing left.
pub fn slime_turn(looking_left: bool, normal_x_millis: i64, current: i64) -> (d: i64)
    ensures
        d == (if looking_left && normal_x_millis > 500 {
            1int
        } else if !looking_left && normal_x_millis < -500 {
            -1int
        } else {
            current as int
        }),
{
    if looking_left && normal_x_millis > 500 {
        1
    } else if !looking_left && normal_x_millis < -500 {
        -1
    } else {
        current
    }
}

} // verus!
