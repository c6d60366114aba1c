//! The player character's data: animation state machine and frame ranges,
//! coin pouch and health, and the per-frame state decision.  The physics
//! engine drives the actual movement; velocities reach the decision logic in
//! thousandths of a pixel per frame.

use vstd::prelude::*;

use crate::pickables::PickableItemType;

verus! {

/// Marker for the character subsystem.
pub struct CharacterPlugin;

/// Velocity threshold (in thousandths of a pixel per frame) separating
/// jumping and falling from grounded states.
pub const STATE_SPEED_THRESHOLD_MILLIS: i64 = 400;

/// The character's animation state.
#[derive(PartialEq, Eq, Structural, Clone, Copy, Debug, Default)]
pub enum CharacterState {
    #[default]
    Idle,
    Walking,
    Jumping,
    Falling,
}

impl CharacterState {
    /// The first and last sprite-sheet frame of this state's animation.
    pub open spec fn spec_range(self) -> (usize, usize) {
        match self {
            CharacterState::Idle => (0usize, 4usize),
            CharacterState::Walking => (8usize, 15usize),
            CharacterState::Jumping => (16usize, 16usize),
            CharacterState::Falling => (24usize, 24usize),
        }
    }

    pub fn get_range(&self) -> (r: (usize, usize))
        ensures
            r == self.spec_range(),
    {
        match self {
            CharacterState::Idle => (0, 4),
            CharacterState::Walking => (8, 15),
            CharacterState::Jumping => (16, 16),
            CharacterState::Falling => (24, 24),
        }
    }
}

/// The player character.
pub struct Character {
    pub movement_speed: i64,
    pub looking_left: bool,
    pub state: CharacterState,
}

/// The character's coin purse.
pub struct CoinPouch(pub u64);

/// Health in half-hearts: `current` out of `2 * max_full_hearts`.
pub struct HealthPoints {
    pub max_full_hearts: u8,
    pub current: u8,
}

impl HealthPoints {
    /// Full health over `hearts` hearts.
    pub fn full(hearts: u8) -> (hp: HealthPoints)
        requires
            hearts <= 127,
        ensures
            hp.max_full_hearts == hearts,
            hp.current == 2 * hearts,
    {
        HealthPoints { max_full_hearts: hearts, current: hearts * 2 }
    }
}

/// The animation state the character enters, decided from its vertical
/// velocity (in thousandths of a pixel per frame) and whether it walks.
pub fn next_character_state(vertical_speed_millis: i64, walking: bool) -> (s: CharacterState)
    ensures
        s == (if vertical_speed_millis > STATE_SPEED_THRESHOLD_MILLIS {
            CharacterState::Jumping
        } else if vertical_speed_millis < -STATE_SPEED_THRESHOLD_MILLIS {
            CharacterState::Falling
        } else if walking {
            CharacterState::Walking
        } else {
            CharacterState::Idle
        }),
{
    if vertical_speed_millis > STATE_SPEED_THRESHOLD_MILLIS {
        CharacterState::Jumping
    } else if vertical_speed_millis < -STATE_SPEED_THRESHOLD_MILLIS {
        CharacterState::Falling
    } else if walking {
        CharacterState::Walking
    } else {
        CharacterState::Idle
    }
}

/// Collects a pickable into the pouch, crediting the item's coin value.
pub fn collect_coins(pouch: &mut CoinPouch, item: PickableItemType)
    requires
        old(pouch).0 + item.spec_coins() <= u64::MAX,
    ensures
        final(pouch).0 == old(pouch).0 + item.spec_coins(),
{
    let coins = item.get_coins();
    pouch.0 = pouch.0 + coins;
}

} // verus!
