//! The HUD's data side: which heart icons to show for the character's
//! current health.  The host engine owns the actual UI nodes.

use vstd::prelude::*;

use crate::character::HealthPoints;

verus! {

/// Marker for the HUD subsystem.
pub struct UIPlugin;

/// The sprite-sheet index of heart icon `i` for `current` half-hearts:
/// full hearts first, then at most one half heart, then empty hearts.
pub open spec fn spec_heart_icon(current: int, i: int) -> int {
    if i < current / 2 {
        0
    } else if i < current / 2 + current % 2 {
        1
    } else {
        2
    }
}

/// The row of heart icons displayed for the given health: one icon per
/// heart slot.
pub fn heart_icons(health: &HealthPoints) -> (icons: Vec<usize>)
    ensures
        icons@.len() == health.max_full_hearts,
        forall|i: int|
            0 <= i < icons@.len() ==> #[trigger] icons@[i] == spec_heart_icon(
                health.current as int,
                i,
            ),
{
    let full_hearts = health.current / 2;
    let half_hearts = health.current % 2;
    let mut icons: Vec<usize> = Vec::new();
    for index in 0..health.max_full_hearts
        invariant
            icons@.len() == index,
            forall|i: int|
                0 <= i < index ==> #[trigger] icons@[i] == spec_heart_icon(
                    health.current as int,
                    i,
                ),
    {
        let icon: usize = if index < full_hearts {
            0
        } else if index < full_hearts + half_hearts {
            1
        } else {
            2
        };
        icons.push(icon);
    }
    icons
}

} // verus!
