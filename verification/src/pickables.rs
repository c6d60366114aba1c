//! Collectible pickables: item types and their coin values, the random
//! initial scatter over the world's columns, and the placement of each
//! pickable onto the chunk whose column range contains it.

use vstd::prelude::*;

use crate::game_world::{spec_suppressed, GameWorld, Point};
use crate::map::{chunked_wf, spec_chunk_count};
use crate::utils::rand_below;
use crate::{BLOCK_SIZE, CHUNK_WIDTH};

verus! {

/// Marker for the pickables subsystem.
pub struct PickablesPlugin;

/// The kinds of collectible items.
#[derive(PartialEq, Eq, Structural, Clone, Copy, Debug)]
pub enum PickableItemType {
    Diammond,
    Gem,
    Emmerald,
    Gold,
}

impl PickableItemType {
    /// The sprite-sheet index of this item's icon.
    pub open spec fn spec_sprite_index(self) -> usize {
        match self {
            PickableItemType::Diammond => 1,
            PickableItemType::Gem => 2,
            PickableItemType::Emmerald => 3,
            PickableItemType::Gold => 4,
        }
    }

    pub fn get_sprite_index(&self) -> (i: usize)
        ensures
            i == self.spec_sprite_index(),
    {
        match self {
            PickableItemType::Diammond => 1,
            PickableItemType::Gem => 2,
            PickableItemType::Emmerald => 3,
            PickableItemType::Gold => 4,
        }
    }

    /// The number of coins this item is worth.
    pub open spec fn spec_coins(self) -> u64 {
        match self {
            PickableItemType::Diammond => 5,
            PickableItemType::Gem => 3,
            PickableItemType::Emmerald => 2,
            PickableItemType::Gold => 1,
        }
    }

    pub fn get_coins(&self) -> (c: u64)
        ensures
            c == self.spec_coins(),
    {
        match self {
            PickableItemType::Diammond => 5,
            PickableItemType::Gem => 3,
            PickableItemType::Emmerald => 2,
            PickableItemType::Gold => 1,
        }
    }
}

/// Number of pickables handed out so far; the source of pickable ids.
pub struct PickableCount(pub u8);

/// A collectible scattered over the world, waiting for its chunk to load.
#[derive(PartialEq, Eq, Structural, Clone, Copy, Debug)]
pub struct Pickable {
    pub id: u8,
    pub item_type: PickableItemType,
    pub x: usize,
}

/// A pickable materialised as a child of a loaded chunk; `source` is the
/// position of the originating pickable in the scatter list.
#[derive(PartialEq, Eq, Structural, Clone, Copy, Debug)]
pub struct PlacedPickable {
    pub id: u8,
    pub source: usize,
    pub item_type: PickableItemType,
}

/// The pickable type selected by a uniform draw in `0..4`.
pub fn pickable_type_from(r: usize) -> (t: PickableItemType)
    ensures
        t == (if r == 0 {
            PickableItemType::Diammond
        } else if r == 1 {
            PickableItemType::Gem
        } else if r == 2 {
            PickableItemType::Emmerald
        } else {
            PickableItemType::Gold
        }),
{
    if r == 0 {
        PickableItemType::Diammond
    } else if r == 1 {
        PickableItemType::Gem
    } else if r == 2 {
        PickableItemType::Emmerald
    } else {
        PickableItemType::Gold
    }
}

/// A uniformly random pickable type.
pub fn random_pickable_type() -> PickableItemType {
    pickable_type_from(rand_below(4))
}

/// Scatters a random number of pickables (at least 8, fewer than 64) over
/// random columns of the world, handing out consecutive ids.
pub fn generate_pickables(game_world: &GameWorld, counter: &mut PickableCount) -> (ps: Vec<
    Pickable,
>)
    requires
        game_world.wf(),
        old(counter).0 <= 192,
    ensures
        8 <= ps@.len() < 64,
        final(counter).0 == old(counter).0 + ps@.len(),
        forall|i: int|
            0 <= i < ps@.len() ==> {
                &&& (#[trigger] ps@[i]).x < game_world.width
                &&& ps@[i].id == old(counter).0 + 1 + i
            },
{
    let pickables_count = 8 + rand_below(56);
    let mut ps: Vec<Pickable> = Vec::new();
    for k in 0..pickables_count
        invariant
            ps@.len() == k,
            counter.0 == old(counter).0 + k,
            forall|i: int|
                0 <= i < k ==> {
                    &&& (#[trigger] ps@[i]).x < game_world.width
                    &&& ps@[i].id == old(counter).0 + 1 + i
                },
    {
        counter.0 = counter.0 + 1;
        ps.push(
            Pickable {
                id: counter.0,
                item_type: random_pickable_type(),
                x: game_world.get_random_x_block(),
            },
        );
    }
    ps
}

/// Whether pickable `p` lies in the column range of chunk `ci`.
pub open spec fn spec_in_chunk(p: Pickable, ci: int) -> bool {
    ci * CHUNK_WIDTH <= p.x < (ci + 1) * CHUNK_WIDTH
}

/// Where a pickable rests: over its column within the chunk, sitting on the
/// walkable surface.
pub open spec fn spec_placement(gw: GameWorld, p: Pickable) -> Point {
    Point {
        x: ((p.x % CHUNK_WIDTH) * BLOCK_SIZE) as i64,
        y: (spec_suppressed(gw.heights(), p.x as int) * BLOCK_SIZE) as i64,
    }
}

/// The placements produced for the first `k` pickables that fall into chunk
/// `ci`, in scatter order.
pub open spec fn spec_placed(gw: GameWorld, ps: Seq<Pickable>, ci: int, k: int) -> Seq<
    (PlacedPickable, Point),
>
    decreases k,
{
    if k <= 0 {
        Seq::empty()
    } else {
        spec_placed(gw, ps, ci, k - 1) + if spec_in_chunk(ps[k - 1], ci) {
            seq![
                (
                    PlacedPickable {
                        id: ps[k - 1].id,
                        source: (k - 1) as usize,
                        item_type: ps[k - 1].item_type,
                    },
                    spec_placement(gw, ps[k - 1]),
                ),
            ]
        } else {
            Seq::empty()
        }
    }
}

/// Reacts to a freshly spawned chunk: selects every pickable whose column
/// lies in the chunk's range and computes its placement relative to the
/// chunk, for the renderer to attach as the chunk's children.
pub fn on_new_chunk(
    chunk_index: usize,
    pickables: &Vec<Pickable>,
    game_world: &GameWorld,
) -> (placed: Vec<(PlacedPickable, Point)>)
    requires
        chunked_wf(*game_world),
        chunk_index < spec_chunk_count(*game_world),
        forall|i: int|
            0 <= i < pickables@.len() ==> (#[trigger] pickables@[i]).x < game_world.width,
    ensures
        placed@ == spec_placed(
            *game_world,
            pickables@,
            chunk_index as int,
            pickables@.len() as int,
        ),
{
    let range_start = chunk_index * CHUNK_WIDTH;
    let range_end = (chunk_index + 1) * CHUNK_WIDTH;
    let mut placed: Vec<(PlacedPickable, Point)> = Vec::new();
    for i in 0..pickables.len()
        invariant
            placed@ =~= spec_placed(*game_world, pickables@, chunk_index as int, i as int),
    {
        let p = pickables[i];
        if range_start <= p.x && p.x < range_end {
            let px = ((p.x % CHUNK_WIDTH) * BLOCK_SIZE) as i64;
            let py = game_world.get_surface(p.x) + ((BLOCK_SIZE / 2) as i64);
            placed.push(
                (PlacedPickable { id: p.id, source: i, item_type: p.item_type }, Point {
                    x: px,
                    y: py,
                }),
            );
        }
        proof {
            assert(placed@ =~= spec_placed(
                *game_world,
                pickables@,
                chunk_index as int,
                i + 1,
            ));
        }
    }
    placed
}

} // verus!
