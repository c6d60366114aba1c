//! The game world: a per-column map of terrain heights in blocks, precomputed
//! from a coherent-noise signal and immutable afterwards.  The world is
//! logically circular: lookups wrap around the horizontal axis.

use vstd::prelude::*;

use crate::utils::rand_below;
use crate::BLOCK_SIZE;

verus! {

/// Upper bound on a column height the world accepts, in blocks.
pub const HEIGHT_LIMIT: usize = 0x10_0000;

/// Upper bound on the number of columns of a world.
pub const WIDTH_LIMIT: usize = 0x10_0000;

/// A 2D position in pixel coordinates.
#[derive(PartialEq, Eq, Structural, Clone, Copy, Debug)]
pub struct Point {
    pub x: i64,
    pub y: i64,
}

/// The world's terrain: one surface height per column.
pub struct GameWorld {
    /// Count of columns, fixed at startup.
    pub width: usize,
    /// Per-column surface heights, in blocks.
    pub surface_height: Vec<usize>,
}

/// The height of column `x` after single-column spikes are suppressed: a
/// column strictly higher than both its (circular) neighbours is lowered to
/// the greater of the two.  Defined for `0 <= x < s.len()`.
pub open spec fn spec_suppressed(s: Seq<usize>, x: int) -> usize {
    let n = s.len() as int;
    let h = s[x];
    let left = if x > 0 {
        s[x - 1]
    } else {
        s[n - 1]
    };
    let right = if x < n - 1 {
        s[x + 1]
    } else {
        s[0]
    };
    if h > left && h > right {
        if left > right {
            left
        } else {
            right
        }
    } else {
        h
    }
}

/// What `generate_height_map` promises of its result: the heights are a pure
/// function of the raw signal and the smoothing toggle.
pub open spec fn matches_generated(gw: GameWorld, raw: Seq<usize>, smooth: bool) -> bool {
    &&& gw.width == raw.len()
    &&& gw.heights().len() == raw.len()
    &&& !smooth ==> gw.heights() == raw
    &&& smooth ==> forall|i: int|
        0 <= i < raw.len() ==> gw.heights()[i] == spec_suppressed(raw, i)
}

impl GameWorld {
    /// The per-column heights, in blocks.
    pub open spec fn heights(&self) -> Seq<usize> {
        self.surface_height@
    }

    /// Well-formedness: one bounded height for every column.
    pub open spec fn wf(&self) -> bool {
        &&& self.width == self.heights().len()
        &&& 1 <= self.width <= WIDTH_LIMIT
        &&& forall|i: int| 0 <= i < self.heights().len() ==> self.heights()[i] <= HEIGHT_LIMIT
    }

    /// The height of column `x`, wrapping around the circular world.
    pub open spec fn spec_height_at(&self, x: int) -> usize {
        self.heights()[x % (self.width as int)]
    }

    pub fn new(surface_height: Vec<usize>) -> (gw: GameWorld)
        requires
            1 <= surface_height@.len() <= WIDTH_LIMIT,
            forall|i: int| 0 <= i < surface_height@.len() ==> surface_height@[i] <= HEIGHT_LIMIT,
        ensures
            gw.wf(),
            gw.width == surface_height@.len(),
            gw.heights() == surface_height@,
    {
        let width = surface_height.len();
        GameWorld { width, surface_height }
    }

    /// The raw height of column `x`, reduced modulo the world width.
    pub fn get_height(&self, x: usize) -> (h: usize)
        requires
            self.wf(),
        ensures
            h == self.spec_height_at(x as int),
            h <= HEIGHT_LIMIT,
    {
        self.surface_height[x % self.width]
    }

    /// The height of column `x` with single-column spikes suppressed on
    /// lookup: a column strictly higher than both neighbours reports the
    /// greater neighbour height instead.
    pub fn get_height_in_blocks(&self, x: usize) -> (h: usize)
        requires
            self.wf(),
            x < self.width,
        ensures
            h == spec_suppressed(self.heights(), x as int),
            h <= HEIGHT_LIMIT,
    {
        proof {
            vstd::arithmetic::div_mod::lemma_small_mod(x as nat, self.width as nat);
        }
        let height = self.surface_height[x % self.width];
        let left_height = if x > 0 {
            self.surface_height[x - 1]
        } else {
            self.surface_height[self.width - 1]
        };
        let right_height = if x < self.width - 1 {
            self.surface_height[x + 1]
        } else {
            self.surface_height[0]
        };

        if height > left_height && height > right_height {
            if left_height > right_height {
                left_height
            } else {
                right_height
            }
        } else {
            height
        }
    }

    /// The pixel position of the block at column `x`, row `y`.
    pub fn get_block_position(x: usize, y: usize) -> (p: Point)
        requires
            x <= WIDTH_LIMIT,
            y <= HEIGHT_LIMIT,
        ensures
            p.x == x * BLOCK_SIZE,
            p.y == y * BLOCK_SIZE,
    {
        Point { x: (x as i64) * (BLOCK_SIZE as i64), y: (y as i64) * (BLOCK_SIZE as i64) }
    }

    /// A uniformly random column of the world.
    pub fn get_random_x_block(&self) -> (x: usize)
        requires
            self.wf(),
        ensures
            x < self.width,
    {
        rand_below(self.width)
    }

    /// The pixel height of the walkable surface over column `x`: the top of
    /// the surface block, half a block below the (suppressed) terrain height.
    pub fn get_surface(&self, x: usize) -> (s: i64)
        requires
            self.wf(),
            x < self.width,
        ensures
            s == spec_suppressed(self.heights(), x as int) * BLOCK_SIZE - BLOCK_SIZE / 2,
    {
        let h = self.get_height_in_blocks(x);
        (h as i64) * (BLOCK_SIZE as i64) - ((BLOCK_SIZE / 2) as i64)
    }
}

/// Builds the world's height map from a raw per-column signal, optionally
/// applying the spike-suppression pass to every column.
pub fn generate_height_map(raw: Vec<usize>, smooth: bool) -> (gw: GameWorld)
    requires
        1 <= raw@.len() <= WIDTH_LIMIT,
        forall|i: int| 0 <= i < raw@.len() ==> raw@[i] <= HEIGHT_LIMIT,
    ensures
        gw.wf(),
        matches_generated(gw, raw@, smooth),
{
    if !smooth {
        return GameWorld::new(raw);
    }
    let n = raw.len();
    let mut out: Vec<usize> = Vec::new();
    for x in 0..n
        invariant
            out@.len() == x,
            forall|i: int| 0 <= i < x ==> out@[i] == spec_suppressed(raw@, i),
    {
        let height = raw[x];
        let left_height = if x > 0 {
            raw[x - 1]
        } else {
            raw[n - 1]
        };
        let right_height = if x < n - 1 {
            raw[x + 1]
        } else {
            raw[0]
        };
        let h = if height > left_height && height > right_height {
            if left_height > right_height {
                left_height
            } else {
                right_height
            }
        } else {
            height
        };
        out.push(h);
    }
    GameWorld::new(out)
}

/// Determinism of height-map generation: two worlds generated from the same
/// raw signal with the same smoothing toggle carry identical heights.
pub proof fn lemma_generate_deterministic(
    w1: GameWorld,
    w2: GameWorld,
    raw: Seq<usize>,
    smooth: bool,
)
    requires
        matches_generated(w1, raw, smooth),
        matches_generated(w2, raw, smooth),
    ensures
        w1.width == w2.width,
        w1.heights() =~= w2.heights(),
{
    if smooth {
        assert forall|i: int| 0 <= i < w1.heights().len() implies w1.heights()[i]
            == w2.heights()[i] by {
            assert(w1.heights()[i] == spec_suppressed(raw, i));
            assert(w2.heights()[i] == spec_suppressed(raw, i));
        }
    }
}

/// Wrap consistency: the height of column `x` equals the height of column
/// `x + width`, for every integer column.
pub proof fn lemma_height_wraps(gw: GameWorld, x: int)
    requires
        gw.wf(),
    ensures
        gw.spec_height_at(x + gw.width) == gw.spec_height_at(x),
{
    vstd::arithmetic::div_mod::lemma_mod_add_multiples_vanish(x, gw.width as int);
}

} // verus!
