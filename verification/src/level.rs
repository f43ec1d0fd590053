//! A level: an ordered list of planets on a grid, the terminal flags, and the
//! per-level score. The order of the planet list is fixed at construction; it
//! is both the placement queue order and the identity of each planet.

use vstd::prelude::*;

use crate::planet::{IVec2, Planet, PlanetState};

verus! {

/// `t` lies on the grid of size `grid`.
pub open spec fn tile_in_grid(t: IVec2, grid: IVec2) -> bool {
    0 <= t.x < grid.x && 0 <= t.y < grid.y
}

/// Every planet that stands on a tile stands inside the grid.
pub open spec fn planets_in_grid(ps: Seq<Planet>, grid: IVec2) -> bool {
    forall|k: int|
        0 <= k < ps.len() && (#[trigger] ps[k]).occupies() ==> tile_in_grid(ps[k].tile(), grid)
}

/// Every recorded displacement is at most one tile per axis.
pub open spec fn deltas_unit(ps: Seq<Planet>) -> bool {
    forall|k: int|
        0 <= k < ps.len() ==> -1 <= (#[trigger] ps[k]).sim_tile_delta.x <= 1 && -1 <= ps[k].sim_tile_delta.y <= 1
}

/// The stability predicate: at least one planet, every planet placed, and
/// every planet at rest after the last pass. Any pending planet, and any
/// colliding planet, makes the level not stable.
pub open spec fn stable_now(ps: Seq<Planet>) -> bool {
    ps.len() > 0 && forall|k: int|
        0 <= k < ps.len() ==> (#[trigger] ps[k]).state is Placed && ps[k].sim_tile_delta == (IVec2 {
            x: 0,
            y: 0,
        })
}

/// A level. `planets_original` is the immutable construction-time snapshot
/// that `reset` restores; `is_failed` and `is_stable` are the terminal
/// classification, and `was_failed` / `was_stable` latch the first time each
/// fired, so that one-shot effects run exactly once. `is_setup` records that
/// the one-time level-entry work has run.
#[derive(Clone, PartialEq, Debug)]
pub struct Level {
    pub name: String,
    pub planets: Vec<Planet>,
    pub planets_original: Vec<Planet>,
    pub grid_tiles: IVec2,
    pub score: i32,
    pub was_failed: bool,
    pub was_stable: bool,
    pub is_failed: bool,
    pub is_stable: bool,
    pub is_setup: bool,
}

impl Level {
    /// Well-formedness: a positive grid, at least one planet, every standing
    /// planet on the grid, and every recorded displacement within one tile.
    /// The same holds of the construction-time snapshot, so that it holds
    /// again after a reset.
    pub open spec fn wf(self) -> bool {
        &&& self.grid_tiles.x >= 1
        &&& self.grid_tiles.y >= 1
        &&& self.planets@.len() >= 1
        &&& planets_in_grid(self.planets@, self.grid_tiles)
        &&& deltas_unit(self.planets@)
        &&& self.planets_original@.len() >= 1
        &&& planets_in_grid(self.planets_original@, self.grid_tiles)
        &&& deltas_unit(self.planets_original@)
    }

    /// The parts of a level that never change after construction.
    pub open spec fn same_identity(self, other: Level) -> bool {
        &&& other.name@ == self.name@
        &&& other.planets_original@ == self.planets_original@
        &&& other.grid_tiles == self.grid_tiles
    }

    /// The level is in its construction-time state: no flags set, no score
    /// spent, and the planet list untouched.
    pub open spec fn is_fresh(self) -> bool {
        &&& self.planets@ == self.planets_original@
        &&& self.score == 0
        &&& !self.was_failed
        &&& !self.was_stable
        &&& !self.is_failed
        &&& !self.is_stable
        &&& !self.is_setup
    }

    /// Some planet of the level is still waiting to be placed.
    pub open spec fn has_pending(self) -> bool {
        exists|k: int|
            0 <= k < self.planets@.len() && (#[trigger] self.planets@[k]).is_pending()
    }

    /// `other` is `self` brought back to its construction-time state.
    pub open spec fn is_reset_of(self, other: Level) -> bool {
        &&& self.same_identity(other)
        &&& other.planets@ == self.planets_original@
        &&& other.score == 0
        &&& !other.was_failed
        &&& !other.was_stable
        &&& !other.is_failed
        &&& !other.is_stable
        &&& !other.is_setup
    }

    pub fn new(name: String, grid_tiles: IVec2, planets: Vec<Planet>) -> (r: Level)
        requires
            grid_tiles.x >= 1,
            grid_tiles.y >= 1,
            planets@.len() >= 1,
            planets_in_grid(planets@, grid_tiles),
            deltas_unit(planets@),
        ensures
            r.name@ == name@,
            r.planets@ == planets@,
            r.planets_original@ == planets@,
            r.grid_tiles == grid_tiles,
            r.score == 0,
            !r.was_failed,
            !r.was_stable,
            !r.is_failed,
            !r.is_stable,
            !r.is_setup,
            r.wf(),
    {
        let planets_original = copy_planets(&planets);
        Level {
            name,
            planets,
            planets_original,
            grid_tiles,
            score: 0,
            was_failed: false,
            was_stable: false,
            is_failed: false,
            is_stable: false,
            is_setup: false,
        }
    }

    /// Restore the construction-time planets and clear every flag and the
    /// score. This is the only operation that clears `is_failed` or
    /// `is_stable` once set.
    pub fn reset(&mut self)
        ensures
            old(self).is_reset_of(*final(self)),
            old(self).wf() ==> final(self).wf(),
    {
        self.planets = copy_planets(&self.planets_original);
        self.was_failed = false;
        self.was_stable = false;
        self.is_failed = false;
        self.is_stable = false;
        self.is_setup = false;
        self.score = 0;
    }
}

/// An element-wise copy of a planet list.
fn copy_planets(v: &Vec<Planet>) -> (r: Vec<Planet>)
    ensures
        r@ == v@,
{
    let mut r: Vec<Planet> = Vec::new();
    let mut i: usize = 0;
    while i < v.len()
        invariant
            i <= v.len(),
            r@ == v@.subrange(0, i as int),
        decreases v.len() - i,
    {
        r.push(v[i]);
        proof {
            assert(v@.subrange(0, i as int).push(v@[i as int]) =~= v@.subrange(0, i as int + 1));
        }
        i += 1;
    }
    proof {
        assert(r@ =~= v@);
    }
    r
}

/// Whether the planet list satisfies the stability predicate: used by the
/// session to classify a level after a simulation pass.
pub fn planets_all_stable(planets: &Vec<Planet>) -> (r: bool)
    ensures
        r == stable_now(planets@),
{
    if planets.len() == 0 {
        return false;
    }
    let n = planets.len();
    let mut i: usize = 0;
    while i < n
        invariant
            n == planets@.len(),
            i <= n,
            forall|k: int|
                0 <= k < i ==> (#[trigger] planets@[k]).state is Placed
                    && planets@[k].sim_tile_delta == (IVec2 { x: 0, y: 0 }),
        decreases n - i,
    {
        let p = planets[i];
        let placed_at_rest = match p.state {
            PlanetState::Placed(_) => p.sim_tile_delta.x == 0
                && p.sim_tile_delta.y == 0,
            _ => false,
        };
        if !placed_at_rest {
            return false;
        }
        i += 1;
    }
    true
}

/// A pending planet anywhere in the list rules stability out.
pub proof fn lemma_pending_blocks_stability(ps: Seq<Planet>, k: int)
    requires
        0 <= k < ps.len(),
        ps[k].state is Pending,
    ensures
        !stable_now(ps),
{
}

} // verus!
