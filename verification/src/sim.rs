//! The gravity pass: the per-axis pull each placed planet receives from every
//! other placed planet on its row or column, the unit clamp, the simultaneous
//! move, and the collision marking that follows it.
//!
//! The spec side models one pass over a sequence of planets:
//! `advance_all` moves every placed planet by its clamped accumulated pull,
//! all displacements read from the same pre-pass snapshot; `mark_collisions`
//! then turns every placed planet that shares its tile with another placed
//! planet into `Colliding`. `sim_pass` is the composition.

use vstd::prelude::*;

use crate::level::{deltas_unit, planets_in_grid, tile_in_grid, Level};
use crate::planet::{IVec2, Planet, PlanetState};

verus! {

/// Clamp a displacement to one tile: the net per-pass movement along an axis
/// is never more than 1, however many planets pull.
pub open spec fn clamp_unit(v: int) -> int {
    if v < -1 {
        -1
    } else if v > 1 {
        1
    } else {
        v
    }
}

/// The horizontal pull a planet standing on `me` receives from `o`: planets
/// pull along their own row, toward themselves.
pub open spec fn pull_x(me: IVec2, o: Planet) -> int {
    if o.is_placed() && o.tile().y == me.y {
        if o.tile().x < me.x && o.spec_has_gravity_right() {
            -1
        } else if o.tile().x > me.x && o.spec_has_gravity_left() {
            1
        } else {
            0
        }
    } else {
        0
    }
}

/// The vertical pull a planet standing on `me` receives from `o`: planets
/// pull along their own column, toward themselves. A planet on the same row
/// contributes horizontally only, so the row case is excluded here.
pub open spec fn pull_y(me: IVec2, o: Planet) -> int {
    if o.is_placed() && o.tile().y != me.y && o.tile().x == me.x {
        if o.tile().y < me.y && o.spec_has_gravity_down() {
            -1
        } else if o.tile().y > me.y && o.spec_has_gravity_up() {
            1
        } else {
            0
        }
    } else {
        0
    }
}

/// The horizontal pull on planet `k` summed over the first `n` planets,
/// planet `k` itself skipped. The sum is not clamped: pulls from both sides
/// cancel, so the result does not depend on the order of the planet list.
pub open spec fn sum_x(ps: Seq<Planet>, k: int, n: int) -> int
    decreases n,
{
    if n <= 0 {
        0
    } else if n - 1 == k {
        sum_x(ps, k, n - 1)
    } else {
        sum_x(ps, k, n - 1) + pull_x(ps[k].tile(), ps[n - 1])
    }
}

/// As `sum_x`, for the vertical axis.
pub open spec fn sum_y(ps: Seq<Planet>, k: int, n: int) -> int
    decreases n,
{
    if n <= 0 {
        0
    } else if n - 1 == k {
        sum_y(ps, k, n - 1)
    } else {
        sum_y(ps, k, n - 1) + pull_y(ps[k].tile(), ps[n - 1])
    }
}

/// The horizontal displacement one pass gives planet `k`: the contributions
/// of every other placed planet accumulate, then the axis is clamped once.
pub open spec fn delta_x(ps: Seq<Planet>, k: int) -> int {
    clamp_unit(sum_x(ps, k, ps.len() as int))
}

/// The vertical displacement one pass gives planet `k`.
pub open spec fn delta_y(ps: Seq<Planet>, k: int) -> int {
    clamp_unit(sum_y(ps, k, ps.len() as int))
}

/// Where planet `k` stands after the move of one pass.
pub open spec fn moved_tile(ps: Seq<Planet>, k: int) -> IVec2 {
    IVec2 {
        x: (ps[k].tile().x + delta_x(ps, k)) as i32,
        y: (ps[k].tile().y + delta_y(ps, k)) as i32,
    }
}

/// Planet `k` after the move of one pass: a placed planet records its
/// displacement and moves by it; pending and colliding planets are untouched.
pub open spec fn step_planet(ps: Seq<Planet>, k: int) -> Planet {
    if ps[k].is_placed() {
        Planet {
            state: PlanetState::Placed(moved_tile(ps, k)),
            sim_tile_delta: IVec2 { x: delta_x(ps, k) as i32, y: delta_y(ps, k) as i32 },
            ..ps[k]
        }
    } else {
        ps[k]
    }
}

/// The move of one pass, applied to every planet simultaneously: every
/// displacement is computed from the same pre-pass snapshot `ps`.
pub open spec fn advance_all(ps: Seq<Planet>) -> Seq<Planet> {
    Seq::new(ps.len(), |k: int| step_planet(ps, k))
}

/// Planet `k` is placed and shares its tile with another placed planet.
pub open spec fn collides_at(ps: Seq<Planet>, k: int) -> bool {
    ps[k].is_placed() && exists|l: int|
        0 <= l < ps.len() && l != k && (#[trigger] ps[l]).is_placed() && ps[l].tile() == ps[k].tile()
}

/// Turn every placed planet that shares its tile into `Colliding`; everything
/// else is kept as it is.
pub open spec fn mark_collisions(ps: Seq<Planet>) -> Seq<Planet> {
    Seq::new(
        ps.len(),
        |k: int|
            if collides_at(ps, k) {
                Planet { state: PlanetState::Colliding(ps[k].tile()), ..ps[k] }
            } else {
                ps[k]
            },
    )
}

/// Some pair of placed planets shares a tile.
pub open spec fn any_collision(ps: Seq<Planet>) -> bool {
    exists|k: int| 0 <= k < ps.len() && collides_at(ps, k)
}

/// One full simulation pass: the simultaneous move, then collision marking on
/// the post-move positions.
pub open spec fn sim_pass(ps: Seq<Planet>) -> Seq<Planet> {
    mark_collisions(advance_all(ps))
}

/// The unit-step bound: whatever the configuration, one pass displaces a
/// planet by at most one tile along each axis, however many planets pull.
pub proof fn lemma_sim_delta_unit(ps: Seq<Planet>, k: int)
    ensures
        -1 <= delta_x(ps, k) <= 1,
        -1 <= delta_y(ps, k) <= 1,
{
}

/// A positive horizontal displacement can only come from a placed planet
/// further right on the same row, a negative one only from further left; the
/// vertical axis likewise. This is what keeps every planet inside the grid:
/// planets move toward other planets, never past them.
proof fn lemma_sum_witness(ps: Seq<Planet>, k: int, n: int)
    requires
        0 <= k < ps.len(),
        n <= ps.len(),
    ensures
        sum_x(ps, k, n) > 0 ==> exists|l: int|
            0 <= l < n && l != k && (#[trigger] ps[l]).is_placed() && ps[l].tile().y == ps[k].tile().y && ps[l].tile().x > ps[k].tile().x,
        sum_x(ps, k, n) < 0 ==> exists|l: int|
            0 <= l < n && l != k && (#[trigger] ps[l]).is_placed() && ps[l].tile().y == ps[k].tile().y && ps[l].tile().x < ps[k].tile().x,
        sum_y(ps, k, n) > 0 ==> exists|l: int|
            0 <= l < n && l != k && (#[trigger] ps[l]).is_placed() && ps[l].tile().x == ps[k].tile().x && ps[l].tile().y > ps[k].tile().y,
        sum_y(ps, k, n) < 0 ==> exists|l: int|
            0 <= l < n && l != k && (#[trigger] ps[l]).is_placed() && ps[l].tile().x == ps[k].tile().x && ps[l].tile().y < ps[k].tile().y,
    decreases n,
{
    if n > 0 {
        lemma_sum_witness(ps, k, n - 1);
        if n - 1 != k {
            if pull_x(ps[k].tile(), ps[n - 1]) == 1 {
                assert(ps[n - 1].is_placed() && ps[n - 1].tile().y == ps[k].tile().y && ps[n - 1].tile().x > ps[k].tile().x);
            }
            if pull_x(ps[k].tile(), ps[n - 1]) == -1 {
                assert(ps[n - 1].is_placed() && ps[n - 1].tile().y == ps[k].tile().y && ps[n - 1].tile().x < ps[k].tile().x);
            }
            if pull_y(ps[k].tile(), ps[n - 1]) == 1 {
                assert(ps[n - 1].is_placed() && ps[n - 1].tile().x == ps[k].tile().x && ps[n - 1].tile().y > ps[k].tile().y);
            }
            if pull_y(ps[k].tile(), ps[n - 1]) == -1 {
                assert(ps[n - 1].is_placed() && ps[n - 1].tile().x == ps[k].tile().x && ps[n - 1].tile().y < ps[k].tile().y);
            }
        }
    }
}

/// Row/column exclusivity: a placed planet that shares neither row nor column
/// with any other placed planet receives no displacement at all.
pub proof fn lemma_isolated_planet_rests(ps: Seq<Planet>, k: int)
    requires
        0 <= k < ps.len(),
        ps[k].is_placed(),
        forall|l: int|
            0 <= l < ps.len() && l != k && (#[trigger] ps[l]).is_placed() ==> ps[l].tile().x != ps[k].tile().x && ps[l].tile().y != ps[k].tile().y,
    ensures
        delta_x(ps, k) == 0,
        delta_y(ps, k) == 0,
{
    lemma_sum_witness(ps, k, ps.len() as int);
    lemma_sim_delta_unit(ps, k);
}

/// A planet that one pass moves stays inside the grid: it can only move
/// toward another placed planet, and every placed planet stands inside.
proof fn lemma_moved_in_grid(ps: Seq<Planet>, grid: IVec2, k: int)
    requires
        planets_in_grid(ps, grid),
        0 <= k < ps.len(),
        ps[k].is_placed(),
    ensures
        tile_in_grid(moved_tile(ps, k), grid),
{
    lemma_sim_delta_unit(ps, k);
    lemma_sum_witness(ps, k, ps.len() as int);
    assert(tile_in_grid(ps[k].tile(), grid));
    let nx = ps[k].tile().x + delta_x(ps, k);
    let ny = ps[k].tile().y + delta_y(ps, k);
    if delta_x(ps, k) > 0 {
        let l = choose|l: int|
            0 <= l < ps.len() && l != k && (#[trigger] ps[l]).is_placed() && ps[l].tile().y == ps[k].tile().y && ps[l].tile().x > ps[k].tile().x;
        assert(tile_in_grid(ps[l].tile(), grid));
    }
    if delta_x(ps, k) < 0 {
        let l = choose|l: int|
            0 <= l < ps.len() && l != k && (#[trigger] ps[l]).is_placed() && ps[l].tile().y == ps[k].tile().y && ps[l].tile().x < ps[k].tile().x;
        assert(tile_in_grid(ps[l].tile(), grid));
    }
    if delta_y(ps, k) > 0 {
        let l = choose|l: int|
            0 <= l < ps.len() && l != k && (#[trigger] ps[l]).is_placed() && ps[l].tile().x == ps[k].tile().x && ps[l].tile().y > ps[k].tile().y;
        assert(tile_in_grid(ps[l].tile(), grid));
    }
    if delta_y(ps, k) < 0 {
        let l = choose|l: int|
            0 <= l < ps.len() && l != k && (#[trigger] ps[l]).is_placed() && ps[l].tile().x == ps[k].tile().x && ps[l].tile().y < ps[k].tile().y;
        assert(tile_in_grid(ps[l].tile(), grid));
    }
    assert(0 <= nx < grid.x);
    assert(0 <= ny < grid.y);
}

/// Collision symmetry: when two distinct placed planets stand on the same
/// tile, collision marking turns both of them into `Colliding` there, and the
/// pass reports a collision.
pub proof fn lemma_collision_symmetry(ps: Seq<Planet>, k: int, l: int)
    requires
        0 <= k < ps.len(),
        0 <= l < ps.len(),
        k != l,
        ps[k].is_placed(),
        ps[l].is_placed(),
        ps[k].tile() == ps[l].tile(),
    ensures
        mark_collisions(ps)[k].state == PlanetState::Colliding(ps[k].tile()),
        mark_collisions(ps)[l].state == PlanetState::Colliding(ps[l].tile()),
        any_collision(ps),
{
    assert(collides_at(ps, k));
    assert(collides_at(ps, l));
}

/// The displacement one pass gives the placed planet at index `k`, read from
/// the pre-pass snapshot `planets`. Pulls toward larger and smaller
/// coordinates are counted separately, so the whole row or column
/// accumulates before the single clamp to one tile.
fn compute_delta(planets: &Vec<Planet>, k: usize, t: IVec2) -> (r: (i32, i32))
    requires
        k < planets@.len(),
        planets@[k as int].is_placed(),
        planets@[k as int].tile() == t,
    ensures
        r.0 as int == delta_x(planets@, k as int),
        r.1 as int == delta_y(planets@, k as int),
        -1 <= r.0 <= 1,
        -1 <= r.1 <= 1,
{
    let n = planets.len();
    let mut pos_x: usize = 0;
    let mut neg_x: usize = 0;
    let mut pos_y: usize = 0;
    let mut neg_y: usize = 0;
    let mut j: usize = 0;
    while j < n
        invariant
            n == planets@.len(),
            k < n,
            planets@[k as int].is_placed(),
            planets@[k as int].tile() == t,
            j <= n,
            pos_x <= j,
            neg_x <= j,
            pos_y <= j,
            neg_y <= j,
            pos_x as int - neg_x as int == sum_x(planets@, k as int, j as int),
            pos_y as int - neg_y as int == sum_y(planets@, k as int, j as int),
        decreases n - j,
    {
        if j != k {
            let o = planets[j];
            match o.state {
                PlanetState::Placed(ot) => {
                    if ot.y == t.y {
                        if ot.x < t.x && o.has_gravity_right() {
                            neg_x = neg_x + 1;
                        } else if ot.x > t.x && o.has_gravity_left() {
                            pos_x = pos_x + 1;
                        }
                    } else if ot.x == t.x {
                        if ot.y < t.y && o.has_gravity_down() {
                            neg_y = neg_y + 1;
                        } else if ot.y > t.y && o.has_gravity_up() {
                            pos_y = pos_y + 1;
                        }
                    }
                },
                _ => {},
            }
        }
        j += 1;
    }
    let dx: i32 = if pos_x > neg_x {
        1
    } else if neg_x > pos_x {
        -1
    } else {
        0
    };
    let dy: i32 = if pos_y > neg_y {
        1
    } else if neg_y > pos_y {
        -1
    } else {
        0
    };
    (dx, dy)
}

/// Whether some planet other than the one at `k` is placed on `t`.
fn exists_other_placed_at(planets: &Vec<Planet>, k: usize, t: IVec2) -> (r: bool)
    ensures
        r == exists|l: int|
            0 <= l < planets@.len() && l != k && (#[trigger] planets@[l]).is_placed()
                && planets@[l].tile() == t,
{
    let n = planets.len();
    let mut l: usize = 0;
    while l < n
        invariant
            n == planets@.len(),
            l <= n,
            forall|m: int|
                0 <= m < l ==> !(m != k && (#[trigger] planets@[m]).is_placed()
                    && planets@[m].tile() == t),
        decreases n - l,
    {
        if l != k {
            let o = planets[l];
            match o.state {
                PlanetState::Placed(ot) => {
                    if ot.x == t.x && ot.y == t.y {
                        assert(planets@[l as int].is_placed() && planets@[l as int].tile() == t);
                        return true;
                    }
                },
                _ => {},
            }
        }
        l += 1;
    }
    false
}

impl Level {
    /// One full simulation pass over this level, with simultaneous-update
    /// semantics: every displacement is computed from the planet positions as
    /// they stood when the pass began, then every move is applied, then every
    /// placed planet that shares its tile with another placed planet is
    /// marked `Colliding` and the level is marked failed. Nothing else of the
    /// level changes; in particular `is_failed` is never cleared here.
    pub fn run_sim_pass(&mut self)
        requires
            old(self).wf(),
        ensures
            final(self).planets@ == sim_pass(old(self).planets@),
            final(self).is_failed == (old(self).is_failed || any_collision(
                advance_all(old(self).planets@),
            )),
            old(self).same_identity(*final(self)),
            final(self).score == old(self).score,
            final(self).was_failed == old(self).was_failed,
            final(self).was_stable == old(self).was_stable,
            final(self).is_stable == old(self).is_stable,
            final(self).is_setup == old(self).is_setup,
            final(self).wf(),
    {
        let ghost ps0 = self.planets@;
        let ghost grid = self.grid_tiles;
        let n = self.planets.len();

        // Move computation, over the pre-pass snapshot.
        let mut moved: Vec<Planet> = Vec::new();
        let mut k: usize = 0;
        while k < n
            invariant
                old(self) == self,
                n == ps0.len(),
                self.planets@ == ps0,
                self.grid_tiles == grid,
                self.wf(),
                k <= n,
                moved@.len() == k,
                forall|j: int| 0 <= j < k ==> moved@[j] == step_planet(ps0, j),
            decreases n - k,
        {
            let p = self.planets[k];
            match p.state {
                PlanetState::Placed(t) => {
                    proof {
                        lemma_moved_in_grid(ps0, grid, k as int);
                        assert(tile_in_grid(t, grid));
                    }
                    let (dx, dy) = compute_delta(&self.planets, k, t);
                    let np = Planet {
                        state: PlanetState::Placed(IVec2 { x: t.x + dx, y: t.y + dy }),
                        gravity_field: p.gravity_field,
                        is_removable: p.is_removable,
                        sim_tile_delta: IVec2 { x: dx, y: dy },
                    };
                    assert(np == step_planet(ps0, k as int));
                    moved.push(np);
                },
                _ => {
                    moved.push(p);
                },
            }
            k += 1;
        }
        proof {
            assert(moved@ =~= advance_all(ps0));
        }

        // Collision computation, over the post-move positions.
        let ghost mid = moved@;
        let mut result: Vec<Planet> = Vec::new();
        let mut found = false;
        let mut k2: usize = 0;
        while k2 < n
            invariant
                n == mid.len(),
                moved@ == mid,
                k2 <= n,
                result@.len() == k2,
                forall|j: int| 0 <= j < k2 ==> result@[j] == mark_collisions(mid)[j],
                found == exists|j: int| 0 <= j < k2 && collides_at(mid, j),
            decreases n - k2,
        {
            let p = moved[k2];
            match p.state {
                PlanetState::Placed(t) => {
                    let hit = exists_other_placed_at(&moved, k2, t);
                    if hit {
                        assert(collides_at(mid, k2 as int));
                        result.push(
                            Planet {
                                state: PlanetState::Colliding(t),
                                gravity_field: p.gravity_field,
                                is_removable: p.is_removable,
                                sim_tile_delta: p.sim_tile_delta,
                            },
                        );
                        found = true;
                    } else {
                        assert(!collides_at(mid, k2 as int));
                        result.push(p);
                    }
                },
                _ => {
                    assert(!collides_at(mid, k2 as int));
                    result.push(p);
                },
            }
            k2 += 1;
        }
        proof {
            assert(result@ =~= mark_collisions(mid));
            assert(found == any_collision(mid));
        }

        self.planets = result;
        if found {
            self.is_failed = true;
        }
        proof {
            lemma_pass_preserves_wf(ps0, grid);
        }
    }
}

/// One pass keeps every standing planet inside the grid and every recorded
/// displacement within one tile.
proof fn lemma_pass_preserves_wf(ps: Seq<Planet>, grid: IVec2)
    requires
        planets_in_grid(ps, grid),
        deltas_unit(ps),
    ensures
        planets_in_grid(sim_pass(ps), grid),
        deltas_unit(sim_pass(ps)),
{
    let mid = advance_all(ps);
    let fin = sim_pass(ps);
    assert forall|k: int| 0 <= k < fin.len() && (#[trigger] fin[k]).occupies() implies tile_in_grid(
        fin[k].tile(),
        grid,
    ) by {
        if ps[k].is_placed() {
            lemma_moved_in_grid(ps, grid, k);
        }
    }
    assert forall|k: int|
        0 <= k < fin.len() implies -1 <= (#[trigger] fin[k]).sim_tile_delta.x <= 1 && -1 <= fin[k].sim_tile_delta.y <= 1 by {
        if ps[k].is_placed() {
            lemma_sim_delta_unit(ps, k);
        }
    }
}

} // verus!
