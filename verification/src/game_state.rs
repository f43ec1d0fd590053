//! The session: the level list, the active level, the placement controller,
//! the lazily-run simulation step, scoring and level progression.

use vstd::prelude::*;

use crate::level::{planets_all_stable, planets_in_grid, stable_now, tile_in_grid, Level};
use crate::planet::{IVec2, Planet, PlanetState};
use crate::sim::{advance_all, any_collision, sim_pass};

verus! {

/// The one-shot signals the placement controller emits for the audio
/// collaborator: at most one planet is placed or removed per call, and a
/// denied attempt is reported without any state change.
#[derive(Clone, Copy, PartialEq, Eq, Structural, Debug)]
pub struct PlanetEvents {
    pub placed: bool,
    pub place_denied: bool,
    pub removed: bool,
    pub remove_denied: bool,
}

pub open spec fn no_events() -> PlanetEvents {
    PlanetEvents { placed: false, place_denied: false, removed: false, remove_denied: false }
}

/// A discrete level-navigation request from the input collaborator.
#[derive(Clone, Copy, PartialEq, Eq, Structural, Debug)]
pub enum NavRequest {
    Stay,
    Retry,
    Previous,
    Next,
    First,
    Last,
}

/// Some planet is placed on `t`.
pub open spec fn tile_occupied(ps: Seq<Planet>, t: IVec2) -> bool {
    exists|j: int| 0 <= j < ps.len() && (#[trigger] ps[j]).is_placed() && ps[j].tile() == t
}

/// The index of the first pending planet at or after `j`, or the length when
/// none remains.
pub open spec fn first_pending_from(ps: Seq<Planet>, j: int) -> int
    decreases ps.len() - j,
{
    if j < 0 || j >= ps.len() {
        ps.len() as int
    } else if ps[j].is_pending() {
        j
    } else {
        first_pending_from(ps, j + 1)
    }
}

/// The index of the first pending planet, scanning from the start: after a
/// removal an earlier slot can open again, so the pointer is recomputed, not
/// incremented.
pub open spec fn first_pending(ps: Seq<Planet>) -> int {
    first_pending_from(ps, 0)
}

/// Planet `j` is placed on `t` and may be removed.
pub open spec fn removable_hit(ps: Seq<Planet>, t: IVec2, j: int) -> bool {
    ps[j].is_placed() && ps[j].tile() == t && ps[j].is_removable
}

/// The index of the first removable planet placed on `t` at or after `j`, or
/// the length when there is none.
pub open spec fn first_removable_at_from(ps: Seq<Planet>, t: IVec2, j: int) -> int
    decreases ps.len() - j,
{
    if j < 0 || j >= ps.len() {
        ps.len() as int
    } else if removable_hit(ps, t, j) {
        j
    } else {
        first_removable_at_from(ps, t, j + 1)
    }
}

pub open spec fn first_removable_at(ps: Seq<Planet>, t: IVec2) -> int {
    first_removable_at_from(ps, t, 0)
}

/// The removal scan walked past a fixed planet on `t` before `stop`: the
/// remove-deny signal fires.
pub open spec fn removal_denied(ps: Seq<Planet>, t: IVec2, stop: int) -> bool {
    exists|j: int|
        0 <= j < stop && (#[trigger] ps[j]).is_placed() && ps[j].tile() == t
            && !ps[j].is_removable
}

proof fn lemma_first_pending_skip(ps: Seq<Planet>, j: int)
    requires
        0 <= j <= ps.len(),
        forall|l: int| 0 <= l < j ==> !(#[trigger] ps[l]).is_pending(),
    ensures
        first_pending(ps) == first_pending_from(ps, j),
    decreases j,
{
    if j > 0 {
        lemma_first_pending_skip(ps, j - 1);
    }
}

proof fn lemma_first_removable_skip(ps: Seq<Planet>, t: IVec2, j: int)
    requires
        0 <= j <= ps.len(),
        forall|l: int| 0 <= l < j ==> !removable_hit(ps, t, l),
    ensures
        first_removable_at(ps, t) == first_removable_at_from(ps, t, j),
    decreases j,
{
    if j > 0 {
        lemma_first_removable_skip(ps, t, j - 1);
    }
}

/// Whether no planet is placed on `tile`.
fn tile_is_free(planets: &Vec<Planet>, tile: IVec2) -> (r: bool)
    ensures
        r == !tile_occupied(planets@, tile),
{
    let n = planets.len();
    let mut j: usize = 0;
    while j < n
        invariant
            n == planets@.len(),
            j <= n,
            forall|l: int|
                0 <= l < j ==> !((#[trigger] planets@[l]).is_placed() && planets@[l].tile()
                    == tile),
        decreases n - j,
    {
        let p = planets[j];
        match p.state {
            PlanetState::Placed(t) => {
                if t.x == tile.x && t.y == tile.y {
                    assert(planets@[j as int].is_placed() && planets@[j as int].tile() == tile);
                    return false;
                }
            },
            _ => {},
        }
        j += 1;
    }
    true
}

/// The index of the first pending planet, or the length when all are placed.
fn first_pending_index(planets: &Vec<Planet>) -> (r: usize)
    ensures
        r as int == first_pending(planets@),
{
    let n = planets.len();
    let mut j: usize = 0;
    while j < n
        invariant
            n == planets@.len(),
            j <= n,
            forall|l: int| 0 <= l < j ==> !(#[trigger] planets@[l]).is_pending(),
        decreases n - j,
    {
        let p = planets[j];
        match p.state {
            PlanetState::Pending => {
                proof {
                    lemma_first_pending_skip(planets@, j as int);
                }
                return j;
            },
            _ => {},
        }
        j += 1;
    }
    proof {
        lemma_first_pending_skip(planets@, n as int);
    }
    n
}

/// The removal scan: the first removable planet placed on `tile`, if any,
/// together with whether the scan walked past a fixed planet on `tile`.
fn scan_removal(planets: &Vec<Planet>, tile: IVec2) -> (r: (Option<usize>, bool))
    ensures
        ({
            let ps = planets@;
            let t = first_removable_at(ps, tile);
            let stop = if t < ps.len() {
                t
            } else {
                ps.len() as int
            };
            &&& (t < ps.len() ==> (r.0 matches Some(j) && j == t))
            &&& (t >= ps.len() ==> r.0 is None)
            &&& r.1 == removal_denied(ps, tile, stop)
        }),
{
    let n = planets.len();
    let mut denied = false;
    let mut j: usize = 0;
    while j < n
        invariant
            n == planets@.len(),
            j <= n,
            forall|l: int| 0 <= l < j ==> !removable_hit(planets@, tile, l),
            denied == removal_denied(planets@, tile, j as int),
        decreases n - j,
    {
        let p = planets[j];
        match p.state {
            PlanetState::Placed(t) => {
                if t.x == tile.x && t.y == tile.y {
                    if p.is_removable {
                        proof {
                            lemma_first_removable_skip(planets@, tile, j as int);
                            assert(removable_hit(planets@, tile, j as int));
                        }
                        return (Some(j), denied);
                    } else {
                        proof {
                            assert(planets@[j as int].is_placed() && planets@[j as int].tile()
                                == tile && !planets@[j as int].is_removable);
                        }
                        denied = true;
                    }
                }
            },
            _ => {},
        }
        proof {
            assert forall|l: int|
                0 <= l < j as int + 1 implies !removable_hit(planets@, tile, l) by {}
        }
        j += 1;
    }
    proof {
        lemma_first_removable_skip(planets@, tile, n as int);
    }
    (None, denied)
}

/// Decrement a score by one, saturating at the smallest representable value
/// instead of overflowing.
pub open spec fn sat_dec(v: int) -> int {
    if v > i32::MIN {
        v - 1
    } else {
        v
    }
}

fn dec_score_saturating(v: i32) -> (r: i32)
    ensures
        r as int == sat_dec(v as int),
{
    if v > i32::MIN {
        v - 1
    } else {
        v
    }
}

/// Advance a step counter by one, saturating at the largest representable
/// value instead of overflowing.
pub open spec fn sat_inc_usize(v: int) -> int {
    if v < usize::MAX {
        v + 1
    } else {
        v
    }
}

fn inc_step_saturating(v: usize) -> (r: usize)
    ensures
        r as int == sat_inc_usize(v as int),
{
    if v < usize::MAX {
        v + 1
    } else {
        v
    }
}

/// `p` transitioned to `Placed(tile)`, everything else kept.
pub open spec fn place_planet(p: Planet, tile: IVec2) -> Planet {
    Planet { state: PlanetState::Placed(tile), ..p }
}

/// `p` transitioned back to `Pending`, everything else kept.
pub open spec fn unplace_planet(p: Planet) -> Planet {
    Planet { state: PlanetState::Pending, ..p }
}

/// The parts of a level the placement controller never touches.
pub open spec fn level_flags_same(a: Level, b: Level) -> bool {
    &&& a.same_identity(b)
    &&& b.was_failed == a.was_failed
    &&& b.was_stable == a.was_stable
    &&& b.is_failed == a.is_failed
    &&& b.is_stable == a.is_stable
    &&& b.is_setup == a.is_setup
}

/// Every level but the one at `i` kept as it was.
pub open spec fn levels_same_except(gs: GameState, gs2: GameState, i: int) -> bool {
    &&& gs2.levels@.len() == gs.levels@.len()
    &&& forall|j: int| 0 <= j < gs.levels@.len() && j != i ==> gs2.levels@[j] == gs.levels@[j]
}

/// An accepted placement or removal: the planet list of the active level
/// updated at `idx` to `p2`, the level's score decremented, a simulation step
/// requested, and the pending pointer moved to `next_index`.
pub open spec fn accepted_action(
    gs: GameState,
    gs2: GameState,
    i: int,
    idx: int,
    p2: Planet,
    next_index: int,
) -> bool {
    let lv = gs.levels@[i];
    let lv2 = gs2.levels@[i];
    &&& levels_same_except(gs, gs2, i)
    &&& lv2.planets@ == lv.planets@.update(idx, p2)
    &&& lv2.score as int == sat_dec(lv.score as int)
    &&& level_flags_same(lv, lv2)
    &&& gs2.level_active == gs.level_active
    &&& gs2.planet_current_index as int == next_index
    &&& gs2.score == gs.score
    &&& gs2.sim_step as int == sat_inc_usize(gs.sim_step as int)
    &&& gs2.sim_step_computed == gs.sim_step_computed
}

/// What one controller call does: the full map from the click intent, the
/// hovered tile and the prior session state to the next state and the emitted
/// signals.
pub open spec fn planets_step(
    gs: GameState,
    gs2: GameState,
    ev: PlanetEvents,
    click: bool,
    hover_in_grid: bool,
    tile: IVec2,
) -> bool {
    match gs.level_active {
        None => gs2 == gs && ev == no_events(),
        Some(iu) => {
            let i = iu as int;
            let lv = gs.levels@[i];
            let ps = lv.planets@;
            let n = ps.len() as int;
            let idx = gs.planet_current_index as int;
            let in_grid = hover_in_grid && tile_in_grid(tile, lv.grid_tiles);
            if lv.is_failed || lv.is_stable {
                // The level is terminal: nothing moves until a reset.
                gs2 == gs && ev == no_events()
            } else if idx < n && ps[idx].state is Placed {
                // The pointer catches up lazily past an already placed slot.
                gs2 == (GameState { planet_current_index: (idx + 1) as usize, ..gs }) && ev
                    == no_events()
            } else if click && idx < n {
                if !tile_occupied(ps, tile) && in_grid {
                    let ps2 = ps.update(idx, place_planet(ps[idx], tile));
                    accepted_action(gs, gs2, i, idx, place_planet(ps[idx], tile), first_pending(ps2))
                        && ev == (PlanetEvents {
                        placed: true,
                        place_denied: false,
                        removed: false,
                        remove_denied: false,
                    })
                } else {
                    // An occupied tile or a hover outside the grid: deny.
                    gs2 == gs && ev == (PlanetEvents {
                        placed: false,
                        place_denied: true,
                        removed: false,
                        remove_denied: false,
                    })
                }
            } else if click && idx >= n && in_grid {
                let r = first_removable_at(ps, tile);
                let stop = if r < n {
                    r
                } else {
                    n
                };
                let denied = removal_denied(ps, tile, stop);
                if r < n {
                    accepted_action(gs, gs2, i, r, unplace_planet(ps[r]), r) && ev
                        == (PlanetEvents {
                        placed: false,
                        place_denied: false,
                        removed: true,
                        remove_denied: denied,
                    })
                } else {
                    gs2 == gs && ev == (PlanetEvents {
                        placed: false,
                        place_denied: false,
                        removed: false,
                        remove_denied: denied,
                    })
                }
            } else {
                gs2 == gs && ev == no_events()
            }
        },
    }
}

/// Replacing one planet by one with a bounded displacement that stands, if
/// anywhere, inside the grid keeps the planet list well-placed.
proof fn lemma_update_preserves_planet_bounds(ps: Seq<Planet>, grid: IVec2, idx: int, p2: Planet)
    requires
        planets_in_grid(ps, grid),
        crate::level::deltas_unit(ps),
        0 <= idx < ps.len(),
        p2.occupies() ==> tile_in_grid(p2.tile(), grid),
        -1 <= p2.sim_tile_delta.x <= 1,
        -1 <= p2.sim_tile_delta.y <= 1,
    ensures
        planets_in_grid(ps.update(idx, p2), grid),
        crate::level::deltas_unit(ps.update(idx, p2)),
{
    let ps2 = ps.update(idx, p2);
    assert forall|k: int|
        0 <= k < ps2.len() && (#[trigger] ps2[k]).occupies() implies tile_in_grid(
        ps2[k].tile(),
        grid,
    ) by {
        if k != idx {
            assert(ps2[k] == ps[k]);
        }
    }
    assert forall|k: int|
        0 <= k < ps2.len() implies -1 <= (#[trigger] ps2[k]).sim_tile_delta.x <= 1 && -1 <= ps2[k].sim_tile_delta.y <= 1 by {
        if k != idx {
            assert(ps2[k] == ps[k]);
        }
    }
}

/// Where a navigation request lands: the current index (or the slot before
/// the first level when none is active) moved by the request and clamped to
/// the level list. Out-of-range requests are clamped, never rejected.
pub open spec fn nav_target(active: Option<usize>, len: int, nav: NavRequest) -> int {
    let base: int = match active {
        Some(i) => i as int,
        None => -1,
    };
    let raw: int = match nav {
        NavRequest::Previous => base - 1,
        NavRequest::Next => base + 1,
        NavRequest::First => 0,
        NavRequest::Last => len - 1,
        _ => base,
    };
    if raw < 0 {
        0
    } else if raw > len - 1 {
        len - 1
    } else {
        raw
    }
}

pub open spec fn is_nav_move(nav: NavRequest) -> bool {
    nav == NavRequest::Previous || nav == NavRequest::Next || nav == NavRequest::First || nav
        == NavRequest::Last
}

/// Saturating signed addition on the score range.
pub open spec fn sat_add_i32(a: int, b: int) -> int {
    if a + b > i32::MAX as int {
        i32::MAX as int
    } else if a + b < i32::MIN as int {
        i32::MIN as int
    } else {
        a + b
    }
}

/// The session score over the first `n` levels: every stable level is worth
/// 100 points plus its own (non-positive) score, so efficient solves are
/// worth more; unsolved levels are worth nothing.
pub open spec fn total_score_upto(levels: Seq<Level>, n: int) -> int
    decreases n,
{
    if n <= 0 {
        0
    } else {
        let rest = total_score_upto(levels, n - 1);
        if levels[n - 1].is_stable {
            sat_add_i32(rest, sat_add_i32(100, levels[n - 1].score as int))
        } else {
            rest
        }
    }
}

pub open spec fn total_score(levels: Seq<Level>) -> int {
    total_score_upto(levels, levels.len() as int)
}

fn add_score_saturating(a: i32, b: i32) -> (r: i32)
    ensures
        r as int == sat_add_i32(a as int, b as int),
{
    let s: i64 = a as i64 + b as i64;
    if s > i32::MAX as i64 {
        i32::MAX
    } else if s < i32::MIN as i64 {
        i32::MIN
    } else {
        s as i32
    }
}

/// The whole game session. `planet_current_index` points at the pending
/// planet the next placement affects; `sim_step` counts requested simulation
/// steps and `sim_step_computed` the ones already run, so the gravity pass
/// runs at most once per accepted placement or removal.
#[derive(Clone, PartialEq, Debug)]
pub struct GameState {
    pub levels: Vec<Level>,
    pub level_active: Option<usize>,
    pub planet_current_index: usize,
    pub score: i32,
    pub sim_step: usize,
    pub sim_step_computed: usize,
}

/// A pending planet of the catalogue, as spec data.
pub open spec fn spec_pending(gravity_field: u8) -> Planet {
    Planet {
        gravity_field,
        state: PlanetState::Pending,
        is_removable: true,
        sim_tile_delta: IVec2 { x: 0, y: 0 },
    }
}

/// A pre-placed planet of the catalogue, as spec data.
pub open spec fn spec_placed(gravity_field: u8, x: i32, y: i32, is_removable: bool) -> Planet {
    Planet {
        gravity_field,
        state: PlanetState::Placed(IVec2 { x, y }),
        is_removable,
        sim_tile_delta: IVec2 { x: 0, y: 0 },
    }
}

/// The name of catalogue level `i`.
pub open spec fn catalogue_name(i: int) -> Seq<char> {
    if i == 0 {
        "1. Planet"@
    } else if i == 1 {
        "2. Gravity"@
    } else if i == 2 {
        "3. Direction"@
    } else if i == 3 {
        "4. Two planets"@
    } else if i == 4 {
        "5. Three planets"@
    } else if i == 5 {
        "6. Test"@
    } else if i == 6 {
        "7. Obstacle"@
    } else if i == 7 {
        "8. Swap"@
    } else if i == 8 {
        "9. Squeeze"@
    } else if i == 9 {
        "10. Intervention"@
    } else if i == 10 {
        "11. Defuse"@
    } else if i == 11 {
        "12. Loop"@
    } else {
        Seq::empty()
    }
}

/// The grid size of catalogue level `i`.
pub open spec fn catalogue_grid(i: int) -> IVec2 {
    if i <= 3 {
        IVec2 { x: 3, y: 3 }
    } else if i <= 5 {
        IVec2 { x: 4, y: 4 }
    } else if i == 6 {
        IVec2 { x: 10, y: 2 }
    } else if i == 7 {
        IVec2 { x: 6, y: 2 }
    } else if i <= 9 {
        IVec2 { x: 5, y: 5 }
    } else if i == 10 {
        IVec2 { x: 9, y: 9 }
    } else {
        IVec2 { x: 7, y: 4 }
    }
}

/// The planet list of catalogue level `i`, in placement-queue order.
pub open spec fn catalogue_planets(i: int) -> Seq<Planet> {
    if i == 0 {
        seq![spec_pending(0b0000)]
    } else if i == 1 {
        seq![
            spec_pending(0b0000),
            spec_placed(0b0001, 0, 0, false),
            spec_placed(0b0001, 0, 1, false),
        ]
    } else if i == 2 {
        seq![
            spec_pending(0b0000),
            spec_placed(0b0010, 0, 0, false),
            spec_placed(0b0001, 0, 1, false),
            spec_placed(0b0001, 0, 2, false),
        ]
    } else if i == 3 {
        seq![
            spec_pending(0b0000),
            spec_pending(0b0000),
            spec_placed(0b0011, 0, 1, false),
            spec_placed(0b0011, 0, 2, false),
        ]
    } else if i == 4 {
        seq![
            spec_pending(0b0000),
            spec_pending(0b0001),
            spec_pending(0b0000),
            spec_placed(0b0011, 0, 0, false),
            spec_placed(0b0001, 0, 2, false),
            spec_placed(0b0001, 0, 3, false),
        ]
    } else if i == 5 {
        seq![
            spec_pending(0b0001),
            spec_pending(0b0011),
            spec_pending(0b0000),
            spec_placed(0b0000, 0, 0, false),
            spec_placed(0b0000, 0, 2, false),
            spec_placed(0b0000, 0, 3, false),
        ]
    } else if i == 6 {
        seq![
            spec_pending(0b0000),
            spec_pending(0b0010),
            spec_placed(0b0001, 0, 0, false),
            spec_placed(0b0001, 0, 1, false),
        ]
    } else if i == 7 {
        seq![
            spec_pending(0b0000),
            spec_pending(0b0010),
            spec_placed(0b0001, 0, 0, false),
            spec_placed(0b0001, 0, 1, false),
        ]
    } else if i == 8 {
        seq![
            spec_pending(0b1111),
            spec_placed(0b0000, 2, 0, false),
            spec_placed(0b1000, 1, 1, false),
            spec_placed(0b0000, 4, 2, false),
            spec_placed(0b0000, 0, 2, false),
            spec_placed(0b0010, 3, 3, false),
            spec_placed(0b0000, 2, 4, false),
        ]
    } else if i == 9 {
        seq![
            spec_pending(0b0000),
            spec_placed(0b0001, 2, 0, false),
            spec_placed(0b1000, 1, 1, true),
            spec_placed(0b1000, 4, 2, false),
            spec_placed(0b0100, 0, 2, false),
            spec_placed(0b0010, 3, 3, true),
            spec_placed(0b1000, 2, 4, false),
        ]
    } else if i == 10 {
        seq![
            spec_pending(0b0100),
            spec_pending(0b0010),
            spec_placed(0b1111, 0, 0, false),
            spec_placed(0b1111, 0, 8, false),
            spec_placed(0b1111, 8, 0, false),
            spec_placed(0b1111, 8, 8, false),
        ]
    } else if i == 11 {
        seq![
            spec_pending(0b0100),
            spec_pending(0b0010),
            spec_pending(0b1000),
            spec_placed(0b0001, 0, 0, false),
            spec_placed(0b0001, 0, 1, false),
            spec_placed(0b0001, 0, 2, false),
            spec_placed(0b0001, 0, 3, false),
        ]
    } else {
        Seq::empty()
    }
}

/// A planet still waiting in the placement queue.
fn pending_planet(gravity_field: u8) -> (r: Planet)
    ensures
        r == spec_pending(gravity_field),
{
    Planet::new(gravity_field, PlanetState::Pending, true)
}

/// A planet pre-placed by the level definition. The fixed ones are anchors
/// the player can never remove.
fn placed_planet(gravity_field: u8, x: i32, y: i32, is_removable: bool) -> (r: Planet)
    ensures
        r == spec_placed(gravity_field, x, y, is_removable),
{
    Planet::new(gravity_field, PlanetState::Placed(IVec2::new(x, y)), is_removable)
}

impl GameState {
    /// Well-formedness: at least one level, every level well-formed, the
    /// active index in range, and the simulation never ahead of the requests.
    pub open spec fn wf(self) -> bool {
        &&& self.levels@.len() >= 1
        &&& forall|i: int| 0 <= i < self.levels@.len() ==> (#[trigger] self.levels@[i]).wf()
        &&& (self.level_active matches Some(i) ==> i < self.levels@.len())
        &&& self.sim_step_computed <= self.sim_step
    }

    /// The level the session currently plays, if any.
    pub fn current_level(&self) -> (r: Option<&Level>)
        requires
            self.wf(),
        ensures
            match self.level_active {
                Some(i) => r matches Some(l) && *l == self.levels@[i as int],
                None => r is None,
            },
    {
        match self.level_active {
            None => None,
            Some(i) => Some(&self.levels[i]),
        }
    }

    /// A mutable borrow of the level the session currently plays, if any:
    /// whatever the caller does through it becomes the new active level,
    /// everything else stays.
    pub fn current_level_mut(&mut self) -> (r: Option<&mut Level>)
        requires
            old(self).wf(),
        ensures
            ({
                match old(self).level_active {
                    None => r is None && *final(self) == *old(self),
                    Some(iu) => {
                        let i = iu as int;
                        &&& r matches Some(l)
                        &&& *l == old(self).levels@[i]
                        &&& final(self).levels@ == old(self).levels@.update(i, *final(l))
                        &&& final(self).level_active == old(self).level_active
                        &&& final(self).planet_current_index == old(self).planet_current_index
                        &&& final(self).score == old(self).score
                        &&& final(self).sim_step == old(self).sim_step
                        &&& final(self).sim_step_computed == old(self).sim_step_computed
                    },
                }
            }),
    {
        match self.level_active {
            None => None,
            Some(i) => Some(&mut self.levels[i]),
        }
    }

    /// The one-time level-entry work: the first call after a level becomes
    /// active marks it set up and rewinds the pending pointer and both
    /// simulation counters; every later call is a no-op until the next reset.
    /// Returns whether the work ran this call.
    pub fn setup_level(&mut self) -> (r: bool)
        requires
            old(self).wf(),
        ensures
            final(self).wf(),
            ({
                let gs = *old(self);
                let gs2 = *final(self);
                match gs.level_active {
                    None => gs2 == gs && r == false,
                    Some(iu) => {
                        let i = iu as int;
                        if gs.levels@[i].is_setup {
                            gs2 == gs && r == false
                        } else {
                            &&& r == true
                            &&& gs2.levels@ == gs.levels@.update(
                                i,
                                (Level { is_setup: true, ..gs.levels@[i] }),
                            )
                            &&& gs2.level_active == gs.level_active
                            &&& gs2.planet_current_index == 0
                            &&& gs2.score == gs.score
                            &&& gs2.sim_step == 0
                            &&& gs2.sim_step_computed == 0
                        }
                    },
                }
            }),
    {
        let i = match self.level_active {
            None => {
                return false;
            },
            Some(i) => i,
        };
        if self.levels[i].is_setup {
            return false;
        }
        let lv = &mut self.levels[i];
        lv.is_setup = true;
        self.planet_current_index = 0;
        self.sim_step = 0;
        self.sim_step_computed = 0;
        true
    }

    /// One controller call: map a click intent and a hovered tile to at most
    /// one planet transition. While pending planets remain a click places the
    /// current pending planet on a free in-grid tile; once all are placed a
    /// click removes the removable planet under the hover. Denied attempts
    /// (occupied tile, hover outside the grid, fixed planet) change nothing
    /// and only signal. Every
    /// accepted action costs one score point and requests one simulation
    /// step. On a terminal (failed or stable) level the call does nothing.
    pub fn update_planets(&mut self, input_click: bool, is_mouse_in_grid: bool, tile: IVec2) -> (ev:
        PlanetEvents)
        requires
            old(self).wf(),
        ensures
            final(self).wf(),
            planets_step(*old(self), *final(self), ev, input_click, is_mouse_in_grid, tile),
    {
        let quiet = PlanetEvents {
            placed: false,
            place_denied: false,
            removed: false,
            remove_denied: false,
        };
        let i = match self.level_active {
            None => {
                return quiet;
            },
            Some(i) => i,
        };
        let (is_failed, is_stable, grid, n) = {
            let lv = &self.levels[i];
            (lv.is_failed, lv.is_stable, lv.grid_tiles, lv.planets.len())
        };
        if is_failed || is_stable {
            return quiet;
        }
        let idx = self.planet_current_index;
        if idx < n {
            let lv = &self.levels[i];
            let skip = match lv.planets[idx].state {
                PlanetState::Placed(_) => true,
                _ => false,
            };
            if skip {
                self.planet_current_index = idx + 1;
                return quiet;
            }
        }
        let in_grid = is_mouse_in_grid && tile.x >= 0 && tile.x < grid.x && tile.y >= 0 && tile.y
            < grid.y;
        if input_click && idx < n {
            let free = {
                let lv = &self.levels[i];
                tile_is_free(&lv.planets, tile)
            };
            if free && in_grid {
                proof {
                    lemma_update_preserves_planet_bounds(
                        old(self).levels@[i as int].planets@,
                        grid,
                        idx as int,
                        place_planet(old(self).levels@[i as int].planets@[idx as int], tile),
                    );
                }
                let lv = &mut self.levels[i];
                let mut p = lv.planets[idx];
                p.place(tile);
                lv.planets[idx] = p;
                let next_index = first_pending_index(&lv.planets);
                lv.score = dec_score_saturating(lv.score);
                self.planet_current_index = next_index;
                self.sim_step = inc_step_saturating(self.sim_step);
                return PlanetEvents {
                    placed: true,
                    place_denied: false,
                    removed: false,
                    remove_denied: false,
                };
            } else {
                return PlanetEvents {
                    placed: false,
                    place_denied: true,
                    removed: false,
                    remove_denied: false,
                };
            }
        }
        if input_click && idx >= n && in_grid {
            let (target, denied) = {
                let lv = &self.levels[i];
                scan_removal(&lv.planets, tile)
            };
            match target {
                Some(r) => {
                    proof {
                        lemma_update_preserves_planet_bounds(
                            old(self).levels@[i as int].planets@,
                            grid,
                            r as int,
                            unplace_planet(old(self).levels@[i as int].planets@[r as int]),
                        );
                    }
                    let lv = &mut self.levels[i];
                    let mut p = lv.planets[r];
                    p.remove();
                    lv.planets[r] = p;
                    lv.score = dec_score_saturating(lv.score);
                    self.planet_current_index = r;
                    self.sim_step = inc_step_saturating(self.sim_step);
                    return PlanetEvents {
                        placed: false,
                        place_denied: false,
                        removed: true,
                        remove_denied: denied,
                    };
                },
                None => {
                    return PlanetEvents {
                        placed: false,
                        place_denied: false,
                        removed: false,
                        remove_denied: denied,
                    };
                },
            }
        }
        quiet
    }

    /// Catch the simulation up with the last request. When nothing was
    /// requested since the last run (`sim_step_computed >= sim_step`) this is
    /// a pure no-op, so polling it every tick runs the gravity pass at most
    /// once per accepted placement or removal. Otherwise it runs exactly one
    /// pass over the active level and sets the computed step equal to the
    /// requested one: every outstanding request is served by that one pass.
    pub fn update_sim(&mut self)
        requires
            old(self).wf(),
        ensures
            final(self).wf(),
            old(self).sim_step_computed >= old(self).sim_step ==> *final(self) == *old(self),
            ({
                let gs = *old(self);
                let gs2 = *final(self);
                gs.sim_step_computed < gs.sim_step ==> match gs.level_active {
                    None => gs2 == gs,
                    Some(iu) => {
                        let i = iu as int;
                        let lv = gs.levels@[i];
                        let lv2 = gs2.levels@[i];
                        &&& gs2.levels@.len() == gs.levels@.len()
                        &&& forall|j: int|
                            0 <= j < gs.levels@.len() && j != i ==> gs2.levels@[j] == gs.levels@[j]
                        &&& lv2.planets@ == sim_pass(lv.planets@)
                        &&& lv2.is_failed == (lv.is_failed || any_collision(advance_all(lv.planets@)))
                        &&& lv.same_identity(lv2)
                        &&& lv2.score == lv.score
                        &&& lv2.was_failed == lv.was_failed
                        &&& lv2.was_stable == lv.was_stable
                        &&& lv2.is_stable == lv.is_stable
                        &&& lv2.is_setup == lv.is_setup
                        &&& gs2.level_active == gs.level_active
                        &&& gs2.planet_current_index == gs.planet_current_index
                        &&& gs2.score == gs.score
                        &&& gs2.sim_step == gs.sim_step
                        &&& gs2.sim_step_computed == gs.sim_step
                    },
                }
            }),
    {
        if self.sim_step_computed >= self.sim_step {
            return;
        }
        let i = match self.level_active {
            None => {
                return;
            },
            Some(i) => i,
        };
        let lv = &mut self.levels[i];
        lv.run_sim_pass();
        self.sim_step_computed = self.sim_step;
    }

    /// Reclassify the active level after a pass: `is_stable` becomes exactly
    /// the stability predicate over its planets, and the `was_stable` /
    /// `was_failed` latches fire. Returns the pair of one-shot signals
    /// (stability reached, failure reached), each true only the first time
    /// its condition holds since the last reset.
    pub fn update_win_condition(&mut self) -> (ev: (bool, bool))
        requires
            old(self).wf(),
        ensures
            final(self).wf(),
            ({
                let gs = *old(self);
                let gs2 = *final(self);
                match gs.level_active {
                    None => gs2 == gs && ev == (false, false),
                    Some(iu) => {
                        let i = iu as int;
                        let lv = gs.levels@[i];
                        let st = stable_now(lv.planets@);
                        &&& gs2.levels@ == gs.levels@.update(
                            i,
                            (Level {
                                is_stable: st,
                                was_stable: lv.was_stable || st,
                                was_failed: lv.was_failed || lv.is_failed,
                                ..lv
                            }),
                        )
                        &&& gs2.level_active == gs.level_active
                        &&& gs2.planet_current_index == gs.planet_current_index
                        &&& gs2.score == gs.score
                        &&& gs2.sim_step == gs.sim_step
                        &&& gs2.sim_step_computed == gs.sim_step_computed
                        &&& ev == ((st && !lv.was_stable), (lv.is_failed && !lv.was_failed))
                    },
                }
            }),
    {
        let i = match self.level_active {
            None => {
                return (false, false);
            },
            Some(i) => i,
        };
        let st = planets_all_stable(&self.levels[i].planets);
        let lv = &mut self.levels[i];
        lv.is_stable = st;
        let stable_fired = st && !lv.was_stable;
        if stable_fired {
            lv.was_stable = true;
        }
        let failed_fired = lv.is_failed && !lv.was_failed;
        if failed_fired {
            lv.was_failed = true;
        }
        (stable_fired, failed_fired)
    }

    /// Level navigation and progression. A retry resets the active level in
    /// place; a move request resets the level being left and the level being
    /// entered and clamps the target to the level list; with no request, a
    /// confirming click on a stable level advances to the next level — except
    /// on the last level, which has no further advance.
    pub fn update_next_level(&mut self, nav: NavRequest, advance_click: bool)
        requires
            old(self).wf(),
        ensures
            final(self).wf(),
            ({
                let gs = *old(self);
                let gs2 = *final(self);
                let len = gs.levels@.len() as int;
                if is_nav_move(nav) {
                    let t = nav_target(gs.level_active, len, nav);
                    &&& gs2.level_active == Some(t as usize)
                    &&& gs2.levels@.len() == len
                    &&& gs.levels@[t].is_reset_of(gs2.levels@[t])
                    &&& (match gs.level_active {
                        Some(iu) => {
                            &&& gs.levels@[iu as int].is_reset_of(gs2.levels@[iu as int])
                            &&& forall|j: int|
                                0 <= j < len && j != iu as int && j != t ==> gs2.levels@[j]
                                    == gs.levels@[j]
                        },
                        None => forall|j: int|
                            0 <= j < len && j != t ==> gs2.levels@[j] == gs.levels@[j],
                    })
                    &&& gs2.planet_current_index == gs.planet_current_index
                    &&& gs2.score == gs.score
                    &&& gs2.sim_step == gs.sim_step
                    &&& gs2.sim_step_computed == gs.sim_step_computed
                } else if nav == NavRequest::Retry {
                    match gs.level_active {
                        None => gs2 == gs,
                        Some(iu) => {
                            &&& gs2.level_active == gs.level_active
                            &&& gs2.levels@.len() == len
                            &&& gs.levels@[iu as int].is_reset_of(gs2.levels@[iu as int])
                            &&& forall|j: int|
                                0 <= j < len && j != iu as int ==> gs2.levels@[j] == gs.levels@[j]
                            &&& gs2.planet_current_index == gs.planet_current_index
                            &&& gs2.score == gs.score
                            &&& gs2.sim_step == gs.sim_step
                            &&& gs2.sim_step_computed == gs.sim_step_computed
                        },
                    }
                } else {
                    match gs.level_active {
                        None => gs2 == gs,
                        Some(iu) => {
                            if gs.levels@[iu as int].is_stable && advance_click && iu as int + 1
                                < len {
                                gs2 == (GameState {
                                    level_active: Some((iu + 1) as usize),
                                    ..gs
                                })
                            } else {
                                gs2 == gs
                            }
                        },
                    }
                }
            }),
    {
        match nav {
            NavRequest::Stay => {},
            NavRequest::Retry => {
                if let Some(i) = self.level_active {
                    let lv = &mut self.levels[i];
                    lv.reset();
                }
            },
            _ => {
                let len = self.levels.len();
                if let Some(i) = self.level_active {
                    let lv = &mut self.levels[i];
                    lv.reset();
                }
                let t: usize = match nav {
                    NavRequest::Previous => match self.level_active {
                        Some(i) => if i > 0 {
                            i - 1
                        } else {
                            0
                        },
                        None => 0,
                    },
                    NavRequest::Next => match self.level_active {
                        Some(i) => if i + 1 < len {
                            i + 1
                        } else {
                            len - 1
                        },
                        None => 0,
                    },
                    NavRequest::First => 0,
                    _ => len - 1,
                };
                self.level_active = Some(t);
                let lv = &mut self.levels[t];
                lv.reset();
            },
        }
        if let Some(i) = self.level_active {
            let len = self.levels.len();
            let stable = self.levels[i].is_stable;
            if stable && advance_click && i < len && i + 1 < len {
                self.level_active = Some(i + 1);
            }
        }
    }

    /// Recompute the session score: the sum, over every currently stable
    /// level, of 100 plus that level's own score, saturating at the ends of
    /// the score range. Nothing else changes.
    pub fn update_score(&mut self)
        requires
            old(self).wf(),
        ensures
            final(self).wf(),
            final(self).score as int == total_score(old(self).levels@),
            *final(self) == (GameState { score: final(self).score, ..*old(self) }),
    {
        let n = self.levels.len();
        let mut acc: i32 = 0;
        let mut i: usize = 0;
        while i < n
            invariant
                old(self) == self,
                n == self.levels@.len(),
                i <= n,
                acc as int == total_score_upto(self.levels@, i as int),
            decreases n - i,
        {
            let lv = &self.levels[i];
            if lv.is_stable {
                let part = add_score_saturating(100, lv.score);
                acc = add_score_saturating(acc, part);
            }
            i += 1;
        }
        self.score = acc;
    }

    /// The built-in level catalogue, in play order: twelve levels, each
    /// fresh, well-formed, with at least one planet still to place, and with
    /// exactly the name, grid and planets the catalogue spec data gives it.
    pub fn create_levels() -> (r: Vec<Level>)
        ensures
            r@.len() == 12,
            forall|i: int| 0 <= i < r@.len() ==> (#[trigger] r@[i]).wf(),
            forall|i: int| 0 <= i < r@.len() ==> (#[trigger] r@[i]).is_fresh(),
            forall|i: int| 0 <= i < r@.len() ==> (#[trigger] r@[i]).has_pending(),
            forall|i: int| 0 <= i < r@.len() ==> (#[trigger] r@[i]).name@ == catalogue_name(i),
            forall|i: int| 0 <= i < r@.len() ==> (#[trigger] r@[i]).grid_tiles == catalogue_grid(i),
            forall|i: int|
                0 <= i < r@.len() ==> (#[trigger] r@[i]).planets@ == catalogue_planets(i),
    {
        let mut levels: Vec<Level> = Vec::new();

        let mut ps: Vec<Planet> = Vec::new();
        ps.push(pending_planet(0b0000));
        levels.push(Level::new("1. Planet".to_string(), IVec2::new(3, 3), ps));

        let mut ps: Vec<Planet> = Vec::new();
        ps.push(pending_planet(0b0000));
        ps.push(placed_planet(0b0001, 0, 0, false));
        ps.push(placed_planet(0b0001, 0, 1, false));
        levels.push(Level::new("2. Gravity".to_string(), IVec2::new(3, 3), ps));

        let mut ps: Vec<Planet> = Vec::new();
        ps.push(pending_planet(0b0000));
        ps.push(placed_planet(0b0010, 0, 0, false));
        ps.push(placed_planet(0b0001, 0, 1, false));
        ps.push(placed_planet(0b0001, 0, 2, false));
        levels.push(Level::new("3. Direction".to_string(), IVec2::new(3, 3), ps));

        let mut ps: Vec<Planet> = Vec::new();
        ps.push(pending_planet(0b0000));
        ps.push(pending_planet(0b0000));
        ps.push(placed_planet(0b0011, 0, 1, false));
        ps.push(placed_planet(0b0011, 0, 2, false));
        levels.push(Level::new("4. Two planets".to_string(), IVec2::new(3, 3), ps));

        let mut ps: Vec<Planet> = Vec::new();
        ps.push(pending_planet(0b0000));
        ps.push(pending_planet(0b0001));
        ps.push(pending_planet(0b0000));
        ps.push(placed_planet(0b0011, 0, 0, false));
        ps.push(placed_planet(0b0001, 0, 2, false));
        ps.push(placed_planet(0b0001, 0, 3, false));
        levels.push(Level::new("5. Three planets".to_string(), IVec2::new(4, 4), ps));

        let mut ps: Vec<Planet> = Vec::new();
        ps.push(pending_planet(0b0001));
        ps.push(pending_planet(0b0011));
        ps.push(pending_planet(0b0000));
        ps.push(placed_planet(0b0000, 0, 0, false));
        ps.push(placed_planet(0b0000, 0, 2, false));
        ps.push(placed_planet(0b0000, 0, 3, false));
        levels.push(Level::new("6. Test".to_string(), IVec2::new(4, 4), ps));

        let mut ps: Vec<Planet> = Vec::new();
        ps.push(pending_planet(0b0000));
        ps.push(pending_planet(0b0010));
        ps.push(placed_planet(0b0001, 0, 0, false));
        ps.push(placed_planet(0b0001, 0, 1, false));
        levels.push(Level::new("7. Obstacle".to_string(), IVec2::new(10, 2), ps));

        let mut ps: Vec<Planet> = Vec::new();
        ps.push(pending_planet(0b0000));
        ps.push(pending_planet(0b0010));
        ps.push(placed_planet(0b0001, 0, 0, false));
        ps.push(placed_planet(0b0001, 0, 1, false));
        levels.push(Level::new("8. Swap".to_string(), IVec2::new(6, 2), ps));

        let mut ps: Vec<Planet> = Vec::new();
        ps.push(pending_planet(0b1111));
        ps.push(placed_planet(0b0000, 2, 0, false));
        ps.push(placed_planet(0b1000, 1, 1, false));
        ps.push(placed_planet(0b0000, 4, 2, false));
        ps.push(placed_planet(0b0000, 0, 2, false));
        ps.push(placed_planet(0b0010, 3, 3, false));
        ps.push(placed_planet(0b0000, 2, 4, false));
        levels.push(Level::new("9. Squeeze".to_string(), IVec2::new(5, 5), ps));

        let mut ps: Vec<Planet> = Vec::new();
        ps.push(pending_planet(0b0000));
        ps.push(placed_planet(0b0001, 2, 0, false));
        ps.push(placed_planet(0b1000, 1, 1, true));
        ps.push(placed_planet(0b1000, 4, 2, false));
        ps.push(placed_planet(0b0100, 0, 2, false));
        ps.push(placed_planet(0b0010, 3, 3, true));
        ps.push(placed_planet(0b1000, 2, 4, false));
        levels.push(Level::new("10. Intervention".to_string(), IVec2::new(5, 5), ps));

        let mut ps: Vec<Planet> = Vec::new();
        ps.push(pending_planet(0b0100));
        ps.push(pending_planet(0b0010));
        ps.push(placed_planet(0b1111, 0, 0, false));
        ps.push(placed_planet(0b1111, 0, 8, false));
        ps.push(placed_planet(0b1111, 8, 0, false));
        ps.push(placed_planet(0b1111, 8, 8, false));
        levels.push(Level::new("11. Defuse".to_string(), IVec2::new(9, 9), ps));

        let mut ps: Vec<Planet> = Vec::new();
        ps.push(pending_planet(0b0100));
        ps.push(pending_planet(0b0010));
        ps.push(pending_planet(0b1000));
        ps.push(placed_planet(0b0001, 0, 0, false));
        ps.push(placed_planet(0b0001, 0, 1, false));
        ps.push(placed_planet(0b0001, 0, 2, false));
        ps.push(placed_planet(0b0001, 0, 3, false));
        levels.push(Level::new("12. Loop".to_string(), IVec2::new(7, 4), ps));

        proof {
            assert forall|i: int| 0 <= i < levels@.len() implies (#[trigger] levels@[
                i
            ]).has_pending() by {
                assert(levels@[i].planets@.len() >= 1);
                assert(levels@[i].planets@[0].is_pending());
            }
            assert(levels@[0].planets@ =~= catalogue_planets(0));
            assert(levels@[1].planets@ =~= catalogue_planets(1));
            assert(levels@[2].planets@ =~= catalogue_planets(2));
            assert(levels@[3].planets@ =~= catalogue_planets(3));
            assert(levels@[4].planets@ =~= catalogue_planets(4));
            assert(levels@[5].planets@ =~= catalogue_planets(5));
            assert(levels@[6].planets@ =~= catalogue_planets(6));
            assert(levels@[7].planets@ =~= catalogue_planets(7));
            assert(levels@[8].planets@ =~= catalogue_planets(8));
            assert(levels@[9].planets@ =~= catalogue_planets(9));
            assert(levels@[10].planets@ =~= catalogue_planets(10));
            assert(levels@[11].planets@ =~= catalogue_planets(11));
            assert forall|i: int|
                0 <= i < levels@.len() implies (#[trigger] levels@[i]).planets@
                == catalogue_planets(i) by {}
        }
        levels
    }

    /// A fresh session: the built-in levels, the first one active, nothing
    /// placed, no score, and no simulation step requested or computed yet.
    pub fn new() -> (r: GameState)
        ensures
            r.wf(),
            r.levels@.len() == 12,
            forall|i: int| 0 <= i < r.levels@.len() ==> (#[trigger] r.levels@[i]).is_fresh(),
            forall|i: int| 0 <= i < r.levels@.len() ==> (#[trigger] r.levels@[i]).has_pending(),
            forall|i: int|
                0 <= i < r.levels@.len() ==> (#[trigger] r.levels@[i]).planets@
                    == catalogue_planets(i),
            forall|i: int|
                0 <= i < r.levels@.len() ==> (#[trigger] r.levels@[i]).name@ == catalogue_name(i),
            forall|i: int|
                0 <= i < r.levels@.len() ==> (#[trigger] r.levels@[i]).grid_tiles
                    == catalogue_grid(i),
            r.level_active == Some(0usize),
            r.planet_current_index == 0,
            r.score == 0,
            r.sim_step == 0,
            r.sim_step_computed == 0,
    {
        GameState {
            levels: Self::create_levels(),
            level_active: Some(0),
            planet_current_index: 0,
            score: 0,
            sim_step: 0,
            sim_step_computed: 0,
        }
    }
}

} // verus!

