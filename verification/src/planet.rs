//! A single placeable body: its gravity field, removability and placement
//! state, together with the small state transitions the controller performs.

use vstd::prelude::*;

verus! {

/// An integer 2-vector: a tile coordinate, a grid size, or a per-axis
/// displacement.
#[derive(Clone, Copy, PartialEq, Eq, Structural, Debug)]
pub struct IVec2 {
    pub x: i32,
    pub y: i32,
}

impl IVec2 {
    pub fn new(x: i32, y: i32) -> (r: IVec2)
        ensures
            r == (IVec2 { x, y }),
    {
        IVec2 { x, y }
    }
}

/// Placement state of a planet. `Pending` planets take no part in any spatial
/// computation; `Colliding` is the terminal failure marker: such a planet
/// still occupies its tile but no longer moves.
#[derive(Clone, Copy, PartialEq, Eq, Structural, Debug)]
pub enum PlanetState {
    Pending,
    Placed(IVec2),
    Colliding(IVec2),
}

/// A placeable body. `gravity_field` is a 4-bit mask (up, down, left, right):
/// a set bit means this planet pulls other planets toward itself along that
/// axis. `sim_tile_delta` is the displacement computed by the last simulation
/// pass; it is meaningful only while the planet is `Placed` and is the
/// quantity the stability predicate checks.
#[derive(Clone, Copy, PartialEq, Eq, Structural, Debug)]
pub struct Planet {
    pub state: PlanetState,
    /// Up, down, left, right
    pub gravity_field: u8,
    pub is_removable: bool,
    pub sim_tile_delta: IVec2,
}

impl Planet {
    pub open spec fn spec_has_gravity_up(self) -> bool {
        self.gravity_field & 0b1000 > 0
    }

    pub open spec fn spec_has_gravity_down(self) -> bool {
        self.gravity_field & 0b0100 > 0
    }

    pub open spec fn spec_has_gravity_left(self) -> bool {
        self.gravity_field & 0b0010 > 0
    }

    pub open spec fn spec_has_gravity_right(self) -> bool {
        self.gravity_field & 0b0001 > 0
    }

    pub open spec fn is_placed(self) -> bool {
        self.state is Placed
    }

    pub open spec fn is_pending(self) -> bool {
        self.state is Pending
    }

    /// The planet stands on a tile: it is `Placed` or `Colliding`.
    pub open spec fn occupies(self) -> bool {
        self.state is Placed || self.state is Colliding
    }

    /// The tile a `Placed` or `Colliding` planet stands on.
    pub open spec fn tile(self) -> IVec2
        recommends
            self.occupies(),
    {
        match self.state {
            PlanetState::Pending => IVec2 { x: 0, y: 0 },
            PlanetState::Placed(t) => t,
            PlanetState::Colliding(t) => t,
        }
    }

    pub fn new(gravity_field: u8, state: PlanetState, is_removable: bool) -> (r: Planet)
        ensures
            r == (Planet { gravity_field, state, is_removable, sim_tile_delta: IVec2 { x: 0, y: 0 } }),
    {
        Planet { gravity_field, state, is_removable, sim_tile_delta: IVec2 { x: 0, y: 0 } }
    }

    /// Put the planet on `tile`; every other attribute is kept.
    pub fn place(&mut self, tile: IVec2)
        ensures
            *final(self) == (Planet { state: PlanetState::Placed(tile), ..*old(self) }),
    {
        self.state = PlanetState::Placed(tile);
    }

    /// Return the planet to the placement queue; every other attribute is kept.
    pub fn remove(&mut self)
        ensures
            *final(self) == (Planet { state: PlanetState::Pending, ..*old(self) }),
    {
        self.state = PlanetState::Pending;
    }

    pub fn has_gravity_up(&self) -> (r: bool)
        ensures
            r == self.spec_has_gravity_up(),
    {
        self.gravity_field & 0b1000 > 0
    }

    pub fn has_gravity_down(&self) -> (r: bool)
        ensures
            r == self.spec_has_gravity_down(),
    {
        self.gravity_field & 0b0100 > 0
    }

    pub fn has_gravity_left(&self) -> (r: bool)
        ensures
            r == self.spec_has_gravity_left(),
    {
        self.gravity_field & 0b0010 > 0
    }

    pub fn has_gravity_right(&self) -> (r: bool)
        ensures
            r == self.spec_has_gravity_right(),
    {
        self.gravity_field & 0b0001 > 0
    }
}

} // verus!
