use gravity_puzzle::game_state::{GameState, NavRequest};
use gravity_puzzle::level::Level;
use gravity_puzzle::planet::{IVec2, Planet, PlanetState};

fn session(levels: Vec<Level>) -> GameState {
    GameState {
        levels,
        level_active: Some(0),
        planet_current_index: 0,
        score: 0,
        sim_step: 0,
        sim_step_computed: 0,
    }
}

fn pending(gravity: u8) -> Planet {
    Planet::new(gravity, PlanetState::Pending, true)
}

fn fixed(gravity: u8, x: i32, y: i32) -> Planet {
    Planet::new(gravity, PlanetState::Placed(IVec2::new(x, y)), false)
}

fn planet_state(gs: &GameState, k: usize) -> PlanetState {
    gs.levels[gs.level_active.unwrap()].planets[k].state
}

fn planet_delta(gs: &GameState, k: usize) -> IVec2 {
    gs.levels[gs.level_active.unwrap()].planets[k].sim_tile_delta
}

#[test]
fn single_planet_with_no_pull_is_immediately_stable() {
    // One planet, 3x3 grid, gravity field 0: place it anywhere, the next
    // pass leaves it at rest, and the level is stable.
    let level = Level::new("solo".to_string(), IVec2::new(3, 3), vec![pending(0b0000)]);
    let mut gs = session(vec![level]);

    let ev = gs.update_planets(true, true, IVec2::new(1, 2));
    assert!(ev.placed);
    gs.update_sim();

    assert_eq!(planet_state(&gs, 0), PlanetState::Placed(IVec2::new(1, 2)));
    assert_eq!(planet_delta(&gs, 0), IVec2::new(0, 0));

    let (stable_fired, failed_fired) = gs.update_win_condition();
    assert!(stable_fired);
    assert!(!failed_fired);
    assert!(gs.levels[0].is_stable);
    assert!(!gs.levels[0].is_failed);
}

#[test]
fn row_gravity_does_not_reach_across_a_column() {
    // An anchor at (0,0) pulling rightward along its row leaves a planet in
    // the same column untouched: the system is stable at once.
    let level = Level::new(
        "anchor".to_string(),
        IVec2::new(3, 3),
        vec![pending(0b0000), fixed(0b0001, 0, 0)],
    );
    let mut gs = session(vec![level]);

    let ev = gs.update_planets(true, true, IVec2::new(0, 2));
    assert!(ev.placed);
    gs.update_sim();

    assert_eq!(planet_state(&gs, 0), PlanetState::Placed(IVec2::new(0, 2)));
    assert_eq!(planet_delta(&gs, 0), IVec2::new(0, 0));
    assert_eq!(planet_state(&gs, 1), PlanetState::Placed(IVec2::new(0, 0)));

    let (stable_fired, _) = gs.update_win_condition();
    assert!(stable_fired);
}

#[test]
fn upward_pull_moves_planet_one_tile_per_pass() {
    // An anchor pulling up moves a planet above it down one tile per pass.
    let level = Level::new(
        "pull".to_string(),
        IVec2::new(3, 4),
        vec![pending(0b0000), fixed(0b1000, 0, 3)],
    );
    let mut gs = session(vec![level]);

    let ev = gs.update_planets(true, true, IVec2::new(0, 0));
    assert!(ev.placed);
    gs.update_sim();
    assert_eq!(planet_state(&gs, 0), PlanetState::Placed(IVec2::new(0, 1)));
    assert_eq!(planet_delta(&gs, 0), IVec2::new(0, 1));
    let (stable_fired, _) = gs.update_win_condition();
    assert!(!stable_fired);

    // Each further pass moves it one more tile toward the anchor.
    gs.sim_step += 1;
    gs.update_sim();
    assert_eq!(planet_state(&gs, 0), PlanetState::Placed(IVec2::new(0, 2)));
    assert_eq!(planet_delta(&gs, 0), IVec2::new(0, 1));
}

#[test]
fn two_planets_on_one_tile_both_collide_and_fail_the_level() {
    // Two mobile planets pulled onto the same tile in the same pass: both
    // become Colliding, the level fails, and later clicks are no-ops.
    let level = Level::new(
        "crash".to_string(),
        IVec2::new(3, 3),
        vec![pending(0b0001), pending(0b0010)],
    );
    let mut gs = session(vec![level]);

    let ev = gs.update_planets(true, true, IVec2::new(0, 0));
    assert!(ev.placed);
    gs.update_sim();
    let ev = gs.update_planets(true, true, IVec2::new(2, 0));
    assert!(ev.placed);
    gs.update_sim();

    assert_eq!(planet_state(&gs, 0), PlanetState::Colliding(IVec2::new(1, 0)));
    assert_eq!(planet_state(&gs, 1), PlanetState::Colliding(IVec2::new(1, 0)));
    assert!(gs.levels[0].is_failed);

    let (stable_fired, failed_fired) = gs.update_win_condition();
    assert!(!stable_fired);
    assert!(failed_fired);

    // The failed level is terminal: a further click changes nothing.
    let before = gs.clone();
    let ev = gs.update_planets(true, true, IVec2::new(2, 2));
    assert!(!ev.placed && !ev.place_denied && !ev.removed && !ev.remove_denied);
    assert_eq!(gs, before);
}

#[test]
fn removing_a_fixed_planet_is_denied() {
    // A non-removable planet stays placed and the pending pointer is
    // unchanged; only the remove-deny signal fires.
    let level = Level::new(
        "fixed".to_string(),
        IVec2::new(3, 3),
        vec![pending(0b0000), fixed(0b0000, 1, 1)],
    );
    let mut gs = session(vec![level]);

    let ev = gs.update_planets(true, true, IVec2::new(0, 0));
    assert!(ev.placed);
    gs.update_sim();
    assert_eq!(gs.planet_current_index, 2);

    let ev = gs.update_planets(true, true, IVec2::new(1, 1));
    assert!(ev.remove_denied);
    assert!(!ev.removed);
    assert_eq!(planet_state(&gs, 1), PlanetState::Placed(IVec2::new(1, 1)));
    assert_eq!(gs.planet_current_index, 2);
}

#[test]
fn placing_the_last_planet_enters_removal_mode() {
    // Once every planet is placed the pointer passes the end of the list;
    // a click on a removable planet returns it to Pending and the pointer
    // moves back to its slot.
    let level = Level::new(
        "two".to_string(),
        IVec2::new(3, 3),
        vec![pending(0b0000), pending(0b0000)],
    );
    let mut gs = session(vec![level]);

    let ev = gs.update_planets(true, true, IVec2::new(0, 0));
    assert!(ev.placed);
    assert_eq!(gs.planet_current_index, 1);
    gs.update_sim();

    let ev = gs.update_planets(true, true, IVec2::new(2, 2));
    assert!(ev.placed);
    gs.update_sim();
    assert!(gs.planet_current_index >= gs.levels[0].planets.len());

    let ev = gs.update_planets(true, true, IVec2::new(0, 0));
    assert!(ev.removed);
    assert_eq!(planet_state(&gs, 0), PlanetState::Pending);
    assert_eq!(gs.planet_current_index, 0);
}

#[test]
fn failed_level_recovers_only_through_reset() {
    let level = Level::new(
        "crash".to_string(),
        IVec2::new(3, 3),
        vec![pending(0b0001), pending(0b0010)],
    );
    let mut gs = session(vec![level]);
    gs.update_planets(true, true, IVec2::new(0, 0));
    gs.update_sim();
    gs.update_planets(true, true, IVec2::new(2, 0));
    gs.update_sim();
    assert!(gs.levels[0].is_failed);

    // Another pass does not clear the failure.
    gs.sim_step += 1;
    gs.update_sim();
    assert!(gs.levels[0].is_failed);

    // A retry does.
    gs.update_next_level(NavRequest::Retry, false);
    assert!(!gs.levels[0].is_failed);
    assert_eq!(planet_state(&gs, 0), PlanetState::Pending);
    assert_eq!(planet_state(&gs, 1), PlanetState::Pending);
    assert_eq!(gs.levels[0].score, 0);
}
