use gravity_puzzle::game_state::{GameState, NavRequest};
use gravity_puzzle::level::Level;
use gravity_puzzle::planet::{IVec2, Planet, PlanetState};

fn session(levels: Vec<Level>) -> GameState {
    GameState {
        levels,
        level_active: Some(0),
        planet_current_index: 0,
        score: 0,
        sim_step: 0,
        sim_step_computed: 0,
    }
}

fn pending(gravity: u8) -> Planet {
    Planet::new(gravity, PlanetState::Pending, true)
}

#[test]
fn the_catalogue_has_twelve_fresh_levels() {
    let levels = GameState::create_levels();
    assert_eq!(levels.len(), 12);
    for level in &levels {
        assert_eq!(level.score, 0);
        assert!(!level.is_failed && !level.is_stable);
        assert!(!level.was_failed && !level.was_stable);
        assert!(!level.is_setup);
        assert!(level.planets.iter().any(|p| p.state == PlanetState::Pending));
        assert_eq!(level.planets.len(), level.planets_original.len());
    }
    assert_eq!(levels[0].name, "1. Planet");
    assert_eq!(levels[0].grid_tiles, IVec2::new(3, 3));
    assert_eq!(levels[0].planets.len(), 1);
    assert_eq!(levels[6].name, "7. Obstacle");
    assert_eq!(levels[6].grid_tiles, IVec2::new(10, 2));
    assert_eq!(levels[11].name, "12. Loop");
    assert_eq!(levels[11].planets.len(), 7);
}

#[test]
fn a_new_session_starts_on_the_first_level() {
    let gs = GameState::new();
    assert_eq!(gs.level_active, Some(0));
    assert_eq!(gs.planet_current_index, 0);
    assert_eq!(gs.score, 0);
    assert_eq!(gs.sim_step, 0);
    assert_eq!(gs.sim_step_computed, 0);
    assert_eq!(gs.levels.len(), 12);
    assert!(gs.current_level().is_some());
}

#[test]
fn current_level_follows_the_active_index() {
    let mut gs = GameState::new();
    assert_eq!(gs.current_level().unwrap().name, "1. Planet");
    gs.level_active = Some(3);
    assert_eq!(gs.current_level().unwrap().name, "4. Two planets");
    gs.level_active = None;
    assert!(gs.current_level().is_none());
}

#[test]
fn setup_runs_once_until_the_next_reset() {
    let mut gs = GameState::new();
    gs.planet_current_index = 5;
    gs.sim_step = 7;
    gs.sim_step_computed = 7;

    assert!(gs.setup_level());
    assert!(gs.levels[0].is_setup);
    assert_eq!(gs.planet_current_index, 0);
    assert_eq!(gs.sim_step, 0);
    assert_eq!(gs.sim_step_computed, 0);

    assert!(!gs.setup_level());

    gs.update_next_level(NavRequest::Retry, false);
    assert!(!gs.levels[0].is_setup);
    assert!(gs.setup_level());
}

#[test]
fn navigation_is_clamped_at_both_ends() {
    let mut gs = GameState::new();
    gs.update_next_level(NavRequest::Previous, false);
    assert_eq!(gs.level_active, Some(0));
    gs.update_next_level(NavRequest::Next, false);
    assert_eq!(gs.level_active, Some(1));
    gs.update_next_level(NavRequest::Last, false);
    assert_eq!(gs.level_active, Some(11));
    gs.update_next_level(NavRequest::Next, false);
    assert_eq!(gs.level_active, Some(11));
    gs.update_next_level(NavRequest::First, false);
    assert_eq!(gs.level_active, Some(0));
}

#[test]
fn moving_between_levels_resets_both_of_them() {
    let mut gs = GameState::new();
    // Disturb level 0, then leave it and come back.
    let ev = gs.update_planets(true, true, IVec2::new(1, 1));
    assert!(ev.placed);
    assert_eq!(gs.levels[0].score, -1);

    gs.update_next_level(NavRequest::Next, false);
    assert_eq!(gs.level_active, Some(1));
    assert_eq!(gs.levels[0].score, 0);
    assert_eq!(gs.levels[0].planets[0].state, PlanetState::Pending);
    assert_eq!(gs.levels[1].score, 0);
}

#[test]
fn a_click_on_a_stable_level_advances_except_on_the_last() {
    let mut gs = GameState::new();
    // Solve level 1: its single planet has no pull.
    gs.update_planets(true, true, IVec2::new(1, 1));
    gs.update_sim();
    gs.update_win_condition();
    assert!(gs.levels[0].is_stable);

    // Without a click nothing advances; with one, the session moves on.
    gs.update_next_level(NavRequest::Stay, false);
    assert_eq!(gs.level_active, Some(0));
    gs.update_next_level(NavRequest::Stay, true);
    assert_eq!(gs.level_active, Some(1));

    // On the last level a confirming click goes nowhere.
    let solo = Level::new("end".to_string(), IVec2::new(3, 3), vec![pending(0b0000)]);
    let mut gs = session(vec![solo]);
    gs.update_planets(true, true, IVec2::new(0, 0));
    gs.update_sim();
    gs.update_win_condition();
    assert!(gs.levels[0].is_stable);
    gs.update_next_level(NavRequest::Stay, true);
    assert_eq!(gs.level_active, Some(0));
}

#[test]
fn total_score_rewards_efficient_stable_levels() {
    let mut gs = GameState::new();
    gs.levels[0].is_stable = true;
    gs.levels[0].score = -3;
    gs.levels[4].is_stable = true;
    gs.levels[4].score = -10;
    gs.levels[7].score = -99;  // not stable: worth nothing
    gs.update_score();
    assert_eq!(gs.score, (100 - 3) + (100 - 10));
}

#[test]
fn each_accepted_action_costs_one_point() {
    let level = Level::new(
        "cost".to_string(),
        IVec2::new(3, 3),
        vec![pending(0b0000), pending(0b0000)],
    );
    let mut gs = session(vec![level]);
    gs.update_planets(true, true, IVec2::new(0, 0));
    gs.update_sim();
    gs.update_planets(true, true, IVec2::new(2, 2));
    gs.update_sim();
    assert_eq!(gs.levels[0].score, -2);
    // A removal costs a point too.
    gs.update_planets(true, true, IVec2::new(0, 0));
    assert_eq!(gs.levels[0].score, -3);
    assert_eq!(gs.sim_step, 3);
}

#[test]
fn placing_on_an_occupied_tile_is_denied() {
    let level = Level::new(
        "deny".to_string(),
        IVec2::new(3, 3),
        vec![pending(0b0000), pending(0b0000)],
    );
    let mut gs = session(vec![level]);
    gs.update_planets(true, true, IVec2::new(1, 1));
    gs.update_sim();

    let before = gs.clone();
    let ev = gs.update_planets(true, true, IVec2::new(1, 1));
    assert!(ev.place_denied);
    assert!(!ev.placed);
    assert_eq!(gs, before);
}

#[test]
fn a_placement_click_outside_the_grid_is_denied() {
    let level = Level::new("out".to_string(), IVec2::new(3, 3), vec![pending(0b0000)]);
    let mut gs = session(vec![level]);
    let before = gs.clone();
    let ev = gs.update_planets(true, false, IVec2::new(1, 1));
    assert!(ev.place_denied);
    assert!(!ev.placed && !ev.removed && !ev.remove_denied);
    assert_eq!(gs, before);
}

#[test]
fn a_removal_click_outside_the_grid_does_nothing() {
    let level = Level::new("out2".to_string(), IVec2::new(3, 3), vec![pending(0b0000)]);
    let mut gs = session(vec![level]);
    gs.update_planets(true, true, IVec2::new(1, 1));
    gs.update_sim();
    assert!(gs.planet_current_index >= gs.levels[0].planets.len());

    let before = gs.clone();
    let ev = gs.update_planets(true, false, IVec2::new(1, 1));
    assert!(!ev.placed && !ev.place_denied && !ev.removed && !ev.remove_denied);
    assert_eq!(gs, before);
}

#[test]
fn one_poll_serves_every_outstanding_request() {
    // Two accepted placements before the simulation is polled: one poll
    // runs one pass and catches the computed step fully up.
    let level = Level::new(
        "burst".to_string(),
        IVec2::new(3, 3),
        vec![pending(0b0000), pending(0b0000)],
    );
    let mut gs = session(vec![level]);
    gs.update_planets(true, true, IVec2::new(0, 0));
    gs.update_planets(true, true, IVec2::new(2, 2));
    assert_eq!(gs.sim_step, 2);
    assert_eq!(gs.sim_step_computed, 0);

    gs.update_sim();
    assert_eq!(gs.sim_step_computed, gs.sim_step);

    let before = gs.clone();
    gs.update_sim();
    assert_eq!(gs, before);
}

#[test]
fn the_pending_pointer_skips_planets_placed_by_the_level() {
    // The first planet of the queue is pre-placed by the level definition:
    // one call advances the pointer past it and does nothing else.
    let level = Level::new(
        "skip".to_string(),
        IVec2::new(3, 3),
        vec![
            Planet::new(0b0000, PlanetState::Placed(IVec2::new(0, 0)), false),
            pending(0b0000),
        ],
    );
    let mut gs = session(vec![level]);
    let ev = gs.update_planets(true, true, IVec2::new(2, 2));
    assert!(!ev.placed);
    assert_eq!(gs.planet_current_index, 1);
    let ev = gs.update_planets(true, true, IVec2::new(2, 2));
    assert!(ev.placed);
    assert_eq!(
        gs.levels[0].planets[1].state,
        PlanetState::Placed(IVec2::new(2, 2))
    );
}

#[test]
fn removal_reopens_the_earliest_pending_slot() {
    let level = Level::new(
        "reopen".to_string(),
        IVec2::new(4, 4),
        vec![pending(0b0000), pending(0b0000), pending(0b0000)],
    );
    let mut gs = session(vec![level]);
    gs.update_planets(true, true, IVec2::new(0, 0));
    gs.update_sim();
    gs.update_planets(true, true, IVec2::new(2, 0));
    gs.update_sim();
    gs.update_planets(true, true, IVec2::new(0, 2));
    gs.update_sim();
    assert_eq!(gs.planet_current_index, 3);

    // Remove the middle planet: the pointer returns to its slot.
    let ev = gs.update_planets(true, true, IVec2::new(2, 0));
    assert!(ev.removed);
    assert_eq!(gs.planet_current_index, 1);
    gs.update_sim();

    // Placing again fills slot 1, and the pointer scans from the start to
    // find the next pending planet, which is past the end now.
    let ev = gs.update_planets(true, true, IVec2::new(2, 2));
    assert!(ev.placed);
    assert_eq!(gs.planet_current_index, 3);
}

#[test]
fn a_removal_click_on_an_empty_tile_does_nothing() {
    let level = Level::new("empty".to_string(), IVec2::new(3, 3), vec![pending(0b0000)]);
    let mut gs = session(vec![level]);
    gs.update_planets(true, true, IVec2::new(0, 0));
    gs.update_sim();
    assert_eq!(gs.planet_current_index, 1);

    let before = gs.clone();
    let ev = gs.update_planets(true, true, IVec2::new(2, 2));
    assert!(!ev.removed && !ev.remove_denied);
    assert_eq!(gs, before);
}

#[test]
fn level_score_saturates_instead_of_overflowing() {
    let level = Level::new(
        "floor".to_string(),
        IVec2::new(3, 3),
        vec![pending(0b0000)],
    );
    let mut gs = session(vec![level]);
    gs.levels[0].score = i32::MIN;
    let ev = gs.update_planets(true, true, IVec2::new(1, 1));
    assert!(ev.placed);
    assert_eq!(gs.levels[0].score, i32::MIN);
}

#[test]
fn total_score_saturates_at_the_top_of_the_range() {
    let mut gs = GameState::new();
    gs.levels[0].is_stable = true;
    gs.levels[0].score = i32::MAX - 10;
    gs.levels[1].is_stable = true;
    gs.levels[1].score = i32::MAX - 10;
    gs.update_score();
    assert_eq!(gs.score, i32::MAX);
}

#[test]
fn simulation_without_an_active_level_does_nothing() {
    let level = Level::new("idle".to_string(), IVec2::new(3, 3), vec![pending(0b0000)]);
    let mut gs = session(vec![level]);
    gs.level_active = None;
    gs.sim_step = 1;
    let before = gs.clone();
    gs.update_sim();
    assert_eq!(gs, before);
}
