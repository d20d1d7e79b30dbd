use wavefront::simulation::control::{RunState, Simulation, TickPlan};
use wavefront::simulation::ids::ComponentIDs;
use wavefront::ui::state::GameTicks;

#[test]
fn new_simulation_is_paused_at_tick_zero() {
    let sim = Simulation::new();
    assert_eq!(sim.state, RunState::Idle);
    assert_eq!(sim.ticks, GameTicks { ticks_since_start: 0 });
    assert!(sim.walls_changed);
    assert!(!sim.reset_pending);
    assert!(!sim.is_running());
}

#[test]
fn paused_simulation_does_not_tick() {
    let mut sim = Simulation::new();
    for _ in 0..10 {
        assert_eq!(sim.on_fixed_timestep(), TickPlan::Rest);
    }
    assert_eq!(sim, Simulation::new());
}

#[test]
fn toggle_switches_between_idle_and_running() {
    let mut sim = Simulation::new();
    sim.toggle();
    assert_eq!(sim.state, RunState::Running);
    assert!(sim.is_running());
    sim.toggle();
    assert_eq!(sim.state, RunState::Idle);
    assert_eq!(sim, Simulation::new());
}

#[test]
fn running_simulation_ticks_once_per_callback() {
    let mut sim = Simulation::new();
    sim.toggle();
    assert_eq!(
        sim.on_fixed_timestep(),
        TickPlan::Step { reset_cells: false, rebuild_walls: true }
    );
    assert_eq!(sim.ticks.ticks_since_start, 1);
    for tick in 2..=100u64 {
        assert_eq!(
            sim.on_fixed_timestep(),
            TickPlan::Step { reset_cells: false, rebuild_walls: false }
        );
        assert_eq!(sim.ticks.ticks_since_start, tick);
    }
    sim.toggle();
    assert_eq!(sim.on_fixed_timestep(), TickPlan::Rest);
    assert_eq!(sim.ticks.ticks_since_start, 100);
}

#[test]
fn walls_are_rebuilt_only_after_a_change() {
    let mut sim = Simulation::new();
    sim.toggle();
    sim.on_fixed_timestep();
    sim.walls_updated();
    sim.walls_updated();
    assert_eq!(
        sim.on_fixed_timestep(),
        TickPlan::Step { reset_cells: false, rebuild_walls: true }
    );
    assert_eq!(
        sim.on_fixed_timestep(),
        TickPlan::Step { reset_cells: false, rebuild_walls: false }
    );
}

#[test]
fn change_while_paused_is_kept_for_the_next_tick() {
    let mut sim = Simulation::new();
    sim.toggle();
    sim.on_fixed_timestep();
    sim.toggle();
    sim.walls_updated();
    assert_eq!(sim.on_fixed_timestep(), TickPlan::Rest);
    sim.toggle();
    assert_eq!(
        sim.on_fixed_timestep(),
        TickPlan::Step { reset_cells: false, rebuild_walls: true }
    );
}

#[test]
fn reset_starts_the_ticks_again() {
    let mut sim = Simulation::new();
    sim.toggle();
    for _ in 0..5 {
        sim.on_fixed_timestep();
    }
    sim.request_reset(true, false);
    assert!(sim.reset_pending);
    assert_eq!(sim.ticks.ticks_since_start, 5);
    assert_eq!(
        sim.on_fixed_timestep(),
        TickPlan::Step { reset_cells: true, rebuild_walls: false }
    );
    assert_eq!(sim.ticks.ticks_since_start, 1);
    assert!(!sim.reset_pending);
}

#[test]
fn unforced_reset_counts_only_with_reset_on_change() {
    let mut sim = Simulation::new();
    sim.request_reset(false, false);
    assert!(!sim.reset_pending);
    sim.request_reset(false, true);
    assert!(sim.reset_pending);
    sim.request_reset(false, false);
    assert!(sim.reset_pending);
}

#[test]
fn tick_counter_stops_at_its_largest_value() {
    let mut sim = Simulation::new();
    sim.toggle();
    sim.ticks.ticks_since_start = u64::MAX - 1;
    sim.on_fixed_timestep();
    assert_eq!(sim.ticks.ticks_since_start, u64::MAX);
    sim.on_fixed_timestep();
    assert_eq!(sim.ticks.ticks_since_start, u64::MAX);
}

#[test]
fn game_ticks_default_is_zero() {
    assert_eq!(GameTicks::default().ticks_since_start, 0);
}

#[test]
fn ids_count_up_each_on_its_own() {
    let mut ids = ComponentIDs::default();
    assert_eq!(ids.get_new_wall_id(), 0);
    assert_eq!(ids.get_new_wall_id(), 1);
    assert_eq!(ids.get_new_source_id(), 0);
    assert_eq!(ids.get_new_mic_id(), 0);
    assert_eq!(ids.get_new_mic_id(), 1);
    assert_eq!(ids.get_new_mic_id(), 2);
    assert_eq!(ids.get_new_wall_id(), 2);
    assert_eq!(
        ids,
        ComponentIDs { current_source_id: 1, current_wall_id: 3, current_mic_id: 3 }
    );
    assert!(ids.has_room());
}

#[test]
fn decrement_gives_the_last_wall_id_back() {
    let mut ids = ComponentIDs::default();
    ids.decrement_wall_ids();
    assert_eq!(ids, ComponentIDs::default());
    assert_eq!(ids.get_new_wall_id(), 0);
    assert_eq!(ids.get_new_wall_id(), 1);
    ids.decrement_wall_ids();
    assert_eq!(ids.get_new_wall_id(), 1);
    assert_eq!(ids.current_source_id, 0);
    assert_eq!(ids.current_mic_id, 0);
}

#[test]
fn ids_have_no_room_at_the_largest_number() {
    let ids = ComponentIDs { current_source_id: 0, current_wall_id: usize::MAX, current_mic_id: 0 };
    assert!(!ids.has_room());
}

#[test]
fn changing_the_ring_resets_and_rebuilds() {
    let mut sim = Simulation::new();
    sim.toggle();
    sim.on_fixed_timestep();
    sim.on_fixed_timestep();
    sim.boundary_width_changed();
    assert_eq!(
        sim.on_fixed_timestep(),
        TickPlan::Step { reset_cells: true, rebuild_walls: true }
    );
    assert_eq!(sim.ticks.ticks_since_start, 1);
}
