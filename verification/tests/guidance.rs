use nav_simulator::vehicle::{Guidance, StepOutcome};

fn route() -> Guidance<(i32, i32)> {
    let mut g = Guidance::new();
    g.add_waypoint((100, 150));
    g.add_waypoint((105, 155));
    g.add_waypoint((105, 185));
    g.add_waypoint((135, 185));
    g
}

#[test]
fn new_guidance_is_empty_and_unstarted() {
    let g: Guidance<(i32, i32)> = Guidance::new();
    assert!(g.waypoints().is_empty());
    assert!(!g.initialized());
    assert!(!g.complete());
    assert_eq!(g.frame(), 0);
    assert_eq!(g.waypoint_index(), 0);
    assert_eq!(g.target(), None);
}

#[test]
fn waypoints_keep_their_order() {
    let g = route();
    assert_eq!(g.waypoints(), &vec![(100, 150), (105, 155), (105, 185), (135, 185)]);
}

#[test]
fn update_before_initialize_changes_nothing() {
    let mut g = route();
    assert_eq!(g.step(true, false), StepOutcome::NotInitialized);
    assert_eq!(g.step(false, false), StepOutcome::NotInitialized);
    assert_eq!(g.waypoint_index(), 0);
    assert_eq!(g.frame(), 0);
    assert!(!g.complete());
}

#[test]
fn initialize_without_waypoints_does_not_start() {
    let mut g: Guidance<(i32, i32)> = Guidance::new();
    g.initialize();
    assert!(!g.initialized());
    assert_eq!(g.step(false, false), StepOutcome::NotInitialized);
}

#[test]
fn initialize_targets_first_waypoint() {
    let mut g = route();
    g.initialize();
    assert!(g.initialized());
    assert!(!g.complete());
    assert_eq!(g.target(), Some(&(100, 150)));
}

#[test]
fn advancing_counts_frames_only() {
    let mut g = route();
    g.initialize();
    assert_eq!(g.step(false, false), StepOutcome::Advanced);
    assert_eq!(g.step(false, false), StepOutcome::Advanced);
    assert_eq!(g.frame(), 2);
    assert_eq!(g.waypoint_index(), 0);
}

#[test]
fn reaching_a_waypoint_moves_to_the_next_without_a_frame() {
    let mut g = route();
    g.initialize();
    assert_eq!(g.step(true, true), StepOutcome::WaypointReached);
    assert_eq!(g.waypoint_index(), 1);
    assert_eq!(g.frame(), 0);
    assert_eq!(g.target(), Some(&(105, 155)));
}

#[test]
fn running_out_of_fuel_holds_clock_and_waypoint() {
    let mut g = route();
    g.initialize();
    assert_eq!(g.step(false, true), StepOutcome::OutOfFuel);
    assert_eq!(g.frame(), 0);
    assert_eq!(g.waypoint_index(), 0);
    assert!(!g.complete());
}

#[test]
fn full_route_completes_and_stays_complete() {
    let mut g = route();
    g.initialize();
    for i in 0..4 {
        assert_eq!(g.waypoint_index(), i);
        assert_eq!(g.step(true, false), StepOutcome::WaypointReached);
    }
    assert_eq!(g.target(), None);
    assert!(!g.complete());
    assert_eq!(g.step(false, false), StepOutcome::RouteComplete);
    assert!(g.complete());
    assert_eq!(g.step(true, true), StepOutcome::RouteComplete);
    assert!(g.complete());
    assert_eq!(g.waypoint_index(), 4);
    assert_eq!(g.frame(), 0);
}

#[test]
fn waypoint_added_after_completion_is_steered_to() {
    let mut g = route();
    g.initialize();
    for _ in 0..4 {
        g.step(true, false);
    }
    g.step(false, false);
    assert!(g.complete());
    g.add_waypoint((0, 0));
    assert_eq!(g.target(), Some(&(0, 0)));
    assert_eq!(g.step(false, false), StepOutcome::Advanced);
    assert!(g.complete());
}

#[test]
fn reinitialize_keeps_progress() {
    let mut g = route();
    g.initialize();
    g.step(true, false);
    g.step(false, false);
    g.initialize();
    assert_eq!(g.waypoint_index(), 1);
    assert_eq!(g.frame(), 1);
}
