use clusterlab::app::{ControlState, RunMode, TickAction, DEFAULT_N_POINTS, MAX_N_POINTS, MIN_N_POINTS};
use clusterlab::kmeans::StepOutcome;
use clusterlab::world::DatasetChoice;

const K: usize = 3;

#[test]
fn new_control_state_defaults() {
    let c = ControlState::new(K);
    assert_eq!(c.k, K);
    assert!(!c.mode_3d);
    assert!(!c.auto_run);
    assert!(!c.converged);
    assert!(!c.looping);
    assert!(c.show_voronoi);
    assert_eq!(c.current_dataset, DatasetChoice::BlobsRandom);
    assert_eq!(c.n_points, DEFAULT_N_POINTS);
    assert_eq!(c.next_centroid_to_place, 0);
    assert_eq!(c.run_mode, RunMode::Idle);
}

#[test]
fn set_k_changes_and_clamps() {
    let mut c = ControlState::new(K);
    assert!(c.set_k(5));
    assert_eq!(c.k, 5);
    assert!(c.set_k(0));
    assert_eq!(c.k, 1);
}

#[test]
fn set_k_same_value_changes_nothing() {
    let mut c = ControlState::new(K);
    c.converged = true;
    let before = c;
    assert!(!c.set_k(K));
    assert_eq!(c, before);
}

#[test]
fn after_centroids_changed_resets_run() {
    let mut c = ControlState::new(K);
    c.toggle_auto_run(true);
    c.converged = true;
    c.next_centroid_to_place = 2;
    c.after_centroids_changed();
    assert!(!c.auto_run);
    assert!(!c.converged);
    assert_eq!(c.run_mode, RunMode::Idle);
    assert_eq!(c.next_centroid_to_place, 0);
}

#[test]
fn load_dataset_does_not_change_mode() {
    let mut c = ControlState::new(K);
    assert!(!c.mode_3d);
    c.load_dataset(DatasetChoice::Iris);
    assert!(!c.mode_3d, "load_dataset must not flip 2D/3D mode");
    assert_eq!(c.current_dataset, DatasetChoice::Iris);
}

#[test]
fn set_n_points_clamps() {
    let mut c = ControlState::new(K);
    c.set_n_points(3);
    assert_eq!(c.n_points, MIN_N_POINTS);
    c.set_n_points(1_000_000);
    assert_eq!(c.n_points, MAX_N_POINTS);
    c.set_n_points(500);
    assert_eq!(c.n_points, 500);
}

#[test]
fn clear_points_stops_run_but_keeps_mode() {
    let mut c = ControlState::new(K);
    c.toggle_mode();
    c.toggle_auto_run(true);
    c.converged = true;
    c.clear_points();
    assert!(c.mode_3d);
    assert!(!c.auto_run);
    assert!(!c.converged);
    assert_eq!(c.run_mode, RunMode::Idle);
}

#[test]
fn set_looping_on_enables_auto_run() {
    let mut c = ControlState::new(K);
    assert!(!c.auto_run);
    c.set_looping(true);
    assert!(c.looping);
    assert!(
        c.auto_run,
        "turning Loop on should also flip auto_run on (otherwise nothing fires)"
    );
}

#[test]
fn set_looping_off_does_not_change_auto_run() {
    let mut c = ControlState::new(K);
    c.set_looping(true);
    assert!(c.auto_run);
    c.set_looping(false);
    assert!(!c.looping);
    assert!(c.auto_run);
}

#[test]
fn set_looping_when_converged_asks_for_restart() {
    let mut c = ControlState::new(K);
    c.converged = true;
    assert!(c.set_looping(true));
    let mut d = ControlState::new(K);
    assert!(!d.set_looping(true));
    assert!(!c.set_looping(false));
}

#[test]
fn steps_refused_when_converged_or_empty() {
    let mut c = ControlState::new(K);
    assert!(c.may_step(false));
    assert!(!c.may_step(true));
    c.converged = true;
    assert!(!c.may_step(false));
}

#[test]
fn convergence_without_loop_stops_auto_run() {
    let mut c = ControlState::new(K);
    c.toggle_auto_run(true);
    assert!(!c.record_step_outcome(StepOutcome::Moved));
    assert!(c.auto_run && !c.converged);
    assert!(!c.record_step_outcome(StepOutcome::Converged));
    assert!(c.converged);
    assert!(!c.auto_run);
    assert_eq!(c.after_animation(3, 0), TickAction::Nothing);
}

#[test]
fn convergence_with_loop_holds_and_restarts() {
    let mut c = ControlState::new(K);
    c.set_looping(true);
    assert!(c.record_step_outcome(StepOutcome::Converged));
    assert!(c.auto_run);
    assert_eq!(c.after_animation(4, 0), TickAction::RestartForLoop);
    assert!(!c.restart_for_loop());
    assert!(!c.converged);
    assert!(c.auto_run);
}

#[test]
fn run_to_convergence_chains_steps_until_cap() {
    let mut c = ControlState::new(K);
    c.run_to_convergence();
    assert_eq!(c.run_mode, RunMode::Fast);
    assert_eq!(c.after_animation(10, 0), TickAction::StartStep);
    assert_eq!(c.after_animation(150, 49), TickAction::StartStep);
    assert_eq!(c.after_animation(150, 50), TickAction::Nothing);
    assert_eq!(c.run_mode, RunMode::Idle);
    assert_eq!(c.after_animation(0, 0), TickAction::Nothing);
}

#[test]
fn run_to_convergence_stops_or_loops_on_convergence() {
    let mut c = ControlState::new(K);
    c.run_to_convergence();
    c.record_step_outcome(StepOutcome::Converged);
    assert_eq!(c.after_animation(5, 0), TickAction::Nothing);
    assert_eq!(c.run_mode, RunMode::Idle);

    let mut d = ControlState::new(K);
    d.set_looping(true);
    d.run_to_convergence();
    d.record_step_outcome(StepOutcome::Converged);
    assert_eq!(d.after_animation(5, 0), TickAction::RestartForLoop);
    assert!(d.restart_for_loop(), "fast mode chains the next step");
    assert!(!d.converged);
}

#[test]
fn single_step_marks_single_only_when_idle() {
    let mut c = ControlState::new(K);
    c.note_single_step();
    assert_eq!(c.run_mode, RunMode::Single);
    c.toggle_auto_run(true);
    c.note_single_step();
    assert_eq!(c.run_mode, RunMode::Auto);
    c.toggle_auto_run(false);
    assert_eq!(c.run_mode, RunMode::Idle);
}

#[test]
fn place_centroid_cycles_indices() {
    let mut c = ControlState::new(K);
    assert_eq!(c.next_centroid_to_place, 0);
    assert_eq!(c.place_centroid_2d(), Some(0));
    assert_eq!(c.next_centroid_to_place, 1);
    assert_eq!(c.place_centroid_2d(), Some(1));
    assert_eq!(c.next_centroid_to_place, 2);
    assert_eq!(c.place_centroid_2d(), Some(2));
    assert_eq!(
        c.next_centroid_to_place, 0,
        "should wrap from k-1 back to 0"
    );
}

#[test]
fn place_centroid_with_stale_index_and_no_clusters() {
    let mut c = ControlState::new(K);
    c.next_centroid_to_place = 7;
    c.converged = true;
    assert_eq!(c.place_centroid_2d(), Some(1));
    assert_eq!(c.next_centroid_to_place, 2);
    assert!(!c.converged);
    let mut z = ControlState::new(0);
    assert_eq!(z.place_centroid_2d(), None);
}

#[test]
fn snapshot_staleness() {
    let c = ControlState::new(K);
    assert!(!c.needs_fresh_snapshot(3));
    assert!(c.needs_fresh_snapshot(2));
}

#[test]
fn toggles_flip() {
    let mut c = ControlState::new(K);
    c.toggle_auto_run(true);
    c.converged = true;
    c.toggle_mode();
    assert!(c.mode_3d && !c.auto_run && !c.converged);
    assert_eq!(c.run_mode, RunMode::Idle);
    c.toggle_voronoi();
    assert!(!c.show_voronoi);
    c.toggle_voronoi();
    assert!(c.show_voronoi);
    c.converged = true;
    c.points_edited();
    assert!(!c.converged);
}

#[test]
fn auto_run_ticks_only_when_running_idle_and_unconverged() {
    let mut c = ControlState::new(3);
    assert!(!c.auto_run_ticking(false));
    c.toggle_auto_run(true);
    assert!(c.auto_run_ticking(false));
    assert!(!c.auto_run_ticking(true));
    c.record_step_outcome(StepOutcome::Converged);
    assert!(!c.auto_run_ticking(false));
}
