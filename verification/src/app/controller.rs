//! The run-control state machine.
//!
//! Each method corresponds to one step of the host's controller: the host
//! performs the geometric work (drawing random centroids, running the
//! k-means step, animating) and consults this state for every decision.

use crate::kmeans::StepOutcome;
use crate::world::DatasetChoice;
use vstd::prelude::*;

verus! {

/// Default number of points generated for Blobs/Moons in either mode.
pub const DEFAULT_N_POINTS: usize = 220usize;

/// Smallest point count the Blobs/Moons generators are asked for.
pub const MIN_N_POINTS: usize = 10usize;

/// Largest point count the Blobs/Moons generators are asked for.
pub const MAX_N_POINTS: usize = 2000usize;

/// "Run to convergence" gives up after this many iterations (2D and 3D
/// counters together).
pub const MAX_ITERS_RUN_TO_CONVERGENCE: usize = 200usize;

/// What is currently driving iterations.
#[derive(Debug, Clone, Copy, PartialEq, Eq, Structural)]
pub enum RunMode {
    /// Nothing runs on its own.
    Idle,
    /// A single step was requested.
    Single,
    /// Steps fire on the auto-run timer.
    Auto,
    /// "Run to convergence": each finished animation chains the next step.
    Fast,
}

/// What the host must do after an animation finished.
#[derive(Debug, Clone, Copy, PartialEq, Eq, Structural)]
pub enum TickAction {
    /// Nothing more.
    Nothing,
    /// Re-seed the active centroids and start over (loop mode).
    RestartForLoop,
    /// Run the next step of a "run to convergence" chain.
    StartStep,
}

/// The controller's flags.
#[derive(Debug, Clone, Copy, PartialEq, Eq, Structural)]
pub struct ControlState {
    /// Number of clusters.
    pub k: usize,
    /// True in 3D mode, false in 2D mode.
    pub mode_3d: bool,
    /// Whether Voronoi cells (edges in 2D, planes in 3D) are drawn.
    pub show_voronoi: bool,
    /// Whether steps fire on the auto-run timer.
    pub auto_run: bool,
    /// Whether the last step of the active mode converged.
    pub converged: bool,
    /// Loop mode: after convergence, hold, re-seed and repeat.
    pub looping: bool,
    /// The dataset shown.
    pub current_dataset: DatasetChoice,
    /// Number of points to generate next time Blobs/Moons is (re)generated.
    pub n_points: usize,
    /// Index of the next centroid to place by hand; cycles through `0..k`.
    pub next_centroid_to_place: usize,
    /// What is currently driving iterations.
    pub run_mode: RunMode,
}

/// `v` clamped to `[lo, hi]`.
pub open spec fn clamp_spec(v: int, lo: int, hi: int) -> int {
    if v < lo {
        lo
    } else if v > hi {
        hi
    } else {
        v
    }
}

impl ControlState {
    /// The flags of a freshly started controller with `k` clusters: 2D,
    /// Voronoi shown, nothing running, random blobs, the default point
    /// count.
    pub fn new(k: usize) -> (s: Self)
        ensures
            s.k == k,
            !s.mode_3d,
            s.show_voronoi,
            !s.auto_run,
            !s.converged,
            !s.looping,
            s.current_dataset == DatasetChoice::BlobsRandom,
            s.n_points == DEFAULT_N_POINTS,
            s.next_centroid_to_place == 0,
            s.run_mode == RunMode::Idle,
    {
        ControlState {
            k,
            mode_3d: false,
            show_voronoi: true,
            auto_run: false,
            converged: false,
            looping: false,
            current_dataset: DatasetChoice::BlobsRandom,
            n_points: DEFAULT_N_POINTS,
            next_centroid_to_place: 0,
            run_mode: RunMode::Idle,
        }
    }

    /// Change the number of clusters. Returns whether it changed, in which
    /// case the host re-seeds the centroids. Asking for the current value
    /// changes nothing; any other value is raised to at least 1.
    pub fn set_k(&mut self, new_k: usize) -> (changed: bool)
        ensures
            changed == (new_k != old(self).k),
            !changed ==> *final(self) == *old(self),
            changed ==> *final(self) == (ControlState {
                k: if new_k >= 1 { new_k } else { 1 },
                ..*old(self)
            }),
    {
        if new_k == self.k {
            return false;
        }
        self.k = if new_k >= 1 {
            new_k
        } else {
            1
        };
        true
    }

    /// Bookkeeping after any centroid change: not converged, auto-run off
    /// (so it does not fight the reset), idle, hand placement back at
    /// centroid 0.
    pub fn after_centroids_changed(&mut self)
        ensures
            *final(self) == (ControlState {
                converged: false,
                auto_run: false,
                run_mode: RunMode::Idle,
                next_centroid_to_place: 0,
                ..*old(self)
            }),
    {
        self.converged = false;
        self.auto_run = false;
        self.run_mode = RunMode::Idle;
        self.next_centroid_to_place = 0;
    }

    /// Whether a centroid snapshot of `len` centroids is out of step with
    /// `k` and must be replaced by a fresh random one.
    pub fn needs_fresh_snapshot(&self, len: usize) -> (r: bool)
        ensures
            r == (len != self.k),
    {
        len != self.k
    }

    /// Select the dataset to (re)generate points from. The 2D/3D mode is
    /// left as it is.
    pub fn load_dataset(&mut self, choice: DatasetChoice)
        ensures
            *final(self) == (ControlState { current_dataset: choice, ..*old(self) }),
    {
        self.current_dataset = choice;
    }

    /// Set the point count for future Blobs/Moons generations, clamped to
    /// `[MIN_N_POINTS, MAX_N_POINTS]`.
    pub fn set_n_points(&mut self, value: usize)
        ensures
            *final(self) == (ControlState {
                n_points: clamp_spec(
                    value as int,
                    MIN_N_POINTS as int,
                    MAX_N_POINTS as int,
                ) as usize,
                ..*old(self)
            }),
    {
        self.n_points = if value < MIN_N_POINTS {
            MIN_N_POINTS
        } else if value > MAX_N_POINTS {
            MAX_N_POINTS
        } else {
            value
        };
    }

    /// The active mode's points were wiped: nothing runs any more. The mode
    /// itself is unchanged, so the other mode's points are untouched.
    pub fn clear_points(&mut self)
        ensures
            *final(self) == (ControlState {
                converged: false,
                auto_run: false,
                run_mode: RunMode::Idle,
                ..*old(self)
            }),
    {
        self.converged = false;
        self.auto_run = false;
        self.run_mode = RunMode::Idle;
    }

    /// Whether a step may start: not once converged, and not without points
    /// in the active mode.
    pub fn may_step(&self, active_points_empty: bool) -> (r: bool)
        ensures
            r == (!self.converged && !active_points_empty),
    {
        !self.converged && !active_points_empty
    }

    /// Whether the auto-run timer counts towards the next step this frame:
    /// auto-run on, no animation playing, and not converged.
    pub fn auto_run_ticking(&self, animating: bool) -> (r: bool)
        ensures
            r == (self.auto_run && !animating && !self.converged),
    {
        self.auto_run && !animating && !self.converged
    }

    /// Record the outcome of a step. Returns whether the converged frame is
    /// held before the loop restarts (loop mode only). On convergence the
    /// run is marked converged, and auto-run stops unless looping, where
    /// the loop keeps it firing.
    pub fn record_step_outcome(&mut self, outcome: StepOutcome) -> (hold: bool)
        ensures
            hold == (old(self).looping && outcome == StepOutcome::Converged),
            *final(self) == recorded(*old(self), outcome),
            outcome == StepOutcome::Moved ==> *final(self) == *old(self),
    {
        let hold = self.looping && outcome == StepOutcome::Converged;
        if outcome == StepOutcome::Converged {
            self.converged = true;
            if !self.looping {
                self.auto_run = false;
            }
        }
        hold
    }

    /// After a single step was started: an idle controller is now in
    /// single-step mode; any other mode stays.
    pub fn note_single_step(&mut self)
        ensures
            *final(self) == (ControlState {
                run_mode: if old(self).run_mode == RunMode::Idle {
                    RunMode::Single
                } else {
                    old(self).run_mode
                },
                ..*old(self)
            }),
    {
        if self.run_mode == RunMode::Idle {
            self.run_mode = RunMode::Single;
        }
    }

    /// "Run to convergence": finished animations chain the next step.
    pub fn run_to_convergence(&mut self)
        ensures
            *final(self) == (ControlState { run_mode: RunMode::Fast, ..*old(self) }),
    {
        self.run_mode = RunMode::Fast;
    }

    /// Switch auto-run on or off.
    pub fn toggle_auto_run(&mut self, value: bool)
        ensures
            *final(self) == (ControlState {
                auto_run: value,
                run_mode: if value {
                    RunMode::Auto
                } else {
                    RunMode::Idle
                },
                ..*old(self)
            }),
    {
        self.auto_run = value;
        self.run_mode = if value {
            RunMode::Auto
        } else {
            RunMode::Idle
        };
    }

    /// Switch loop mode. Turning it on also turns auto-run on, since a loop
    /// needs something firing steps; turning it off leaves auto-run alone.
    /// Returns whether the host must restart right away (loop turned on
    /// while already converged).
    pub fn set_looping(&mut self, value: bool) -> (restart: bool)
        ensures
            restart == (value && old(self).converged),
            *final(self) == looping_set(*old(self), value),
    {
        self.looping = value;
        if value {
            self.auto_run = true;
            self.run_mode = RunMode::Auto;
            self.converged
        } else {
            false
        }
    }

    /// Decide what follows a finished animation, given the two modes'
    /// iteration counters.
    ///
    /// In "run to convergence" mode: on convergence, restart when looping,
    /// else go idle; otherwise go idle once the counters together reach
    /// `MAX_ITERS_RUN_TO_CONVERGENCE`, else chain the next step. In single
    /// or auto mode: restart when converged and looping. Idle: nothing.
    pub fn after_animation(&mut self, iterations_2d: usize, iterations_3d: usize) -> (r:
        TickAction)
        ensures
            r == tick_action(*old(self), iterations_2d as int + iterations_3d as int),
            *final(self) == tick_state(*old(self), iterations_2d as int + iterations_3d as int),
            (r == TickAction::StartStep) == (old(self).run_mode == RunMode::Fast
                && !old(self).converged && iterations_2d + iterations_3d
                < MAX_ITERS_RUN_TO_CONVERGENCE),
            (r == TickAction::RestartForLoop) == (old(self).run_mode != RunMode::Idle
                && old(self).converged && old(self).looping),
    {
        match self.run_mode {
            RunMode::Fast => {
                if self.converged {
                    if self.looping {
                        TickAction::RestartForLoop
                    } else {
                        self.run_mode = RunMode::Idle;
                        TickAction::Nothing
                    }
                } else if iterations_2d >= MAX_ITERS_RUN_TO_CONVERGENCE || iterations_3d
                    >= MAX_ITERS_RUN_TO_CONVERGENCE - iterations_2d {
                    self.run_mode = RunMode::Idle;
                    TickAction::Nothing
                } else {
                    TickAction::StartStep
                }
            },
            RunMode::Single | RunMode::Auto => {
                if self.converged && self.looping {
                    TickAction::RestartForLoop
                } else {
                    TickAction::Nothing
                }
            },
            RunMode::Idle => TickAction::Nothing,
        }
    }

    /// Loop restart: the active centroids were re-seeded, so the run is no
    /// longer converged. Returns whether the host chains the next step
    /// immediately ("run to convergence" mode); in auto or single mode the
    /// auto-run timer paces the next step.
    pub fn restart_for_loop(&mut self) -> (chain: bool)
        ensures
            chain == (old(self).run_mode == RunMode::Fast),
            *final(self) == restarted(*old(self)),
    {
        self.converged = false;
        self.run_mode == RunMode::Fast
    }

    /// Claim the slot for a hand-placed centroid: the slot is
    /// `next_centroid_to_place % k`, and the next placement goes to the
    /// slot after it, wrapping back to 0 after `k - 1`. `None` when there
    /// are no clusters. The run is no longer converged.
    pub fn place_centroid_2d(&mut self) -> (slot: Option<usize>)
        ensures
            old(self).k == 0 ==> slot is None && *final(self) == *old(self),
            old(self).k > 0 ==> slot == Some(placement_slot(*old(self)))
                && *final(self) == placed(*old(self)),
    {
        if self.k == 0 {
            return None;
        }
        let idx = self.next_centroid_to_place % self.k;
        self.next_centroid_to_place = (idx + 1) % self.k;
        self.converged = false;
        Some(idx)
    }

    /// A point was added or deleted by hand: the run is no longer
    /// converged.
    pub fn points_edited(&mut self)
        ensures
            *final(self) == (ControlState { converged: false, ..*old(self) }),
    {
        self.converged = false;
    }

    /// Switch between 2D and 3D. Nothing keeps running across the switch.
    pub fn toggle_mode(&mut self)
        ensures
            *final(self) == (ControlState {
                mode_3d: !old(self).mode_3d,
                converged: false,
                run_mode: RunMode::Idle,
                auto_run: false,
                ..*old(self)
            }),
    {
        self.mode_3d = !self.mode_3d;
        self.converged = false;
        self.run_mode = RunMode::Idle;
        self.auto_run = false;
    }

    /// Show or hide the Voronoi cells.
    pub fn toggle_voronoi(&mut self)
        ensures
            *final(self) == (ControlState { show_voronoi: !old(self).show_voronoi, ..*old(self) }),
    {
        self.show_voronoi = !self.show_voronoi;
    }
}

/// The flags after recording a step's outcome.
pub open spec fn recorded(s: ControlState, outcome: StepOutcome) -> ControlState {
    if outcome == StepOutcome::Converged {
        ControlState { converged: true, auto_run: s.auto_run && s.looping, ..s }
    } else {
        s
    }
}

/// The flags after a loop restart.
pub open spec fn restarted(s: ControlState) -> ControlState {
    ControlState { converged: false, ..s }
}

/// The flags after switching loop mode to `value`.
pub open spec fn looping_set(s: ControlState, value: bool) -> ControlState {
    if value {
        ControlState { looping: true, auto_run: true, run_mode: RunMode::Auto, ..s }
    } else {
        ControlState { looping: false, ..s }
    }
}

/// The slot the next hand-placed centroid goes to (for `k > 0`).
pub open spec fn placement_slot(s: ControlState) -> usize {
    (s.next_centroid_to_place % s.k) as usize
}

/// The flags after a hand placement (for `k > 0`).
pub open spec fn placed(s: ControlState) -> ControlState {
    ControlState {
        next_centroid_to_place: ((placement_slot(s) + 1) % (s.k as int)) as usize,
        converged: false,
        ..s
    }
}

/// The state after `j` hand placements.
pub open spec fn placed_times(s: ControlState, j: nat) -> ControlState
    decreases j,
{
    if j == 0 {
        s
    } else {
        placed(placed_times(s, (j - 1) as nat))
    }
}

/// What follows a finished animation, given the iteration total.
pub open spec fn tick_action(s: ControlState, iterations: int) -> TickAction {
    match s.run_mode {
        RunMode::Fast => if s.converged {
            if s.looping {
                TickAction::RestartForLoop
            } else {
                TickAction::Nothing
            }
        } else if iterations >= MAX_ITERS_RUN_TO_CONVERGENCE {
            TickAction::Nothing
        } else {
            TickAction::StartStep
        },
        RunMode::Single | RunMode::Auto => if s.converged && s.looping {
            TickAction::RestartForLoop
        } else {
            TickAction::Nothing
        },
        RunMode::Idle => TickAction::Nothing,
    }
}

/// The flags after a finished animation: only "run to convergence" mode
/// can end, going idle when it converged without looping or hit the
/// iteration cap.
pub open spec fn tick_state(s: ControlState, iterations: int) -> ControlState {
    if s.run_mode == RunMode::Fast && ((s.converged && !s.looping) || (!s.converged && iterations
        >= MAX_ITERS_RUN_TO_CONVERGENCE)) {
        ControlState { run_mode: RunMode::Idle, ..s }
    } else {
        s
    }
}

/// `placed_times` never changes the number of clusters.
proof fn placed_times_keeps_k(s: ControlState, j: nat)
    ensures
        placed_times(s, j).k == s.k,
    decreases j,
{
    if j > 0 {
        placed_times_keeps_k(s, (j - 1) as nat);
    }
}

/// The slot of the `j`-th placement from state `s`.
proof fn placement_slot_formula(s: ControlState, j: nat)
    requires
        s.k > 0,
    ensures
        placement_slot(placed_times(s, j)) == (s.next_centroid_to_place + j) % (s.k as int),
    decreases j,
{
    let k = s.k as int;
    let n = s.next_centroid_to_place as int;
    placed_times_keeps_k(s, j);
    if j > 0 {
        placement_slot_formula(s, (j - 1) as nat);
        placed_times_keeps_k(s, (j - 1) as nat);
        vstd::arithmetic::div_mod::lemma_mod_bound(n + j - 1, k);
        vstd::arithmetic::div_mod::lemma_add_mod_noop_right(1, n + j - 1, k);
        vstd::arithmetic::div_mod::lemma_mod_bound(n + j, k);
        vstd::arithmetic::div_mod::lemma_small_mod(((n + j) % k) as nat, k as nat);
    }
}

/// Hand placement cycles through the centroids: starting from any state
/// with `k > 0`, the `j`-th placement claims slot `(next + j) % k`. So `k`
/// consecutive placements claim every slot once, and the slot after them
/// is the slot they started from.
pub proof fn placement_cycles(s: ControlState, j: nat)
    requires
        s.k > 0,
    ensures
        placement_slot(placed_times(s, j)) == (s.next_centroid_to_place + j) % (s.k as int),
        placement_slot(placed_times(s, s.k as nat)) == placement_slot(s),
{
    placement_slot_formula(s, j);
    placement_slot_formula(s, s.k as nat);
    vstd::arithmetic::div_mod::lemma_mod_add_multiples_vanish(
        s.next_centroid_to_place as int,
        s.k as int,
    );
}

/// In loop mode a converged step does not stop the run: the step keeps
/// auto-run on, the finished animation (in any running mode) calls for a
/// restart, and after the restart the run is live again, still looping,
/// with auto-run on.
pub proof fn loop_restarts_after_convergence(s: ControlState, iterations: int)
    requires
        s.looping,
        s.auto_run,
        s.run_mode != RunMode::Idle,
    ensures
        recorded(s, StepOutcome::Converged).converged,
        recorded(s, StepOutcome::Converged).auto_run,
        tick_action(recorded(s, StepOutcome::Converged), iterations)
            == TickAction::RestartForLoop,
        !restarted(tick_state(recorded(s, StepOutcome::Converged), iterations)).converged,
        restarted(tick_state(recorded(s, StepOutcome::Converged), iterations)).auto_run,
        restarted(tick_state(recorded(s, StepOutcome::Converged), iterations)).looping,
{
}

/// Only "run to convergence" chains steps: after a finished animation the
/// host is told to start another step exactly when the run is in fast
/// mode, not converged, and the iteration counters are below the cap,
/// whether or not loop mode is on.
pub proof fn only_fast_mode_chains_steps(s: ControlState, iterations: int)
    ensures
        (tick_action(s, iterations) == TickAction::StartStep) == (s.run_mode == RunMode::Fast
            && !s.converged && iterations < MAX_ITERS_RUN_TO_CONVERGENCE),
{
}

/// A loop restart is asked for exactly when a running (not idle) run has
/// converged in loop mode; an unconverged run is never re-seeded.
pub proof fn restart_only_after_converged_loop(s: ControlState, iterations: int)
    ensures
        (tick_action(s, iterations) == TickAction::RestartForLoop) == (s.run_mode
            != RunMode::Idle && s.converged && s.looping),
{
}

/// A single step or an auto-run tick runs one iteration: after its
/// animation the host does nothing more, unless the run converged in loop
/// mode, which restarts it; the flags stay as they were.
pub proof fn single_and_auto_steps_run_once(s: ControlState, iterations: int)
    requires
        s.run_mode == RunMode::Single || s.run_mode == RunMode::Auto,
    ensures
        tick_action(s, iterations) != TickAction::StartStep,
        !(s.converged && s.looping) ==> tick_action(s, iterations) == TickAction::Nothing,
        tick_state(s, iterations) == s,
{
}

/// A step that moved the centroids changes no flag: recording it leaves
/// the state as it was, so a "run to convergence" below the iteration cap
/// goes on with the next step, and the run mode stays.
pub proof fn moved_step_keeps_running(s: ControlState, iterations: int)
    ensures
        recorded(s, StepOutcome::Moved) == s,
        s.run_mode == RunMode::Fast && !s.converged && iterations < MAX_ITERS_RUN_TO_CONVERGENCE
            ==> tick_action(recorded(s, StepOutcome::Moved), iterations) == TickAction::StartStep
            && tick_state(recorded(s, StepOutcome::Moved), iterations).run_mode == RunMode::Fast,
{
}

/// Without loop mode, convergence stops auto-run and the finished
/// animation starts nothing more.
pub proof fn convergence_without_loop_stops(s: ControlState, iterations: int)
    requires
        !s.looping,
    ensures
        recorded(s, StepOutcome::Converged).converged,
        !recorded(s, StepOutcome::Converged).auto_run,
        tick_action(recorded(s, StepOutcome::Converged), iterations) == TickAction::Nothing,
{
}

/// Turning loop mode on turns auto-run on; turning it off again leaves
/// auto-run running.
pub proof fn looping_off_keeps_auto_run(s: ControlState)
    ensures
        looping_set(s, true).auto_run,
        looping_set(looping_set(s, true), false).auto_run,
        !looping_set(looping_set(s, true), false).looping,
{
}

} // verus!
