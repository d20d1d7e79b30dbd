use vstd::prelude::*;

use crate::ui::state::GameTicks;

verus! {

/// Whether the lattice is being advanced.
#[derive(Debug, Clone, Copy, PartialEq, Eq, Structural)]
pub enum RunState {
    Idle,
    Running,
}

/// What the caller has to do on one fixed-timestep callback.
#[derive(Debug, Clone, Copy, PartialEq, Eq, Structural)]
pub enum TickPlan {
    /// The simulation is paused: nothing is to be done.
    Rest,
    /// Advance the lattice by one tick. Before that, bring the lattice back
    /// to rest and empty the microphones if `reset_cells` is set, and rebuild
    /// the obstacle map if `rebuild_walls` is set.
    Step { reset_cells: bool, rebuild_walls: bool },
}

/// Decides, callback by callback, whether the lattice is advanced and what
/// has to be renewed before. The lattice itself is advanced by the caller.
#[derive(Debug, Clone, Copy, PartialEq, Eq, Structural)]
pub struct Simulation {
    pub state: RunState,
    pub ticks: GameTicks,
    /// Wall geometry has changed since the obstacle map was built.
    pub walls_changed: bool,
    /// A reset was asked for since the last tick.
    pub reset_pending: bool,
}

/// Whether a reset that was asked for is carried out: always if it is
/// forced, else only while the editor resets on every change.
pub open spec fn reset_applies(force: bool, reset_on_change: bool) -> bool {
    force || reset_on_change
}

impl Simulation {
    /// The plan for the next callback, and the state after it.
    pub open spec fn planned(&self) -> (TickPlan, Simulation) {
        if self.state == RunState::Running {
            (
                TickPlan::Step {
                    reset_cells: self.reset_pending,
                    rebuild_walls: self.walls_changed,
                },
                Simulation {
                    state: RunState::Running,
                    ticks: GameTicks {
                        ticks_since_start: if self.reset_pending {
                            1
                        } else if self.ticks.ticks_since_start == u64::MAX {
                            u64::MAX
                        } else {
                            (self.ticks.ticks_since_start + 1) as u64
                        },
                    },
                    walls_changed: false,
                    reset_pending: false,
                },
            )
        } else {
            (TickPlan::Rest, *self)
        }
    }

    /// A paused simulation at tick zero whose obstacle map is still to be
    /// built.
    pub fn new() -> (simulation: Simulation)
        ensures
            simulation == (Simulation {
                state: RunState::Idle,
                ticks: GameTicks { ticks_since_start: 0 },
                walls_changed: true,
                reset_pending: false,
            }),
    {
        Simulation {
            state: RunState::Idle,
            ticks: GameTicks { ticks_since_start: 0 },
            walls_changed: true,
            reset_pending: false,
        }
    }

    /// Whether the lattice is being advanced.
    pub fn is_running(&self) -> (running: bool)
        ensures
            running == (self.state == RunState::Running),
    {
        self.state == RunState::Running
    }

    /// The run/pause signal: a paused simulation runs, a running one pauses.
    pub fn toggle(&mut self)
        ensures
            *final(self) == (Simulation {
                state: if old(self).state == RunState::Running {
                    RunState::Idle
                } else {
                    RunState::Running
                },
                ..*old(self)
            }),
    {
        self.state = if self.state == RunState::Running {
            RunState::Idle
        } else {
            RunState::Running
        };
    }

    /// Notes that wall geometry was added, removed, resized, moved or
    /// toggled between hollow and filled.
    pub fn walls_updated(&mut self)
        ensures
            *final(self) == (Simulation { walls_changed: true, ..*old(self) }),
    {
        self.walls_changed = true;
    }

    /// Notes that the width of the absorbing ring was changed: the lattice
    /// has another size now, so it starts again from rest with a new
    /// obstacle map.
    pub fn boundary_width_changed(&mut self)
        ensures
            *final(self) == (Simulation {
                walls_changed: true,
                reset_pending: true,
                ..*old(self)
            }),
    {
        self.walls_changed = true;
        self.reset_pending = true;
    }

    /// Asks for a reset. One that is not forced counts only while the editor
    /// resets on every change.
    pub fn request_reset(&mut self, force: bool, reset_on_change: bool)
        ensures
            *final(self) == (Simulation {
                reset_pending: old(self).reset_pending || reset_applies(force, reset_on_change),
                ..*old(self)
            }),
    {
        if force || reset_on_change {
            self.reset_pending = true;
        }
    }

    /// One fixed-timestep callback. While paused nothing happens. While
    /// running exactly one tick is planned, whatever time has passed since
    /// the last callback, and the tick counter goes up by one; after a reset
    /// it starts again from zero. The counter stops at its largest value.
    pub fn on_fixed_timestep(&mut self) -> (plan: TickPlan)
        ensures
            plan == old(self).planned().0,
            *final(self) == old(self).planned().1,
    {
        if self.state == RunState::Running {
            let plan = TickPlan::Step {
                reset_cells: self.reset_pending,
                rebuild_walls: self.walls_changed,
            };
            let before: u64 = if self.reset_pending { 0 } else { self.ticks.ticks_since_start };
            self.ticks.ticks_since_start = if before == u64::MAX { u64::MAX } else { before + 1 };
            self.walls_changed = false;
            self.reset_pending = false;
            plan
        } else {
            TickPlan::Rest
        }
    }
}

} // verus!
