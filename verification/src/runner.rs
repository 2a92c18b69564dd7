//! What a host decides between two ticks.
//!
//! A host runs the simulation on a thread of its own, on a timer or as fast
//! as it can, and hands commands to it. The runner holds the simulation and
//! makes every decision of that loop; the host reads the clock, sleeps, and
//! passes commands and snapshots along. A command takes effect between two
//! ticks, never inside one.

use vstd::prelude::*;
use crate::bot::{Bot, Mutation};
use crate::config::Config;
use crate::grid::{put, Grid};
use crate::simulation::{Simulation, World};

verus! {

/// A command from the host to the runner.
#[derive(Clone, Copy, Debug)]
pub enum Cmd {
    /// Pause a running simulation, or resume a paused one.
    TogglePause,
    /// Start over with a freshly generated grid.
    Reset,
    /// Overwrite the cell at a coordinate with the given bot.
    SetCell(usize, usize, Bot),
    /// Select the cell at a coordinate.
    SelectCell(usize, usize),
    /// Run at the given number of ticks per second, or as fast as possible.
    SetTargetTps(Option<usize>),
    /// Replace the parameters.
    UpdateConfig(Config),
}

/// What the host does after a call of [`SimulationRunner::advance`].
#[derive(Clone, Copy, Debug, PartialEq, Eq, Structural)]
pub enum Step {
    /// A tick was made: measure the rate, then go on.
    Ticked,
    /// No tick was made: rest for [`IDLE_MILLIS`] before asking again.
    Idle,
}

/// How long the host rests when there is nothing to do, in milliseconds.
pub const IDLE_MILLIS: u64 = 10;

/// How long the rate of ticks is measured before it is reported, in
/// milliseconds.
pub const TPS_WINDOW_MILLIS: u64 = 1000;

/// A snapshot of a simulation for the host to show.
pub struct SimulationMetadata {
    pub iterations: usize,
    pub tps: usize,
    pub paused: bool,
    pub map: Grid<Bot>,
    pub selected_bot: Option<Bot>,
    pub config: Config,
}

impl Clone for SimulationMetadata {
    fn clone(&self) -> (r: Self)
        ensures
            r.iterations == self.iterations,
            r.tps == self.tps,
            r.paused == self.paused,
            r.map@ == self.map@,
            r.selected_bot == self.selected_bot,
            r.config == self.config,
    {
        SimulationMetadata {
            iterations: self.iterations,
            tps: self.tps,
            paused: self.paused,
            map: self.map.clone(),
            selected_bot: self.selected_bot,
            config: self.config,
        }
    }
}

/// The simulation together with the state of the loop that runs it.
pub struct SimulationRunner {
    paused: bool,
    tps: usize,
    previous_iterations: usize,
    target_tps: Option<usize>,
    simulation: Simulation,
}

/// A runner as a mathematical value.
pub struct RunnerView {
    /// Whether the simulation stands still.
    pub paused: bool,
    /// Ticks counted in the last full window of measurement.
    pub tps: nat,
    /// Ticks completed when the present window began.
    pub previous_iterations: nat,
    /// The rate the host is to keep, in ticks per second.
    pub target_tps: Option<usize>,
    /// The simulation.
    pub world: World,
}

impl RunnerView {
    /// The runner after a command.
    ///
    /// A cell that the simulation cannot accept, a rate of zero and
    /// parameters that are not valid or describe a grid of another size are
    /// refused: such a command changes nothing. For `Reset`, `cells` is the
    /// freshly generated grid.
    pub open spec fn handled(self, command: Cmd, cells: Seq<Seq<Bot>>) -> RunnerView {
        match command {
            Cmd::TogglePause => RunnerView { paused: !self.paused, ..self },
            Cmd::Reset => RunnerView {
                tps: 0,
                previous_iterations: 0,
                world: World { iterations: 0, cells, ..self.world },
                ..self
            },
            Cmd::SetCell(x, y, bot) => if self.world.contains(x as int, y as int) && bot.wf() {
                RunnerView {
                    world: World {
                        cells: put(self.world.cells, x as int, y as int, Bot { x, y, ..bot }),
                        ..self.world
                    },
                    ..self
                }
            } else {
                self
            },
            Cmd::SelectCell(x, y) => RunnerView {
                world: World {
                    selected_coordinates: Some((x, y)),
                    selected_bot: if self.world.contains(x as int, y as int) {
                        Some(self.world.cells[x as int][y as int])
                    } else {
                        self.world.selected_bot
                    },
                    ..self.world
                },
                ..self
            },
            Cmd::SetTargetTps(target) => if target == Some(0usize) {
                self
            } else {
                RunnerView { target_tps: target, ..self }
            },
            Cmd::UpdateConfig(config) => if config.valid() && config.width
                == self.world.config.width && config.height == self.world.config.height {
                RunnerView { world: World { config, ..self.world }, ..self }
            } else {
                self
            },
        }
    }

    /// The time to rest after a tick that took `elapsed_micros`, in
    /// microseconds: what is left of the time that the target rate allows
    /// for one tick, and nothing without a target.
    pub open spec fn rest(self, elapsed_micros: u64) -> int {
        match self.target_tps {
            Some(target) if target > 0 => {
                let allowed = 1_000_000int / (target as int);
                if allowed > elapsed_micros {
                    allowed - elapsed_micros
                } else {
                    0
                }
            },
            _ => 0,
        }
    }
}

impl View for SimulationRunner {
    type V = RunnerView;

    closed spec fn view(&self) -> RunnerView {
        RunnerView {
            paused: self.paused,
            tps: self.tps as nat,
            previous_iterations: self.previous_iterations as nat,
            target_tps: self.target_tps,
            world: self.simulation@,
        }
    }
}

impl SimulationRunner {
    /// The simulation is well-formed, the window of measurement began no
    /// later than now, and the target rate is not zero.
    pub closed spec fn wf(&self) -> bool {
        &&& self.simulation.wf()
        &&& self.previous_iterations <= self.simulation@.iterations
        &&& self.target_tps != Some(0usize)
    }

    /// What well-formedness says of the runner as a value.
    pub proof fn lemma_wf(&self)
        requires
            self.wf(),
        ensures
            self@.world.wf(),
            self@.previous_iterations <= self@.world.iterations,
            self@.target_tps != Some(0usize),
    {
        self.simulation.lemma_wf();
    }

    /// A paused runner for `simulation`, without a target rate.
    pub fn new(simulation: Simulation) -> (r: Self)
        requires
            simulation.wf(),
        ensures
            r.wf(),
            r@ == (RunnerView {
                paused: true,
                tps: 0,
                previous_iterations: 0,
                target_tps: None,
                world: simulation@,
            }),
    {
        SimulationRunner {
            paused: true,
            tps: 0,
            previous_iterations: 0,
            target_tps: None,
            simulation,
        }
    }

    /// The simulation.
    pub fn simulation(&self) -> (r: &Simulation)
        ensures
            r@ == self@.world,
            self.wf() ==> r.wf(),
    {
        &self.simulation
    }

    /// Whether the simulation stands still.
    pub fn is_paused(&self) -> (r: bool)
        ensures
            r == self@.paused,
    {
        self.paused
    }

    /// Ticks counted in the last full window of measurement.
    pub fn tps(&self) -> (r: usize)
        ensures
            r == self@.tps,
    {
        self.tps
    }

    /// The rate the host is to keep, in ticks per second.
    pub fn target_tps(&self) -> (r: Option<usize>)
        ensures
            r == self@.target_tps,
    {
        self.target_tps
    }

    /// Carries out a command of the host. Says whether the command began a
    /// new window of measurement, so that the host restarts its clock.
    pub fn handle_command(&mut self, command: Cmd) -> (restart: bool)
        requires
            old(self).wf(),
        ensures
            final(self).wf(),
            restart == (command is Reset),
            final(self)@ == old(self)@.handled(command, final(self)@.world.cells),
            command is Reset ==> forall|x: int, y: int|
                final(self)@.world.contains(x, y) ==> final(self)@.world.generated(
                    #[trigger] final(self)@.world.cells[x][y],
                    x,
                    y,
                ),
    {
        match command {
            Cmd::TogglePause => {
                self.paused = !self.paused;
                false
            },
            Cmd::Reset => {
                self.simulation.reset();
                self.previous_iterations = 0;
                self.tps = 0;
                true
            },
            Cmd::SetCell(x, y, bot) => {
                if self.simulation.accepts(x, y, &bot) {
                    self.simulation.set_cell(x, y, bot);
                }
                false
            },
            Cmd::SelectCell(x, y) => {
                let _ = self.simulation.select_bot(x, y);
                false
            },
            Cmd::SetTargetTps(target) => {
                match target {
                    Some(0) => {},
                    _ => {
                        self.target_tps = target;
                    },
                }
                false
            },
            Cmd::UpdateConfig(config) => {
                let _ = self.simulation.update_config(config);
                false
            },
        }
    }

    /// Makes one tick, unless the runner is paused or the count of ticks
    /// has reached the end of its range.
    pub fn advance(&mut self) -> (step: Step)
        requires
            old(self).wf(),
        ensures
            final(self).wf(),
            step == Step::Idle <==> old(self)@.paused || old(self)@.world.iterations
                == usize::MAX,
            step == Step::Idle ==> final(self)@ == old(self)@,
            step == Step::Ticked ==> exists|draws: Seq<Option<Mutation>>|
                old(self)@.world.tick_draws(draws) && final(self)@ == (RunnerView {
                    world: old(self)@.world.ticked(draws),
                    ..old(self)@
                }),
    {
        if self.paused || self.simulation.iterations() == usize::MAX {
            Step::Idle
        } else {
            proof {
                self.simulation.lemma_wf();
            }
            self.simulation.update();
            Step::Ticked
        }
    }

    /// Closes the window of measurement if it has been open for more than a
    /// second: the ticks made in it become the reported rate, and a new
    /// window begins. Says whether it did, so that the host restarts its
    /// clock.
    pub fn measure_tps(&mut self, elapsed_millis: u64) -> (restart: bool)
        requires
            old(self).wf(),
        ensures
            final(self).wf(),
            restart == (elapsed_millis > TPS_WINDOW_MILLIS),
            restart ==> final(self)@ == (RunnerView {
                tps: (old(self)@.world.iterations - old(self)@.previous_iterations) as nat,
                previous_iterations: old(self)@.world.iterations,
                ..old(self)@
            }),
            !restart ==> final(self)@ == old(self)@,
    {
        if elapsed_millis > TPS_WINDOW_MILLIS {
            self.tps = self.simulation.iterations() - self.previous_iterations;
            self.previous_iterations = self.simulation.iterations();
            true
        } else {
            false
        }
    }

    /// The time to rest after a tick that took `elapsed_micros`, in
    /// microseconds, so as not to run faster than the target rate.
    pub fn rest_micros(&self, elapsed_micros: u64) -> (r: u64)
        requires
            self.wf(),
        ensures
            r == self@.rest(elapsed_micros),
    {
        match self.target_tps {
            Some(target) => {
                if target == 0 {
                    0
                } else {
                    let allowed: u64 = 1_000_000 / (target as u64);
                    if allowed > elapsed_micros {
                        allowed - elapsed_micros
                    } else {
                        0
                    }
                }
            },
            None => 0,
        }
    }

    /// A snapshot of the simulation and of the state of the loop.
    pub fn construct_metadata(&self) -> (r: SimulationMetadata)
        ensures
            r.iterations == self@.world.iterations,
            r.tps == self@.tps,
            r.paused == self@.paused,
            r.map@ == self@.world.cells,
            r.selected_bot == self@.world.selected_bot,
            r.config == self@.world.config,
    {
        SimulationMetadata {
            iterations: self.simulation.iterations(),
            tps: self.tps,
            paused: self.paused,
            map: self.simulation.map().clone(),
            selected_bot: self.simulation.selected_bot(),
            config: *self.simulation.configuration(),
        }
    }
}

} // verus!
