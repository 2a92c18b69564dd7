//! The tunable constants of a simulation.

use vstd::prelude::*;
use crate::energy::{plus, saturate, Energy, UNITS_PER_POINT};

verus! {

/// Number of genes in every genome.
pub const GENOME_LENGTH: u8 = 32;

/// Number of genes in every genome, as the length of an array.
pub const GENOME_SIZE: usize = 32;

/// The parameters that the rules of the simulation read. A configuration is
/// plain data: every operation that needs one takes it as an argument.
#[derive(Clone, Copy, Debug, PartialEq, Eq, Structural)]
pub struct Config {
    /// Number of columns of the grid.
    pub width: usize,
    /// Number of rows of the grid.
    pub height: usize,
    /// Edge of a drawn cell, in pixels. No rule reads it.
    pub cell_size: usize,
    /// Chance, in percent, that a child has one gene changed.
    pub mutation_percent: u32,
    /// Energy that a new bot starts with.
    pub start_energy: Energy,
    /// Energy that reproduction asks for and costs.
    pub reproduction_required_energy: Energy,
    /// Age beyond which a bot dies.
    pub cell_max_age: u32,
    /// Energy gained by one photosynthesis.
    pub photosynthesis_energy: Energy,
    /// Most energy that one attack takes from its victim.
    pub attack_energy: Energy,
    /// Energy paid for a step forwards.
    pub movement_cost: Energy,
    /// Energy paid on every executed instruction.
    pub noop_cost: Energy,
}

impl Config {
    /// What every rule of the simulation relies on: the grid has at least one
    /// cell, the mutation chance is a percentage, and the reproduction
    /// threshold is positive, so that gene energies can be drawn below twice
    /// its value.
    pub open spec fn valid(&self) -> bool {
        &&& self.width >= 1
        &&& self.height >= 1
        &&& self.mutation_percent <= 100
        &&& self.reproduction_required_energy >= 1
    }

    /// Cost of a turn: half the movement cost, rounded towards zero.
    pub open spec fn spec_turn_cost(&self) -> int {
        let half = self.movement_cost as int / 2;
        if self.movement_cost < 0 && self.movement_cost as int % 2 != 0 {
            half + 1
        } else {
            half
        }
    }

    /// Energy needed for an attack, and paid for it: twice the movement cost.
    pub open spec fn spec_attack_required_energy(&self) -> int {
        saturate(2 * self.movement_cost)
    }

    /// Upper end, exclusive, of the energies that a new gene can carry: twice
    /// the reproduction threshold.
    pub open spec fn spec_gene_energy_limit(&self) -> int {
        saturate(2 * self.reproduction_required_energy)
    }

    /// A field of 160 by 90 cells with the customary costs.
    pub open spec fn spec_default() -> Config {
        Config {
            width: 160,
            height: 90,
            cell_size: 8,
            mutation_percent: 25,
            start_energy: 5000,
            reproduction_required_energy: 16000,
            cell_max_age: 2048,
            photosynthesis_energy: 1000,
            attack_energy: 5000,
            movement_cost: 1000,
            noop_cost: 100,
        }
    }

    /// Whether the configuration is [`valid`](Config::valid).
    pub fn is_valid(&self) -> (r: bool)
        ensures
            r == self.valid(),
    {
        self.width >= 1 && self.height >= 1 && self.mutation_percent <= 100
            && self.reproduction_required_energy >= 1
    }

    /// Cost of turning left or right: half the movement cost, rounded
    /// towards zero.
    pub fn turn_cost(&self) -> (r: Energy)
        ensures
            r == self.spec_turn_cost(),
            0 <= self.movement_cost ==> r == self.movement_cost / 2,
    {
        self.movement_cost / 2
    }

    /// Energy a bot needs to attack, which the attack then costs: twice the
    /// movement cost.
    pub fn attack_required_energy(&self) -> (r: Energy)
        ensures
            r == self.spec_attack_required_energy(),
    {
        plus(self.movement_cost, self.movement_cost)
    }

    /// Upper end, exclusive, of the energies that a new gene can carry.
    pub fn gene_energy_limit(&self) -> (r: Energy)
        ensures
            r == self.spec_gene_energy_limit(),
    {
        plus(self.reproduction_required_energy, self.reproduction_required_energy)
    }
}

impl Default for Config {
    /// A field of 160 by 90 cells with the customary costs.
    fn default() -> (r: Self)
        ensures
            r == Config::spec_default(),
            r.valid(),
    {
        Config {
            width: 160,
            height: 90,
            cell_size: 8,
            mutation_percent: 25,
            start_energy: 5 * UNITS_PER_POINT,
            reproduction_required_energy: 16 * UNITS_PER_POINT,
            cell_max_age: 2048,
            photosynthesis_energy: UNITS_PER_POINT,
            attack_energy: 5 * UNITS_PER_POINT,
            movement_cost: UNITS_PER_POINT,
            noop_cost: UNITS_PER_POINT / 10,
        }
    }
}

} // verus!
