//! Instructions and the genes that carry them.

use vstd::prelude::*;
use crate::config::{Config, GENOME_LENGTH};
use crate::energy::Energy;
use crate::random::{coin, uniform};

verus! {

/// Number of different instructions.
pub const INSTRUCTION_COUNT: u8 = 18;

/// What a bot can do in one tick.
#[derive(Clone, Copy, Debug, PartialEq, Eq, Structural)]
pub enum Instruction {
    /// Does nothing.
    Noop,
    /// Turns the bot a quarter turn to the left.
    TurnLeft,
    /// Turns the bot a quarter turn to the right.
    TurnRight,
    /// Moves the bot into the cell it faces, if that cell is empty.
    MoveForwards,
    /// Gains energy from light.
    Photosynthesis,
    /// Gives the gene's energy, as far as the bot has it, to the living bot
    /// it faces.
    GiveEnergy,
    /// Takes energy from the living bot it faces.
    AttackCell,
    /// Takes up the remains of the dead bot it faces.
    RecycleDeadCell,
    /// Branches on whether the bot has more energy than the gene's.
    CheckEnergy,
    /// Branches on whether the bot faces left.
    CheckIfDirectedLeft,
    /// Branches on whether the bot faces right.
    CheckIfDirectedRight,
    /// Branches on whether the bot faces up.
    CheckIfDirectedUp,
    /// Branches on whether the bot faces down.
    CheckIfDirectedDown,
    /// Branches on whether the faced cell holds a living bot.
    CheckIfFacingAliveCell,
    /// Branches on whether the faced cell holds a dead bot.
    CheckIfFacingDeadCell,
    /// Branches on whether the faced cell is empty.
    CheckIfFacingVoid,
    /// Branches on whether the faced cell holds a living bot that runs the
    /// same instructions, gene by gene.
    CheckIfFacingRelative,
    /// Places a child in the faced cell and branches on whether it did.
    MakeChild,
}

impl Instruction {
    /// The instruction that a draw of `index` stands for, in the order of
    /// declaration. Indices past the last instruction stand for the last.
    pub open spec fn spec_from_index(index: u8) -> Instruction {
        match index {
            0 => Instruction::Noop,
            1 => Instruction::TurnLeft,
            2 => Instruction::TurnRight,
            3 => Instruction::MoveForwards,
            4 => Instruction::Photosynthesis,
            5 => Instruction::GiveEnergy,
            6 => Instruction::AttackCell,
            7 => Instruction::RecycleDeadCell,
            8 => Instruction::CheckEnergy,
            9 => Instruction::CheckIfDirectedLeft,
            10 => Instruction::CheckIfDirectedRight,
            11 => Instruction::CheckIfDirectedUp,
            12 => Instruction::CheckIfDirectedDown,
            13 => Instruction::CheckIfFacingAliveCell,
            14 => Instruction::CheckIfFacingDeadCell,
            15 => Instruction::CheckIfFacingVoid,
            16 => Instruction::CheckIfFacingRelative,
            _ => Instruction::MakeChild,
        }
    }

    /// Position of the instruction in the order of declaration.
    pub open spec fn spec_index(self) -> u8 {
        match self {
            Instruction::Noop => 0,
            Instruction::TurnLeft => 1,
            Instruction::TurnRight => 2,
            Instruction::MoveForwards => 3,
            Instruction::Photosynthesis => 4,
            Instruction::GiveEnergy => 5,
            Instruction::AttackCell => 6,
            Instruction::RecycleDeadCell => 7,
            Instruction::CheckEnergy => 8,
            Instruction::CheckIfDirectedLeft => 9,
            Instruction::CheckIfDirectedRight => 10,
            Instruction::CheckIfDirectedUp => 11,
            Instruction::CheckIfDirectedDown => 12,
            Instruction::CheckIfFacingAliveCell => 13,
            Instruction::CheckIfFacingDeadCell => 14,
            Instruction::CheckIfFacingVoid => 15,
            Instruction::CheckIfFacingRelative => 16,
            Instruction::MakeChild => 17,
        }
    }

    /// Whether the instruction chooses the next gene itself, by one of the
    /// gene's two branch targets.
    pub open spec fn branches(self) -> bool {
        self.spec_index() >= 8
    }

    /// The instruction that a draw of `index` stands for.
    pub fn from_index(index: u8) -> (r: Instruction)
        ensures
            r == Instruction::spec_from_index(index),
            index < INSTRUCTION_COUNT ==> r.spec_index() == index,
    {
        match index {
            0 => Instruction::Noop,
            1 => Instruction::TurnLeft,
            2 => Instruction::TurnRight,
            3 => Instruction::MoveForwards,
            4 => Instruction::Photosynthesis,
            5 => Instruction::GiveEnergy,
            6 => Instruction::AttackCell,
            7 => Instruction::RecycleDeadCell,
            8 => Instruction::CheckEnergy,
            9 => Instruction::CheckIfDirectedLeft,
            10 => Instruction::CheckIfDirectedRight,
            11 => Instruction::CheckIfDirectedUp,
            12 => Instruction::CheckIfDirectedDown,
            13 => Instruction::CheckIfFacingAliveCell,
            14 => Instruction::CheckIfFacingDeadCell,
            15 => Instruction::CheckIfFacingVoid,
            16 => Instruction::CheckIfFacingRelative,
            _ => Instruction::MakeChild,
        }
    }

    /// Position of the instruction in the order of declaration.
    pub fn index(&self) -> (r: u8)
        ensures
            r == self.spec_index(),
            r < INSTRUCTION_COUNT,
            Instruction::spec_from_index(r) == *self,
    {
        match self {
            Instruction::Noop => 0,
            Instruction::TurnLeft => 1,
            Instruction::TurnRight => 2,
            Instruction::MoveForwards => 3,
            Instruction::Photosynthesis => 4,
            Instruction::GiveEnergy => 5,
            Instruction::AttackCell => 6,
            Instruction::RecycleDeadCell => 7,
            Instruction::CheckEnergy => 8,
            Instruction::CheckIfDirectedLeft => 9,
            Instruction::CheckIfDirectedRight => 10,
            Instruction::CheckIfDirectedUp => 11,
            Instruction::CheckIfDirectedDown => 12,
            Instruction::CheckIfFacingAliveCell => 13,
            Instruction::CheckIfFacingDeadCell => 14,
            Instruction::CheckIfFacingVoid => 15,
            Instruction::CheckIfFacingRelative => 16,
            Instruction::MakeChild => 17,
        }
    }

    /// An instruction chosen at random, each with the same chance.
    pub fn new_random() -> (r: Instruction) {
        Instruction::from_index(uniform(0, INSTRUCTION_COUNT as i64) as u8)
    }
}

impl Default for Instruction {
    /// The instruction that does nothing.
    fn default() -> (r: Self)
        ensures
            r == Instruction::Noop,
    {
        Instruction::Noop
    }
}

/// One slot of a genome: an instruction and what it works with.
#[derive(Clone, Copy, Debug, PartialEq, Eq, Structural)]
pub struct Gene {
    /// What the gene does.
    pub instruction: Instruction,
    /// A switch. No instruction reads it yet; it is inherited and mutated
    /// like the other fields.
    pub option: bool,
    /// An amount of energy: what to give, or what to compare with.
    pub energy: Energy,
    /// Where a branching instruction goes on when its test holds.
    pub branch: u8,
    /// Where a branching instruction goes on when its test fails.
    pub branch_alt: u8,
}

/// The fields of a gene.
#[derive(Clone, Copy, Debug, PartialEq, Eq, Structural)]
pub enum GeneField {
    Instruction,
    Option,
    Energy,
    Branch,
    BranchAlt,
}

/// Number of fields of a gene.
pub const FIELD_COUNT: u8 = 5;

impl GeneField {
    /// The field that a draw of `index` stands for, in the order of
    /// declaration. Indices past the last field stand for the last.
    pub open spec fn spec_from_index(index: u8) -> GeneField {
        match index {
            0 => GeneField::Instruction,
            1 => GeneField::Option,
            2 => GeneField::Energy,
            3 => GeneField::Branch,
            _ => GeneField::BranchAlt,
        }
    }

    /// The field that a draw of `index` stands for.
    pub fn from_index(index: u8) -> (r: GeneField)
        ensures
            r == GeneField::spec_from_index(index),
    {
        match index {
            0 => GeneField::Instruction,
            1 => GeneField::Option,
            2 => GeneField::Energy,
            3 => GeneField::Branch,
            _ => GeneField::BranchAlt,
        }
    }
}

/// A new value for one field of a gene.
#[derive(Clone, Copy, Debug, PartialEq, Eq, Structural)]
pub enum GeneChange {
    Instruction(Instruction),
    Option(bool),
    Energy(Energy),
    Branch(u8),
    BranchAlt(u8),
}

impl GeneChange {
    /// Whether the new value is one that a fresh gene could hold under
    /// `config`: an energy from zero up to, but not including, twice the
    /// reproduction threshold; a branch target inside the genome.
    pub open spec fn fresh(self, config: &Config) -> bool {
        match self {
            GeneChange::Instruction(_) => true,
            GeneChange::Option(_) => true,
            GeneChange::Energy(e) => 0 <= e < config.spec_gene_energy_limit(),
            GeneChange::Branch(b) => b < GENOME_LENGTH,
            GeneChange::BranchAlt(b) => b < GENOME_LENGTH,
        }
    }

    /// The field that the change gives a new value.
    pub open spec fn field(self) -> GeneField {
        match self {
            GeneChange::Instruction(_) => GeneField::Instruction,
            GeneChange::Option(_) => GeneField::Option,
            GeneChange::Energy(_) => GeneField::Energy,
            GeneChange::Branch(_) => GeneField::Branch,
            GeneChange::BranchAlt(_) => GeneField::BranchAlt,
        }
    }

    /// A change of the given field to a value drawn as for a fresh gene.
    pub fn new_random_of(field: GeneField, config: &Config) -> (r: GeneChange)
        requires
            config.valid(),
        ensures
            r.field() == field,
            r.fresh(config),
    {
        match field {
            GeneField::Instruction => GeneChange::Instruction(Instruction::new_random()),
            GeneField::Option => GeneChange::Option(coin()),
            GeneField::Energy => GeneChange::Energy(uniform(0, config.gene_energy_limit())),
            GeneField::Branch => GeneChange::Branch(uniform(0, GENOME_LENGTH as i64) as u8),
            GeneField::BranchAlt => GeneChange::BranchAlt(uniform(0, GENOME_LENGTH as i64) as u8),
        }
    }

    /// A change of one field, chosen at random among the five, to a value
    /// drawn as for a fresh gene.
    pub fn new_random(config: &Config) -> (r: GeneChange)
        requires
            config.valid(),
        ensures
            r.fresh(config),
    {
        let field = GeneField::from_index(uniform(0, FIELD_COUNT as i64) as u8);
        GeneChange::new_random_of(field, config)
    }
}

impl Gene {
    /// The gene of an empty cell: it does nothing and holds zeros.
    pub open spec fn spec_default() -> Gene {
        Gene { instruction: Instruction::Noop, option: false, energy: 0, branch: 0, branch_alt: 0 }
    }

    /// Whether the gene is one that random generation under `config` can
    /// yield.
    pub open spec fn fresh(self, config: &Config) -> bool {
        &&& 0 <= self.energy < config.spec_gene_energy_limit()
        &&& self.branch < GENOME_LENGTH
        &&& self.branch_alt < GENOME_LENGTH
    }

    /// The gene with one field replaced.
    pub open spec fn spec_changed(self, change: GeneChange) -> Gene {
        match change {
            GeneChange::Instruction(i) => Gene { instruction: i, ..self },
            GeneChange::Option(o) => Gene { option: o, ..self },
            GeneChange::Energy(e) => Gene { energy: e, ..self },
            GeneChange::Branch(b) => Gene { branch: b, ..self },
            GeneChange::BranchAlt(b) => Gene { branch_alt: b, ..self },
        }
    }

    /// Creates a randomly generated gene.
    pub fn new_random(config: &Config) -> (r: Gene)
        requires
            config.valid(),
        ensures
            r.fresh(config),
    {
        let instruction = Instruction::new_random();
        let option = coin();
        let energy = uniform(0, config.gene_energy_limit());
        let branch = uniform(0, GENOME_LENGTH as i64) as u8;
        let branch_alt = uniform(0, GENOME_LENGTH as i64) as u8;
        Gene { instruction, option, energy, branch, branch_alt }
    }

    /// Replaces one field of the gene.
    pub fn change(&mut self, change: GeneChange)
        ensures
            *final(self) == old(self).spec_changed(change),
    {
        match change {
            GeneChange::Instruction(i) => {
                self.instruction = i;
            },
            GeneChange::Option(o) => {
                self.option = o;
            },
            GeneChange::Energy(e) => {
                self.energy = e;
            },
            GeneChange::Branch(b) => {
                self.branch = b;
            },
            GeneChange::BranchAlt(b) => {
                self.branch_alt = b;
            },
        }
    }

    /// Replaces one randomly chosen field of the gene by a value drawn as
    /// for a fresh gene.
    pub fn mutate(&mut self, config: &Config)
        requires
            config.valid(),
        ensures
            exists|change: GeneChange|
                change.fresh(config) && *final(self) == old(self).spec_changed(change),
    {
        let change = GeneChange::new_random(config);
        self.change(change);
        assert(change.fresh(config) && *self == old(self).spec_changed(change));
    }
}

/// A change replaces the field it names and leaves the other four as they
/// are; a fresh change keeps a fresh gene fresh.
pub proof fn lemma_change_is_local(gene: Gene, change: GeneChange, config: Config)
    ensures
        change.field() != GeneField::Instruction ==> gene.spec_changed(change).instruction
            == gene.instruction,
        change.field() != GeneField::Option ==> gene.spec_changed(change).option == gene.option,
        change.field() != GeneField::Energy ==> gene.spec_changed(change).energy == gene.energy,
        change.field() != GeneField::Branch ==> gene.spec_changed(change).branch == gene.branch,
        change.field() != GeneField::BranchAlt ==> gene.spec_changed(change).branch_alt
            == gene.branch_alt,
        gene.fresh(&config) && change.fresh(&config) ==> gene.spec_changed(change).fresh(&config),
{
}

impl Default for Gene {
    fn default() -> (r: Self)
        ensures
            r == Gene::spec_default(),
    {
        Gene { instruction: Instruction::Noop, option: false, energy: 0, branch: 0, branch_alt: 0 }
    }
}

} // verus!
