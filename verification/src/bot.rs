//! Bots, and the one instruction each of them executes per tick.

use vstd::prelude::*;
use vstd::array::spec_array_update;
use crate::color::Color;
use crate::config::{Config, GENOME_LENGTH, GENOME_SIZE};
use crate::direction::Direction;
use crate::energy::{
    clamp, clamped, fit, fitting, least, lesser, minus, plus, representable, saturate, Energy,
};
use crate::gene::{Gene, GeneChange, Instruction};
use crate::grid::{put, Grid};
use crate::random::{chance, uniform};

verus! {

/// Most that a mutation moves a colour channel of a child, either way.
pub const COLOR_DRIFT: u8 = 16;

/// What one cell of the grid holds: nothing, a living bot, or a dead one.
///
/// A cell is empty (`empty`, not `alive`), alive (`alive`, not `empty`) or
/// dead (neither): the remains of a bot, which keep their energy until a
/// neighbour recycles them or a child is placed on them. An empty cell
/// holds no energy and the default genome.
#[derive(Clone, Copy, Debug)]
pub struct Bot {
    pub alive: bool,
    pub empty: bool,
    /// Column of the cell that holds the bot.
    pub x: usize,
    /// Row of the cell that holds the bot.
    pub y: usize,
    pub energy: Energy,
    pub direction: Direction,
    pub color: Color,
    /// Number of instructions the bot has executed.
    pub age: u32,
    pub genome: [Gene; GENOME_SIZE],
    /// Index of the gene that the bot executes next.
    pub instruction_pointer: u8,
}

/// The random part of a reproduction: which gene of the child changes and
/// how, and which colour channel moves and by how much.
#[derive(Clone, Copy, Debug)]
pub struct Mutation {
    pub gene: usize,
    pub change: GeneChange,
    pub channel: u8,
    pub delta: i16,
}

impl Mutation {
    /// Whether the mutation names a gene of the genome.
    pub open spec fn in_genome(self) -> bool {
        self.gene < GENOME_LENGTH
    }

    /// Whether the mutation is one that a draw under `config` can yield. The
    /// last gene of a genome is never drawn.
    pub open spec fn drawable(self, config: &Config) -> bool {
        &&& self.gene < GENOME_LENGTH - 1
        &&& self.change.fresh(config)
        &&& self.channel < 3
        &&& -COLOR_DRIFT <= self.delta <= COLOR_DRIFT
    }

    /// Draws a mutation.
    pub fn new_random(config: &Config) -> (r: Mutation)
        requires
            config.valid(),
        ensures
            r.drawable(config),
    {
        let gene = uniform(0, GENOME_LENGTH as i64 - 1) as usize;
        let change = GeneChange::new_random(config);
        let channel = uniform(0, 3) as u8;
        let delta = uniform(-(COLOR_DRIFT as i64), COLOR_DRIFT as i64 + 1) as i16;
        Mutation { gene, change, channel, delta }
    }

    /// Decides, with the configured chance, whether a child is mutated, and
    /// draws the mutation if it is.
    pub fn draw(config: &Config) -> (r: Option<Mutation>)
        requires
            config.valid(),
        ensures
            drawable(r, config),
            config.mutation_percent == 0 ==> r is None,
            config.mutation_percent == 100 ==> r is Some,
    {
        if chance(config.mutation_percent, 100) {
            Some(Mutation::new_random(config))
        } else {
            None
        }
    }
}

impl Default for Bot {
    /// The empty cell at the origin.
    fn default() -> (r: Self)
        ensures
            r == Bot::spec_empty(0, 0),
    {
        Bot::new_empty(0, 0)
    }
}

/// What a draw for a reproduction may be: no mutation, or one that a draw
/// under `config` can yield; and never a mutation where the chance of one
/// is zero.
pub open spec fn drawable(mutation: Option<Mutation>, config: &Config) -> bool {
    &&& mutation matches Some(m) ==> m.drawable(config)
    &&& config.mutation_percent == 0 ==> mutation is None
}

impl Bot {
    // ----- the model -----------------------------------------------------

    /// Whether every gene of the genome is the default gene.
    pub open spec fn blank_genome(&self) -> bool {
        forall|i: int| 0 <= i < GENOME_LENGTH ==> self.genome[i] == Gene::spec_default()
    }

    /// The cell is in one of its three states, never both alive and empty;
    /// an empty cell holds no energy and the default genome; and the
    /// instruction pointer lies inside the genome.
    pub open spec fn wf(&self) -> bool {
        &&& !(self.alive && self.empty)
        &&& self.empty ==> self.energy == 0 && self.blank_genome()
        &&& self.instruction_pointer < GENOME_LENGTH
    }

    /// Whether the cell is a living bot as random generation under `config`
    /// makes one at `(x, y)`: at age zero, with the start energy, an opaque
    /// colour, the pointer on its first gene, and fresh genes.
    pub open spec fn seeded(&self, x: usize, y: usize, config: &Config) -> bool {
        &&& self.alive
        &&& !self.empty
        &&& self.x == x
        &&& self.y == y
        &&& self.energy == config.start_energy
        &&& self.age == 0
        &&& self.instruction_pointer == 0
        &&& self.color.alpha == 255
        &&& forall|i: int| 0 <= i < GENOME_LENGTH ==> (#[trigger] self.genome[i]).fresh(config)
    }

    /// The empty cell at `(x, y)`.
    pub open spec fn spec_empty(x: usize, y: usize) -> Bot {
        Bot {
            alive: false,
            empty: true,
            x,
            y,
            energy: 0,
            direction: Direction::Left,
            color: Color::spec_black(),
            age: 0,
            genome: [Gene::spec_default(); GENOME_SIZE],
            instruction_pointer: 0,
        }
    }

    /// Whether the cell holds the remains of a bot.
    pub open spec fn spec_is_dead(&self) -> bool {
        !self.alive && !self.empty
    }

    /// The gene under the instruction pointer.
    pub open spec fn gene(&self) -> Gene {
        self.genome[self.instruction_pointer as int]
    }

    /// The coordinate of the cell that the bot faces.
    pub open spec fn facing(&self, config: &Config) -> (int, int) {
        self.direction.step(self.x as int, self.y as int, config.width as int, config.height as int)
    }

    /// Whether `other` runs the same instructions as this bot, gene by gene.
    /// The other fields of the genes do not count.
    pub open spec fn related(&self, other: &Bot) -> bool {
        forall|i: int|
            0 <= i < GENOME_LENGTH ==> self.genome[i].instruction == other.genome[i].instruction
    }

    /// Whether this bot, facing `faced`, is refused a child: it has less
    /// than the reproduction threshold and the faced cell is not empty.
    pub open spec fn refused_child(&self, faced: &Bot, config: &Config) -> bool {
        self.energy < config.reproduction_required_energy && !faced.empty
    }

    /// Whether this bot, facing `faced`, can attack: it has the energy an
    /// attack costs and the faced cell is alive.
    pub open spec fn can_attack(&self, faced: &Bot, config: &Config) -> bool {
        self.energy >= config.spec_attack_required_energy() && faced.alive
    }

    /// What `GiveEnergy` hands over: the gene's energy, but not less than
    /// nothing and not more than the bot has.
    pub open spec fn gift(&self) -> int {
        clamped(self.gene().energy as int, 0, self.energy as int)
    }

    /// What of the gift arrives at `faced`: all of it, unless the receiver
    /// cannot hold that much.
    pub open spec fn given(&self, faced: &Bot) -> int {
        fitting(self.gift(), self.energy as int, faced.energy as int)
    }

    /// What an attack on `faced` takes: the configured amount, or all that
    /// the victim has if that is less.
    pub open spec fn loot(faced: &Bot, config: &Config) -> int {
        lesser(faced.energy as int, config.attack_energy as int)
    }

    /// The attacker's energy once the cost of the attack is paid.
    pub open spec fn after_cost(&self, config: &Config) -> int {
        saturate(self.energy - config.spec_attack_required_energy())
    }

    /// What of the loot arrives at the attacker: all of it, unless one of
    /// the two cannot hold the outcome.
    pub open spec fn taken(&self, faced: &Bot, config: &Config) -> int {
        fitting(Bot::loot(faced, config), faced.energy as int, self.after_cost(config))
    }

    /// Whether the test of the current instruction holds. Instructions that
    /// test nothing count as failing.
    pub open spec fn test_holds(&self, faced: &Bot, config: &Config) -> bool {
        match self.gene().instruction {
            Instruction::CheckEnergy => self.energy > self.gene().energy,
            Instruction::CheckIfDirectedLeft => self.direction == Direction::Left,
            Instruction::CheckIfDirectedRight => self.direction == Direction::Right,
            Instruction::CheckIfDirectedUp => self.direction == Direction::Up,
            Instruction::CheckIfDirectedDown => self.direction == Direction::Down,
            Instruction::CheckIfFacingAliveCell => faced.alive,
            Instruction::CheckIfFacingDeadCell => faced.spec_is_dead(),
            Instruction::CheckIfFacingVoid => faced.empty,
            Instruction::CheckIfFacingRelative => faced.alive && self.related(faced),
            Instruction::MakeChild => !self.refused_child(faced, config),
            _ => false,
        }
    }

    /// The index that the current instruction asks to go on with, before it
    /// is brought back into the genome: one of the gene's branch targets for
    /// a branching instruction, the following index for any other.
    pub open spec fn target(&self, faced: &Bot, config: &Config) -> int {
        if self.gene().instruction.branches() {
            if self.test_holds(faced, config) {
                self.gene().branch as int
            } else {
                self.gene().branch_alt as int
            }
        } else {
            self.instruction_pointer + 1
        }
    }

    /// The bot after the effect of its current instruction on itself, before
    /// the upkeep that every instruction ends with.
    pub open spec fn acted(&self, faced: &Bot, config: &Config) -> Bot {
        let facing = self.facing(config);
        match self.gene().instruction {
            Instruction::TurnLeft => Bot {
                direction: self.direction.spec_left(),
                energy: saturate(self.energy - config.spec_turn_cost()) as Energy,
                ..*self
            },
            Instruction::TurnRight => Bot {
                direction: self.direction.spec_right(),
                energy: saturate(self.energy - config.spec_turn_cost()) as Energy,
                ..*self
            },
            Instruction::MoveForwards => if faced.empty {
                Bot {
                    x: facing.0 as usize,
                    y: facing.1 as usize,
                    energy: saturate(self.energy - config.movement_cost) as Energy,
                    ..*self
                }
            } else {
                *self
            },
            Instruction::Photosynthesis => Bot {
                energy: saturate(self.energy + config.photosynthesis_energy) as Energy,
                ..*self
            },
            Instruction::GiveEnergy => if faced.alive {
                Bot { energy: (self.energy - self.given(faced)) as Energy, ..*self }
            } else {
                *self
            },
            Instruction::AttackCell => if self.can_attack(faced, config) {
                Bot {
                    energy: (self.after_cost(config) + self.taken(faced, config)) as Energy,
                    ..*self
                }
            } else {
                *self
            },
            Instruction::RecycleDeadCell => if faced.spec_is_dead() {
                Bot { energy: saturate(self.energy + faced.energy) as Energy, ..*self }
            } else {
                *self
            },
            Instruction::MakeChild => if self.refused_child(faced, config) {
                *self
            } else {
                Bot {
                    energy: saturate(self.energy - config.reproduction_required_energy) as Energy,
                    ..*self
                }
            },
            _ => *self,
        }
    }

    /// The child that this bot places at `(x, y)`: a copy of the bot at age
    /// zero, with the start energy and the pointer on the first gene. A
    /// mutation changes one field of one gene and moves one colour channel.
    pub open spec fn child(
        &self,
        x: usize,
        y: usize,
        config: &Config,
        mutation: Option<Mutation>,
    ) -> Bot {
        let copy = Bot {
            x,
            y,
            age: 0,
            energy: config.start_energy,
            instruction_pointer: 0,
            ..*self
        };
        match mutation {
            None => copy,
            Some(m) => Bot {
                genome: spec_array_update(
                    self.genome,
                    m.gene as int,
                    self.genome[m.gene as int].spec_changed(m.change),
                ),
                color: self.color.spec_shifted(m.channel, m.delta as int),
                ..copy
            },
        }
    }

    /// The faced cell after the effect of this bot's current instruction.
    pub open spec fn faced_after(
        &self,
        faced: &Bot,
        config: &Config,
        mutation: Option<Mutation>,
    ) -> Bot {
        let facing = self.facing(config);
        match self.gene().instruction {
            Instruction::GiveEnergy => if faced.alive {
                Bot { energy: (faced.energy + self.given(faced)) as Energy, ..*faced }
            } else {
                *faced
            },
            Instruction::AttackCell => if self.can_attack(faced, config) {
                Bot { energy: (faced.energy - self.taken(faced, config)) as Energy, ..*faced }
            } else {
                *faced
            },
            Instruction::RecycleDeadCell => if faced.spec_is_dead() {
                Bot::spec_empty(facing.0 as usize, facing.1 as usize)
            } else {
                *faced
            },
            Instruction::MakeChild => if self.refused_child(faced, config) {
                *faced
            } else {
                self.child(facing.0 as usize, facing.1 as usize, config, mutation)
            },
            _ => *faced,
        }
    }

    /// The age after one more instruction. An age at the end of its range
    /// stays there.
    pub open spec fn older(age: u32) -> u32 {
        if age < u32::MAX {
            (age + 1) as u32
        } else {
            age
        }
    }

    /// The upkeep that ends every executed instruction: the pointer goes to
    /// `target`, taken modulo the length of the genome; the idle cost is
    /// paid; the bot grows one tick older; and it dies, staying in its cell,
    /// if it is then past the maximum age or out of energy.
    pub open spec fn settled(&self, target: int, config: &Config) -> Bot {
        let energy = saturate(self.energy - config.noop_cost) as Energy;
        let age = Bot::older(self.age);
        Bot {
            instruction_pointer: (target % (GENOME_LENGTH as int)) as u8,
            energy,
            age,
            alive: !(age > config.cell_max_age || energy < 0),
            ..*self
        }
    }

    /// The bot after one update in front of `faced`. A bot that is not alive
    /// stays as it is.
    pub open spec fn updated(&self, faced: &Bot, config: &Config) -> Bot {
        if self.alive {
            self.acted(faced, config).settled(self.target(faced, config), config)
        } else {
            *self
        }
    }

    /// The cells after one update of this bot, which is a copy of one of
    /// them: only the faced cell can differ, and only if the bot is alive.
    pub open spec fn cells_after(
        &self,
        cells: Seq<Seq<Bot>>,
        config: &Config,
        mutation: Option<Mutation>,
    ) -> Seq<Seq<Bot>> {
        let facing = self.facing(config);
        if self.alive {
            put(
                cells,
                facing.0,
                facing.1,
                self.faced_after(&cells[facing.0][facing.1], config, mutation),
            )
        } else {
            cells
        }
    }

    /// Whether the current instruction of a living bot in front of `faced`
    /// consumes a random draw: it is a reproduction that is not refused.
    pub open spec fn draws(&self, faced: &Bot, config: &Config) -> bool {
        self.alive && self.gene().instruction == Instruction::MakeChild && !self.refused_child(
            faced,
            config,
        )
    }
}

impl Bot {
    // ----- construction and access ---------------------------------------

    /// Generates a living bot at `(x, y)` with a random genome, direction
    /// and colour, the start energy, and the pointer on its first gene.
    pub fn new_random(x: usize, y: usize, config: &Config) -> (r: Bot)
        requires
            config.valid(),
        ensures
            r.seeded(x, y, config),
    {
        let mut genome = [Gene::default();GENOME_SIZE];
        let mut i: usize = 0;
        while i < GENOME_SIZE
            invariant
                i <= GENOME_SIZE,
                config.valid(),
                forall|k: int| 0 <= k < i ==> (#[trigger] genome[k]).fresh(config),
            decreases GENOME_SIZE - i,
        {
            genome[i] = Gene::new_random(config);
            i += 1;
        }
        Bot {
            alive: true,
            empty: false,
            x,
            y,
            energy: config.start_energy,
            direction: Direction::new_random(),
            color: Color::new_random(),
            age: 0,
            genome,
            instruction_pointer: 0,
        }
    }

    /// Generates the empty cell at `(x, y)`.
    pub fn new_empty(x: usize, y: usize) -> (r: Bot)
        ensures
            r == Bot::spec_empty(x, y),
    {
        Bot {
            alive: false,
            empty: true,
            x,
            y,
            energy: 0,
            direction: Direction::Left,
            color: Color::black(),
            age: 0,
            genome: [Gene::default();GENOME_SIZE],
            instruction_pointer: 0,
        }
    }

    /// Generates the cell at `(x, y)` for a grid that is filled anew: a
    /// random living bot if `cell_is_alive`, and the empty cell otherwise.
    pub fn generate(x: usize, y: usize, cell_is_alive: bool, config: &Config) -> (r: Bot)
        requires
            config.valid(),
        ensures
            cell_is_alive ==> r.seeded(x, y, config),
            !cell_is_alive ==> r == Bot::spec_empty(x, y),
    {
        if cell_is_alive {
            Bot::new_random(x, y, config)
        } else {
            Bot::new_empty(x, y)
        }
    }

    /// Column of the bot.
    pub fn x(&self) -> (r: usize)
        ensures
            r == self.x,
    {
        self.x
    }

    /// Row of the bot.
    pub fn y(&self) -> (r: usize)
        ensures
            r == self.y,
    {
        self.y
    }

    /// Column and row of the bot.
    pub fn coordinates(&self) -> (r: (usize, usize))
        ensures
            r == (self.x, self.y),
    {
        (self.x, self.y)
    }

    /// Moves the bot's record of where it is. The grid is not touched.
    pub fn set_coordinates(&mut self, x: usize, y: usize)
        ensures
            *final(self) == (Bot { x, y, ..*old(self) }),
    {
        self.x = x;
        self.y = y;
    }

    /// Whether every gene of the genome is the default gene.
    pub fn has_blank_genome(&self) -> (r: bool)
        ensures
            r == self.blank_genome(),
    {
        let blank = Gene::default();
        let mut i: usize = 0;
        while i < GENOME_SIZE
            invariant
                i <= GENOME_SIZE,
                blank == Gene::spec_default(),
                forall|k: int| 0 <= k < i ==> self.genome[k] == Gene::spec_default(),
            decreases GENOME_SIZE - i,
        {
            if self.genome[i] != blank {
                return false;
            }
            i += 1;
        }
        true
    }

    /// Whether the cell is well-formed: in one of its three states, without
    /// energy or genes if it is empty, and with its pointer inside the
    /// genome.
    pub fn is_wf(&self) -> (r: bool)
        ensures
            r == self.wf(),
    {
        !(self.alive && self.empty) && self.instruction_pointer < GENOME_LENGTH && (!self.empty
            || (self.energy == 0 && self.has_blank_genome()))
    }

    /// Whether the bot takes part in a tick: only living bots do.
    pub fn should_update(&self) -> (r: bool)
        ensures
            r == self.alive,
    {
        self.alive
    }

    /// The gene that the bot executes next.
    pub fn current_instruction(&self) -> (r: &Gene)
        requires
            self.wf(),
        ensures
            *r == self.gene(),
    {
        &self.genome[self.instruction_pointer as usize]
    }

    /// Whether the cell holds the remains of a bot.
    pub fn is_dead(&self) -> (r: bool)
        ensures
            r == self.spec_is_dead(),
    {
        !self.alive && !self.empty
    }

    /// Whether `other` runs the same instructions as this bot, gene by gene.
    pub fn is_relative(&self, other: &Bot) -> (r: bool)
        ensures
            r == self.related(other),
    {
        let mut similar_genes: u8 = 0;
        let mut i: usize = 0;
        while i < GENOME_SIZE
            invariant
                i <= GENOME_SIZE,
                similar_genes <= i,
                similar_genes == i <==> forall|k: int|
                    0 <= k < i ==> self.genome[k].instruction == other.genome[k].instruction,
            decreases GENOME_SIZE - i,
        {
            if self.genome[i].instruction == other.genome[i].instruction {
                similar_genes += 1;
            }
            i += 1;
        }
        similar_genes == GENOME_LENGTH
    }

    /// The child that this bot places at `(x, y)`.
    pub fn make_child(
        &self,
        x: usize,
        y: usize,
        config: &Config,
        mutation: Option<Mutation>,
    ) -> (r: Bot)
        requires
            mutation matches Some(m) ==> m.in_genome(),
        ensures
            r == self.child(x, y, config, mutation),
    {
        let mut child = Bot {
            x,
            y,
            age: 0,
            energy: config.start_energy,
            instruction_pointer: 0,
            ..*self
        };
        if let Some(m) = mutation {
            let mut gene = child.genome[m.gene];
            gene.change(m.change);
            child.genome[m.gene] = gene;
            child.color.shift(m.channel, m.delta);
        }
        child
    }

    // ----- the update ----------------------------------------------------

    /// Executes the bot's current instruction with the given draw.
    ///
    /// The bot is a copy of the cell of `map` that it stands for; the
    /// instruction reads and changes the bot and, in `map`, the cell it
    /// faces. The draw is read only by a reproduction that is not refused.
    /// A bot that is not alive does nothing.
    pub fn update_with(&mut self, map: &mut Grid<Bot>, config: &Config, mutation: Option<Mutation>)
        requires
            config.valid(),
            old(map).wf(),
            old(map).spec_width() == config.width,
            old(map).spec_height() == config.height,
            old(self).wf(),
            old(self).x < config.width,
            old(self).y < config.height,
            mutation matches Some(m) ==> m.in_genome(),
        ensures
            final(map).wf(),
            final(map).spec_width() == config.width,
            final(map).spec_height() == config.height,
            *final(self) == old(self).updated(
                &old(map)@[old(self).facing(config).0][old(self).facing(config).1],
                config,
            ),
            final(map)@ == old(self).cells_after(old(map)@, config, mutation),
    {
        if !self.alive {
            return ;
        }
        let mut next_instruction: u8 = self.instruction_pointer + 1;
        let (looking_x, looking_y) = self.direction.apply_direction(self.x, self.y, config);
        let gene = *self.current_instruction();

        let cell_in_front = map.get_mut(looking_x, looking_y).unwrap();

        match gene.instruction {
            Instruction::TurnLeft => {
                self.direction = self.direction.left();
                self.energy = minus(self.energy, config.turn_cost());
            },
            Instruction::TurnRight => {
                self.direction = self.direction.right();
                self.energy = minus(self.energy, config.turn_cost());
            },
            Instruction::MoveForwards => {
                if cell_in_front.empty {
                    self.x = looking_x;
                    self.y = looking_y;
                    self.energy = minus(self.energy, config.movement_cost);
                }
            },
            Instruction::Photosynthesis => {
                self.energy = plus(self.energy, config.photosynthesis_energy);
            },
            Instruction::GiveEnergy => {
                if cell_in_front.alive {
                    let energy_to_give = fit(
                        clamp(gene.energy, 0, self.energy),
                        self.energy,
                        cell_in_front.energy,
                    );
                    cell_in_front.energy = plus(cell_in_front.energy, energy_to_give);
                    self.energy = minus(self.energy, energy_to_give);
                }
            },
            Instruction::AttackCell => {
                if self.energy >= config.attack_required_energy() && cell_in_front.alive {
                    self.energy = minus(self.energy, config.attack_required_energy());
                    let taken_energy = fit(
                        least(cell_in_front.energy, config.attack_energy),
                        cell_in_front.energy,
                        self.energy,
                    );
                    cell_in_front.energy = minus(cell_in_front.energy, taken_energy);
                    self.energy = plus(self.energy, taken_energy);
                }
            },
            Instruction::RecycleDeadCell => {
                if cell_in_front.is_dead() {
                    self.energy = plus(self.energy, cell_in_front.energy);
                    *cell_in_front = Bot::new_empty(looking_x, looking_y);
                }
            },
            Instruction::CheckEnergy => {
                next_instruction = if self.energy > gene.energy {
                    gene.branch
                } else {
                    gene.branch_alt
                };
            },
            Instruction::CheckIfDirectedLeft => {
                next_instruction = if let Direction::Left = self.direction {
                    gene.branch
                } else {
                    gene.branch_alt
                };
            },
            Instruction::CheckIfDirectedRight => {
                next_instruction = if let Direction::Right = self.direction {
                    gene.branch
                } else {
                    gene.branch_alt
                };
            },
            Instruction::CheckIfDirectedUp => {
                next_instruction = if let Direction::Up = self.direction {
                    gene.branch
                } else {
                    gene.branch_alt
                };
            },
            Instruction::CheckIfDirectedDown => {
                next_instruction = if let Direction::Down = self.direction {
                    gene.branch
                } else {
                    gene.branch_alt
                };
            },
            Instruction::CheckIfFacingAliveCell => {
                next_instruction = if cell_in_front.alive {
                    gene.branch
                } else {
                    gene.branch_alt
                };
            },
            Instruction::CheckIfFacingDeadCell => {
                next_instruction = if cell_in_front.is_dead() {
                    gene.branch
                } else {
                    gene.branch_alt
                };
            },
            Instruction::CheckIfFacingVoid => {
                next_instruction = if cell_in_front.empty {
                    gene.branch
                } else {
                    gene.branch_alt
                };
            },
            Instruction::CheckIfFacingRelative => {
                next_instruction = if cell_in_front.alive && self.is_relative(cell_in_front) {
                    gene.branch
                } else {
                    gene.branch_alt
                };
            },
            Instruction::MakeChild => {
                if self.energy < config.reproduction_required_energy && !cell_in_front.empty {
                    next_instruction = gene.branch_alt;
                } else {
                    *cell_in_front = self.make_child(looking_x, looking_y, config, mutation);
                    self.energy = minus(self.energy, config.reproduction_required_energy);
                    next_instruction = gene.branch;
                }
            },
            Instruction::Noop => {},
        }

        self.instruction_pointer = next_instruction % GENOME_LENGTH;
        self.energy = minus(self.energy, config.noop_cost);
        if self.age < u32::MAX {
            self.age += 1;
        }
        if self.age > config.cell_max_age || self.energy < 0 {
            self.alive = false;
        }
    }

    /// Whether the bot's current instruction is a reproduction that is not
    /// refused, so that its update consumes a random draw.
    pub fn reproduces(&self, map: &Grid<Bot>, config: &Config) -> (r: bool)
        requires
            config.valid(),
            map.wf(),
            map.spec_width() == config.width,
            map.spec_height() == config.height,
            self.wf(),
            self.x < config.width,
            self.y < config.height,
        ensures
            r == self.draws(&map@[self.facing(config).0][self.facing(config).1], config),
    {
        if !self.alive {
            return false;
        }
        match self.current_instruction().instruction {
            Instruction::MakeChild => {
                let (looking_x, looking_y) = self.direction.apply_direction(self.x, self.y, config);
                let cell_in_front = map.get(looking_x, looking_y).unwrap();
                !(self.energy < config.reproduction_required_energy && !cell_in_front.empty)
            },
            _ => false,
        }
    }

    /// Updates the bot: executes its current instruction, drawing a mutation
    /// where the instruction is a reproduction that is not refused.
    ///
    /// The bot is a copy of the cell of `map` that it stands for; the
    /// instruction reads and changes the bot and, in `map`, the cell it
    /// faces. A bot that is not alive does nothing.
    pub fn update(&mut self, map: &mut Grid<Bot>, config: &Config)
        requires
            config.valid(),
            old(map).wf(),
            old(map).spec_width() == config.width,
            old(map).spec_height() == config.height,
            old(self).wf(),
            old(self).x < config.width,
            old(self).y < config.height,
        ensures
            final(map).wf(),
            final(map).spec_width() == config.width,
            final(map).spec_height() == config.height,
            *final(self) == old(self).updated(
                &old(map)@[old(self).facing(config).0][old(self).facing(config).1],
                config,
            ),
            exists|mutation: Option<Mutation>|
                drawable(mutation, config) && final(map)@ == old(self).cells_after(
                    old(map)@,
                    config,
                    mutation,
                ),
            !old(self).draws(
                &old(map)@[old(self).facing(config).0][old(self).facing(config).1],
                config,
            ) ==> final(map)@ == old(self).cells_after(old(map)@, config, None),
            config.mutation_percent == 0 ==> final(map)@ == old(self).cells_after(
                old(map)@,
                config,
                None,
            ),
            config.mutation_percent == 100 && old(self).draws(
                &old(map)@[old(self).facing(config).0][old(self).facing(config).1],
                config,
            ) ==> exists|m: Mutation|
                m.drawable(config) && final(map)@ == old(self).cells_after(
                    old(map)@,
                    config,
                    Some(m),
                ),
    {
        let mutation = if self.reproduces(map, config) {
            Mutation::draw(config)
        } else {
            None
        };
        self.update_with(map, config, mutation);
        assert(drawable(mutation, config) && map@ == old(self).cells_after(
            old(map)@,
            config,
            mutation,
        ));
    }
}

/// The instruction pointer after the update of a living bot is the index
/// its instruction asked for, taken modulo the length of the genome. It lies
/// inside the genome whatever was asked for, and is the index itself where
/// that already lay inside.
pub proof fn lemma_pointer_wraps(bot: Bot, faced: Bot, config: Config)
    requires
        bot.wf(),
        bot.alive,
    ensures
        bot.updated(&faced, &config).instruction_pointer == bot.target(&faced, &config) % (
        GENOME_LENGTH as int),
        bot.updated(&faced, &config).instruction_pointer < GENOME_LENGTH,
        bot.target(&faced, &config) < GENOME_LENGTH ==> bot.updated(
            &faced,
            &config,
        ).instruction_pointer == bot.target(&faced, &config),
        bot.target(&faced, &config) == GENOME_LENGTH ==> bot.updated(
            &faced,
            &config,
        ).instruction_pointer == 0,
        !bot.gene().instruction.branches() ==> bot.target(&faced, &config)
            == bot.instruction_pointer + 1,
{
    let target = bot.target(&faced, &config);
    assert(0 <= target <= 255);
    assert(0 <= target % 32 < 32);
}

/// `GiveEnergy` creates and destroys no energy: what the giver and the
/// faced cell hold together is the same after the instruction as before.
/// What moves is the gift, which is never negative and never more than the
/// giver has; less than the gift moves only where the receiver could not
/// hold it all.
pub proof fn lemma_gift_conserves_energy(bot: Bot, faced: Bot, config: Config)
    requires
        bot.gene().instruction == Instruction::GiveEnergy,
    ensures
        bot.acted(&faced, &config).energy + bot.faced_after(&faced, &config, None).energy
            == bot.energy + faced.energy,
        faced.alive ==> bot.acted(&faced, &config).energy == bot.energy - bot.given(&faced),
        faced.alive ==> bot.faced_after(&faced, &config, None).energy == faced.energy
            + bot.given(&faced),
        !faced.alive ==> bot.acted(&faced, &config) == bot && bot.faced_after(
            &faced,
            &config,
            None,
        ) == faced,
        0 <= bot.given(&faced) <= bot.gift(),
        0 <= bot.energy ==> bot.gift() <= bot.energy,
        representable(faced.energy + bot.gift()) ==> bot.given(&faced) == bot.gift(),
{
}

/// An attack moves energy without creating or destroying any: once the
/// attacker has paid the cost of the attack, what it gains is exactly what
/// its victim loses. What moves is the loot; less than the loot moves only
/// where one of the two could not hold the outcome.
pub proof fn lemma_attack_conserves_energy(bot: Bot, faced: Bot, config: Config)
    requires
        bot.gene().instruction == Instruction::AttackCell,
        bot.can_attack(&faced, &config),
    ensures
        bot.acted(&faced, &config).energy == bot.after_cost(&config) + bot.taken(&faced, &config),
        bot.faced_after(&faced, &config, None).energy == faced.energy - bot.taken(
            &faced,
            &config,
        ),
        bot.acted(&faced, &config).energy + bot.faced_after(&faced, &config, None).energy
            == bot.after_cost(&config) + faced.energy,
        representable(bot.energy - config.spec_attack_required_energy()) ==> bot.after_cost(
            &config,
        ) == bot.energy - config.spec_attack_required_energy(),
        representable(bot.after_cost(&config) + Bot::loot(&faced, &config)) && representable(
            faced.energy - Bot::loot(&faced, &config),
        ) ==> bot.taken(&faced, &config) == Bot::loot(&faced, &config),
        0 <= faced.energy && 0 <= config.attack_energy ==> 0 <= bot.taken(&faced, &config)
            <= Bot::loot(&faced, &config) <= faced.energy,
{
}

/// `CheckIfFacingRelative` goes on at `branch` exactly if the faced cell is
/// alive and each of its genes carries the same instruction as the gene at
/// the same place in the bot's own genome; otherwise it goes on at
/// `branch_alt`. One differing instruction is enough for that.
pub proof fn lemma_relative_test(bot: Bot, faced: Bot, config: Config)
    requires
        bot.gene().instruction == Instruction::CheckIfFacingRelative,
    ensures
        bot.test_holds(&faced, &config) <==> faced.alive && bot.related(&faced),
        bot.test_holds(&faced, &config) ==> bot.target(&faced, &config) == bot.gene().branch,
        !bot.test_holds(&faced, &config) ==> bot.target(&faced, &config) == bot.gene().branch_alt,
        !faced.alive ==> bot.target(&faced, &config) == bot.gene().branch_alt,
        forall|i: int|
            0 <= i < GENOME_LENGTH && bot.genome[i].instruction != faced.genome[i].instruction
                ==> bot.target(&faced, &config) == bot.gene().branch_alt,
        bot.acted(&faced, &config) == bot,
        bot.faced_after(&faced, &config, None) == faced,
{
}

/// `MakeChild` is refused exactly if the bot has less than the reproduction
/// threshold and the faced cell is not empty. A refused bot goes on at
/// `branch_alt`, pays nothing and leaves the faced cell alone. In every
/// other case, so always in front of an empty cell, the child replaces the
/// faced cell, the bot pays the threshold and goes on at `branch`.
pub proof fn lemma_reproduction(bot: Bot, faced: Bot, config: Config, mutation: Option<Mutation>)
    requires
        bot.gene().instruction == Instruction::MakeChild,
    ensures
        bot.refused_child(&faced, &config) <==> bot.energy < config.reproduction_required_energy
            && !faced.empty,
        faced.empty ==> !bot.refused_child(&faced, &config),
        bot.refused_child(&faced, &config) ==> ({
            &&& bot.target(&faced, &config) == bot.gene().branch_alt
            &&& bot.acted(&faced, &config) == bot
            &&& bot.faced_after(&faced, &config, mutation) == faced
        }),
        !bot.refused_child(&faced, &config) ==> ({
            &&& bot.target(&faced, &config) == bot.gene().branch
            &&& bot.acted(&faced, &config).energy == saturate(
                bot.energy - config.reproduction_required_energy,
            )
            &&& bot.faced_after(&faced, &config, mutation) == bot.child(
                bot.facing(&config).0 as usize,
                bot.facing(&config).1 as usize,
                &config,
                mutation,
            )
            &&& bot.faced_after(&faced, &config, mutation).energy == config.start_energy
            &&& bot.faced_after(&faced, &config, mutation).age == 0
            &&& bot.faced_after(&faced, &config, mutation).instruction_pointer == 0
        }),
{
}

/// A refused reproduction costs what every instruction costs and nothing
/// more: the bot goes on at `branch_alt`, pays the idle cost and grows one
/// tick older, and the grid stays as it is.
pub proof fn lemma_refused_reproduction(
    bot: Bot,
    cells: Seq<Seq<Bot>>,
    config: Config,
    mutation: Option<Mutation>,
)
    requires
        bot.wf(),
        bot.alive,
        bot.gene().instruction == Instruction::MakeChild,
        0 <= bot.facing(&config).0 < cells.len(),
        0 <= bot.facing(&config).1 < cells[bot.facing(&config).0].len(),
        bot.refused_child(&cells[bot.facing(&config).0][bot.facing(&config).1], &config),
    ensures
        bot.cells_after(cells, &config, mutation) == cells,
        bot.updated(
            &cells[bot.facing(&config).0][bot.facing(&config).1],
            &config,
        ) == bot.settled(bot.gene().branch_alt as int, &config),
        bot.settled(bot.gene().branch_alt as int, &config).instruction_pointer
            == bot.gene().branch_alt % GENOME_LENGTH,
        bot.settled(bot.gene().branch_alt as int, &config).energy == saturate(
            bot.energy - config.noop_cost,
        ),
        bot.settled(bot.gene().branch_alt as int, &config).age == Bot::older(bot.age),
        bot.settled(bot.gene().branch_alt as int, &config).x == bot.x,
        bot.settled(bot.gene().branch_alt as int, &config).y == bot.y,
        bot.settled(bot.gene().branch_alt as int, &config).genome == bot.genome,
{
    let facing = bot.facing(&config);
    assert(bot.cells_after(cells, &config, mutation) =~= cells) by {
        assert(cells[facing.0].update(facing.1, cells[facing.0][facing.1]) =~= cells[facing.0]);
    }
}

/// A living bot that ends an update past the maximum age or with less than
/// no energy is dead and still occupies its cell; any other stays alive. An
/// update never empties the cell of the bot it updates.
pub proof fn lemma_death(bot: Bot, faced: Bot, config: Config)
    requires
        bot.wf(),
        bot.alive,
    ensures
        !bot.updated(&faced, &config).empty,
        bot.updated(&faced, &config).alive <==> !(bot.updated(&faced, &config).age
            > config.cell_max_age || bot.updated(&faced, &config).energy < 0),
        !bot.updated(&faced, &config).alive ==> bot.updated(&faced, &config).spec_is_dead(),
        bot.updated(&faced, &config).age == Bot::older(bot.age),
        bot.updated(&faced, &config).energy == saturate(
            bot.acted(&faced, &config).energy - config.noop_cost,
        ),
{
}

/// Only a living bot acts: the update of any other cell changes neither the
/// cell nor the grid.
pub proof fn lemma_only_the_living_act(
    bot: Bot,
    cells: Seq<Seq<Bot>>,
    faced: Bot,
    config: Config,
    mutation: Option<Mutation>,
)
    requires
        !bot.alive,
    ensures
        bot.updated(&faced, &config) == bot,
        bot.cells_after(cells, &config, mutation) == cells,
{
}

/// On a grid of at least two columns and two rows no bot faces itself.
pub proof fn lemma_faces_another(bot: Bot, config: Config)
    requires
        config.width >= 2,
        config.height >= 2,
        bot.x < config.width,
        bot.y < config.height,
    ensures
        bot.facing(&config) != (bot.x as int, bot.y as int),
{
}

} // verus!
