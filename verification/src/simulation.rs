//! The simulation: a grid of bots and the tick that advances all of them.
//!
//! A tick visits every coordinate once, column by column from the left and,
//! inside a column, row by row from the top. The bot found at a coordinate
//! executes one instruction against the grid as it is at that moment, so a
//! bot visited later in a tick sees what the bots visited before it have
//! already done. A bot that steps forwards into a coordinate that the scan
//! has yet to reach is visited again there, in the same tick.

use vstd::prelude::*;
use crate::bot::{drawable, Bot, Mutation};
use crate::config::Config;
use crate::grid::{put, Grid};
use crate::random::chance;

verus! {

/// A simulation as a mathematical value.
pub struct World {
    /// Number of ticks completed.
    pub iterations: nat,
    /// The cells, column by column.
    pub cells: Seq<Seq<Bot>>,
    /// The coordinate that the host has selected, if any.
    pub selected_coordinates: Option<(usize, usize)>,
    /// The bot last seen at the selected coordinate. It is kept when the
    /// bot itself is gone from the grid.
    pub selected_bot: Option<Bot>,
    /// The parameters in force.
    pub config: Config,
}

impl World {
    /// Whether `(x, y)` is a coordinate of the grid.
    pub open spec fn contains(self, x: int, y: int) -> bool {
        0 <= x < self.config.width && 0 <= y < self.config.height
    }

    /// The parameters are valid, the cells fill a grid of the configured
    /// size, and every cell has its pointer inside its genome and records
    /// the coordinate at which it lies.
    pub open spec fn wf(self) -> bool {
        &&& self.config.valid()
        &&& self.cells.len() == self.config.width
        &&& forall|x: int|
            0 <= x < self.config.width ==> (#[trigger] self.cells[x]).len() == self.config.height
        &&& forall|x: int, y: int|
            self.contains(x, y) ==> {
                &&& (#[trigger] self.cells[x][y]).wf()
                &&& self.cells[x][y].x == x
                &&& self.cells[x][y].y == y
            }
    }

    /// The coordinate that a tick visits as its `k`-th, counting from zero.
    pub open spec fn coordinate(self, k: int) -> (int, int) {
        (k / (self.config.height as int), k % (self.config.height as int))
    }

    /// The world after the visit of a tick to `(x, y)` with the given draw.
    ///
    /// The bot there is updated against the cells; if it has moved, the
    /// cell it left becomes empty; it is then written at the place where it
    /// now is. If the visited coordinate is the selected one, the selection
    /// follows the bot.
    pub open spec fn visit(self, x: int, y: int, mutation: Option<Mutation>) -> World {
        let bot = self.cells[x][y];
        let facing = bot.facing(&self.config);
        let after = bot.updated(&self.cells[facing.0][facing.1], &self.config);
        let acted = bot.cells_after(self.cells, &self.config, mutation);
        let vacated = if after.x != bot.x || after.y != bot.y {
            put(acted, bot.x as int, bot.y as int, Bot::spec_empty(bot.x, bot.y))
        } else {
            acted
        };
        let followed = self.selected_coordinates == Some((bot.x, bot.y));
        World {
            cells: put(vacated, after.x as int, after.y as int, after),
            selected_coordinates: if followed {
                Some((after.x, after.y))
            } else {
                self.selected_coordinates
            },
            selected_bot: if followed {
                Some(after)
            } else {
                self.selected_bot
            },
            ..self
        }
    }

    /// The world after the first `draws.len()` visits of a tick, the `k`-th
    /// of them made with `draws[k]`.
    pub open spec fn scanned(self, draws: Seq<Option<Mutation>>) -> World
        decreases draws.len(),
    {
        if draws.len() == 0 {
            self
        } else {
            let k = draws.len() - 1;
            let at = self.coordinate(k);
            self.scanned(draws.drop_last()).visit(at.0, at.1, draws.last())
        }
    }

    /// The world after one whole tick made with `draws`, one draw for each
    /// coordinate in the order of the visits.
    pub open spec fn ticked(self, draws: Seq<Option<Mutation>>) -> World {
        World { iterations: self.iterations + 1, ..self.scanned(draws) }
    }

    /// Whether `draws` can be the draws of one tick: there is one for each
    /// coordinate, and each is one that a draw can yield. Where the chance
    /// of a mutation is zero, every one of them is `None`.
    pub open spec fn tick_draws(self, draws: Seq<Option<Mutation>>) -> bool {
        &&& draws.len() == self.config.width * self.config.height
        &&& forall|k: int| 0 <= k < draws.len() ==> drawable(#[trigger] draws[k], &self.config)
    }

    /// Whether `cell` is what generation can put at `(x, y)`: the empty
    /// cell, or a living bot as random generation makes it.
    pub open spec fn generated(self, cell: Bot, x: int, y: int) -> bool {
        ||| cell == Bot::spec_empty(x as usize, y as usize)
        ||| cell.seeded(x as usize, y as usize, &self.config)
    }
}

/// A visit keeps a well-formed world well-formed.
pub proof fn lemma_visit_keeps_wf(w: World, x: int, y: int, mutation: Option<Mutation>)
    requires
        w.wf(),
        w.contains(x, y),
    ensures
        w.visit(x, y, mutation).wf(),
        w.visit(x, y, mutation).config == w.config,
        w.visit(x, y, mutation).iterations == w.iterations,
{
    let bot = w.cells[x][y];
    let facing = bot.facing(&w.config);
    assert(w.contains(facing.0, facing.1));
    let faced = w.cells[facing.0][facing.1];
    let after = bot.updated(&faced, &w.config);
    assert(faced.wf() && faced.x == facing.0 && faced.y == facing.1);
    assert(after.wf()) by {
        if bot.alive {
            let target = bot.target(&faced, &w.config);
            assert(0 <= target % 32 < 32);
        }
    }
    assert(w.contains(after.x as int, after.y as int));
    let acted = bot.cells_after(w.cells, &w.config, mutation);
    let changed = bot.faced_after(&faced, &w.config, mutation);
    assert(changed.wf() && changed.x == facing.0 && changed.y == facing.1);
    let v = w.visit(x, y, mutation);
    assert forall|i: int, j: int| v.contains(i, j) implies {
        &&& (#[trigger] v.cells[i][j]).wf()
        &&& v.cells[i][j].x == i
        &&& v.cells[i][j].y == j
    } by {
        assert(w.cells[i][j].wf());
    }
}

/// A visit to a cell that is not alive leaves every cell as it is.
pub proof fn lemma_visit_of_the_still(w: World, x: int, y: int, mutation: Option<Mutation>)
    requires
        w.wf(),
        w.contains(x, y),
        !w.cells[x][y].alive,
    ensures
        w.visit(x, y, mutation).cells == w.cells,
{
    let bot = w.cells[x][y];
    assert(bot.x == x && bot.y == y);
    assert(w.visit(x, y, mutation).cells =~= w.cells) by {
        assert(w.cells[x].update(y, bot) =~= w.cells[x]);
    }
}

/// A visit touches the visited cell and the cell that the bot there faces,
/// and no other; and it leaves the selection alone unless the visited
/// coordinate is the selected one.
pub proof fn lemma_visit_is_local(w: World, x: int, y: int, mutation: Option<Mutation>)
    requires
        w.wf(),
        w.contains(x, y),
    ensures
        forall|i: int, j: int|
            w.contains(i, j) && (i, j) != (x, y) && (i, j) != w.cells[x][y].facing(&w.config)
                ==> (#[trigger] w.visit(x, y, mutation).cells[i][j]) == w.cells[i][j],
        w.selected_coordinates != Some((x as usize, y as usize)) ==> ({
            &&& w.visit(x, y, mutation).selected_coordinates == w.selected_coordinates
            &&& w.visit(x, y, mutation).selected_bot == w.selected_bot
        }),
{
    let bot = w.cells[x][y];
    let facing = bot.facing(&w.config);
    assert(bot.x == x && bot.y == y);
    assert(w.contains(facing.0, facing.1));
    let after = bot.updated(&w.cells[facing.0][facing.1], &w.config);
    assert((after.x as int, after.y as int) == (x, y) || (after.x as int, after.y as int)
        == facing);
}

/// The visits of a tick keep a well-formed world well-formed, and change
/// neither the parameters nor the count of ticks.
pub proof fn lemma_scan_keeps_wf(w: World, draws: Seq<Option<Mutation>>)
    requires
        w.wf(),
        draws.len() <= w.config.width * w.config.height,
    ensures
        w.scanned(draws).wf(),
        w.scanned(draws).config == w.config,
        w.scanned(draws).iterations == w.iterations,
    decreases draws.len(),
{
    if draws.len() > 0 {
        let k = draws.len() - 1;
        let height = w.config.height as int;
        lemma_scan_keeps_wf(w, draws.drop_last());
        let at = w.coordinate(k);
        assert(0 <= at.0 < w.config.width && 0 <= at.1 < height) by {
            vstd::arithmetic::div_mod::lemma_fundamental_div_mod(k, height);
            vstd::arithmetic::div_mod::lemma_mod_bound(k, height);
            assert(k / height < w.config.width) by (nonlinear_arith)
                requires
                    0 <= k < w.config.width * height,
                    0 < height,
                    k == height * (k / height) + k % height,
                    0 <= k % height < height,
            ;
            assert(0 <= k / height) by (nonlinear_arith)
                requires
                    0 <= k,
                    0 < height,
            ;
        }
        lemma_visit_keeps_wf(w.scanned(draws.drop_last()), at.0, at.1, draws.last());
    }
}

/// A tick keeps a well-formed world well-formed, keeps its parameters, and
/// counts one tick more.
pub proof fn lemma_tick_keeps_wf(w: World, draws: Seq<Option<Mutation>>)
    requires
        w.wf(),
        w.tick_draws(draws),
    ensures
        w.ticked(draws).wf(),
        w.ticked(draws).config == w.config,
        w.ticked(draws).iterations == w.iterations + 1,
{
    lemma_scan_keeps_wf(w, draws);
}

/// Where the chance of a mutation is zero, a tick is determined by the world
/// it starts from: whatever the draws, the world after it is the same.
pub proof fn lemma_tick_without_mutation(
    w: World,
    first: Seq<Option<Mutation>>,
    second: Seq<Option<Mutation>>,
)
    requires
        w.config.mutation_percent == 0,
        w.tick_draws(first),
        w.tick_draws(second),
    ensures
        first == second,
        w.ticked(first) == w.ticked(second),
{
    assert forall|k: int| 0 <= k < first.len() implies first[k] == second[k] by {
        assert(drawable(first[k], &w.config));
        assert(drawable(second[k], &w.config));
    }
    assert(first =~= second);
}

/// A grid of bots with the parameters that rule them, the number of ticks
/// made so far, and the host's selection.
pub struct Simulation {
    width: usize,
    height: usize,
    iterations: usize,
    map: Grid<Bot>,
    selected_bot_coordinates: Option<(usize, usize)>,
    selected_bot: Option<Bot>,
    configuration: Config,
}

impl View for Simulation {
    type V = World;

    closed spec fn view(&self) -> World {
        World {
            iterations: self.iterations as nat,
            cells: self.map@,
            selected_coordinates: self.selected_bot_coordinates,
            selected_bot: self.selected_bot,
            config: self.configuration,
        }
    }
}

impl Simulation {
    /// The simulation is a well-formed world, held in a grid of the
    /// configured size.
    pub closed spec fn wf(&self) -> bool {
        &&& self@.wf()
        &&& self.map.wf()
        &&& self.width == self.configuration.width
        &&& self.height == self.configuration.height
        &&& self.map.spec_width() == self.width
        &&& self.map.spec_height() == self.height
    }

    /// What well-formedness says of the simulation as a value.
    pub proof fn lemma_wf(&self)
        requires
            self.wf(),
        ensures
            self@.wf(),
            self@.iterations <= usize::MAX,
    {
    }

    /// Creates a simulation with a freshly generated grid of the configured
    /// size; without a configuration, the default one is used.
    pub fn new(config: Option<Config>) -> (r: Self)
        requires
            config matches Some(c) ==> c.valid(),
        ensures
            r.wf(),
            r@.iterations == 0,
            r@.selected_coordinates is None,
            r@.selected_bot is None,
            config matches Some(c) ==> r@.config == c,
            config is None ==> r@.config == Config::spec_default(),
            forall|x: int, y: int|
                r@.contains(x, y) ==> r@.generated(#[trigger] r@.cells[x][y], x, y),
    {
        let config = match config {
            Some(c) => c,
            None => Config::default(),
        };
        let mut simulation = Simulation {
            width: config.width,
            height: config.height,
            iterations: 0,
            map: Grid::new(config.width, config.height),
            selected_bot_coordinates: None,
            selected_bot: None,
            configuration: config,
        };
        simulation.fill();
        simulation
    }

    /// Fills the grid anew: every cell becomes, independently of the
    /// others, a random living bot with a chance of one in five and empty
    /// otherwise.
    fn fill(&mut self)
        requires
            old(self).configuration.valid(),
            old(self).map.wf(),
            old(self).width == old(self).configuration.width,
            old(self).height == old(self).configuration.height,
            old(self).map.spec_width() == old(self).width,
            old(self).map.spec_height() == old(self).height,
        ensures
            final(self).wf(),
            final(self)@ == (World { cells: final(self)@.cells, ..old(self)@ }),
            forall|x: int, y: int|
                final(self)@.contains(x, y) ==> final(self)@.generated(
                    #[trigger] final(self)@.cells[x][y],
                    x,
                    y,
                ),
    {
        let ghost w = self@;
        let mut y: usize = 0;
        while y < self.height
            invariant
                y <= self.height,
                self.configuration.valid(),
                self.map.wf(),
                self.width == self.configuration.width,
                self.height == self.configuration.height,
                self.map.spec_width() == self.width,
                self.map.spec_height() == self.height,
                self@ == (World { cells: self@.cells, ..w }),
                forall|i: int, j: int|
                    0 <= i < self.width && 0 <= j < y ==> self@.generated(
                        #[trigger] self@.cells[i][j],
                        i,
                        j,
                    ),
            decreases self.height - y,
        {
            let mut x: usize = 0;
            while x < self.width
                invariant
                    x <= self.width,
                    y < self.height,
                    self.configuration.valid(),
                    self.map.wf(),
                    self.width == self.configuration.width,
                    self.height == self.configuration.height,
                    self.map.spec_width() == self.width,
                    self.map.spec_height() == self.height,
                    self@ == (World { cells: self@.cells, ..w }),
                    forall|i: int, j: int|
                        0 <= i < self.width && 0 <= j < y ==> self@.generated(
                            #[trigger] self@.cells[i][j],
                            i,
                            j,
                        ),
                    forall|i: int|
                        0 <= i < x ==> self@.generated(
                            #[trigger] self@.cells[i][y as int],
                            i,
                            y as int,
                        ),
                decreases self.width - x,
            {
                let cell_is_alive = chance(1, 5);
                let bot = Bot::generate(x, y, cell_is_alive, &self.configuration);
                assert(self@.generated(bot, x as int, y as int));
                self.map.set(x, y, bot);
                x += 1;
            }
            y += 1;
        }
    }

    /// Replaces every cell of the grid by a freshly generated one: a random
    /// living bot with a chance of one in five, and empty otherwise.
    pub fn generate_map(&mut self)
        requires
            old(self).wf(),
        ensures
            final(self).wf(),
            final(self)@ == (World { cells: final(self)@.cells, ..old(self)@ }),
            forall|x: int, y: int|
                final(self)@.contains(x, y) ==> final(self)@.generated(
                    #[trigger] final(self)@.cells[x][y],
                    x,
                    y,
                ),
    {
        self.fill();
    }

    /// Starts over: the tick count returns to zero and the grid is
    /// generated anew. The selection stays.
    pub fn reset(&mut self)
        requires
            old(self).wf(),
        ensures
            final(self).wf(),
            final(self)@ == (World { iterations: 0, cells: final(self)@.cells, ..old(self)@ }),
            forall|x: int, y: int|
                final(self)@.contains(x, y) ==> final(self)@.generated(
                    #[trigger] final(self)@.cells[x][y],
                    x,
                    y,
                ),
    {
        self.iterations = 0;
        self.generate_map();
    }

    /// The parameters in force.
    pub fn configuration(&self) -> (r: &Config)
        ensures
            *r == self@.config,
    {
        &self.configuration
    }

    /// Number of ticks completed.
    pub fn iterations(&self) -> (r: usize)
        ensures
            r == self@.iterations,
    {
        self.iterations
    }

    /// The grid.
    pub fn map(&self) -> (r: &Grid<Bot>)
        ensures
            r@ == self@.cells,
            self.wf() ==> r.wf() && r.spec_width() == self@.config.width && r.spec_height()
                == self@.config.height,
    {
        &self.map
    }

    /// Selects the coordinate `(x, y)` and, if it lies on the grid, takes a
    /// copy of the cell there, which is returned. Off the grid the
    /// coordinate is selected all the same, the copy kept so far stays, and
    /// `None` is returned.
    pub fn select_bot(&mut self, x: usize, y: usize) -> (r: Option<Bot>)
        requires
            old(self).wf(),
        ensures
            final(self).wf(),
            r is Some <==> old(self)@.contains(x as int, y as int),
            r is Some ==> r == Some(old(self)@.cells[x as int][y as int]),
            final(self)@ == (World {
                selected_coordinates: Some((x, y)),
                selected_bot: if r is Some {
                    r
                } else {
                    old(self)@.selected_bot
                },
                ..old(self)@
            }),
    {
        self.selected_bot_coordinates = Some((x, y));
        match self.map.get(x, y) {
            Some(cell) => {
                let bot = *cell;
                self.selected_bot = Some(bot);
                Some(bot)
            },
            None => None,
        }
    }

    /// The copy of the selected bot, as the last tick or selection left it.
    pub fn selected_bot(&self) -> (r: Option<Bot>)
        ensures
            r == self@.selected_bot,
    {
        self.selected_bot
    }

    /// The selected coordinate.
    pub fn selected_coordinates(&self) -> (r: Option<(usize, usize)>)
        ensures
            r == self@.selected_coordinates,
    {
        self.selected_bot_coordinates
    }

    /// Whether `bot` can be placed at `(x, y)`: the coordinate lies on the
    /// grid and the bot is well-formed.
    pub fn accepts(&self, x: usize, y: usize, bot: &Bot) -> (r: bool)
        requires
            self.wf(),
        ensures
            r == (self@.contains(x as int, y as int) && bot.wf()),
    {
        x < self.width && y < self.height && bot.is_wf()
    }

    /// Overwrites the cell at `(x, y)` with `bot`, whose coordinates are set
    /// to match.
    pub fn set_cell(&mut self, x: usize, y: usize, bot: Bot)
        requires
            old(self).wf(),
            old(self)@.contains(x as int, y as int),
            bot.wf(),
        ensures
            final(self).wf(),
            final(self)@ == (World {
                cells: put(old(self)@.cells, x as int, y as int, Bot { x, y, ..bot }),
                ..old(self)@
            }),
    {
        let mut bot = bot;
        bot.set_coordinates(x, y);
        self.map.set(x, y, bot);
        assert forall|i: int, j: int| self@.contains(i, j) implies {
            &&& (#[trigger] self@.cells[i][j]).wf()
            &&& self@.cells[i][j].x == i
            &&& self@.cells[i][j].y == j
        } by {
            assert(old(self)@.cells[i][j].wf());
        }
    }

    /// Replaces the parameters, if the new ones are valid and describe a
    /// grid of the present size. Says whether it did.
    pub fn update_config(&mut self, config: Config) -> (r: bool)
        requires
            old(self).wf(),
        ensures
            final(self).wf(),
            r == (config.valid() && config.width == old(self)@.config.width && config.height
                == old(self)@.config.height),
            r ==> final(self)@ == (World { config, ..old(self)@ }),
            !r ==> final(self)@ == old(self)@,
    {
        if config.is_valid() && config.width == self.width && config.height == self.height {
            self.configuration = config;
            assert forall|i: int, j: int| self@.contains(i, j) implies {
                &&& (#[trigger] self@.cells[i][j]).wf()
                &&& self@.cells[i][j].x == i
                &&& self@.cells[i][j].y == j
            } by {
                assert(old(self)@.cells[i][j].wf());
            }
            true
        } else {
            false
        }
    }

    /// Advances the simulation by one tick.
    ///
    /// Every coordinate is visited once, column by column from the left
    /// and, inside a column, from the top down. Each visit updates the bot
    /// found there against the grid as the visits before it have left it.
    pub fn update(&mut self)
        requires
            old(self).wf(),
            old(self)@.iterations < usize::MAX,
        ensures
            final(self).wf(),
            exists|draws: Seq<Option<Mutation>>|
                old(self)@.tick_draws(draws) && final(self)@ == old(self)@.ticked(draws),
            final(self)@.iterations == old(self)@.iterations + 1,
            final(self)@.config == old(self)@.config,
    {
        let ghost start = self@;
        let ghost mut draws: Seq<Option<Mutation>> = Seq::empty();
        let config = self.configuration;
        let mut x: usize = 0;
        while x < self.width
            invariant
                x <= self.width,
                self.wf(),
                start.wf(),
                config == start.config,
                self.configuration == config,
                self.iterations == start.iterations,
                start.iterations < usize::MAX,
                draws.len() == x * self.height,
                forall|k: int| 0 <= k < draws.len() ==> drawable(#[trigger] draws[k], &config),
                self@ == start.scanned(draws),
            decreases self.width - x,
        {
            let mut y: usize = 0;
            while y < self.height
                invariant
                    x < self.width,
                    y <= self.height,
                    self.wf(),
                    start.wf(),
                    config == start.config,
                    self.configuration == config,
                    self.iterations == start.iterations,
                    draws.len() == x * self.height + y,
                    forall|k: int| 0 <= k < draws.len() ==> drawable(#[trigger] draws[k], &config),
                    self@ == start.scanned(draws),
                decreases self.height - y,
            {
                let ghost before = self@;
                let mut bot = *self.map.get(x, y).unwrap();
                let orig_pos = bot.coordinates();
                let ghost visited = bot;

                bot.update(&mut self.map, &config);
                let ghost mutation = choose|mutation: Option<Mutation>|
                    drawable(mutation, &config) && self.map@ == visited.cells_after(
                        before.cells,
                        &config,
                        mutation,
                    );
                proof {
                    lemma_visit_keeps_wf(before, x as int, y as int, mutation);
                }

                // The bot has left its cell: nothing stays behind.
                if orig_pos.0 != bot.x() || orig_pos.1 != bot.y() {
                    self.map.set(orig_pos.0, orig_pos.1, Bot::new_empty(orig_pos.0, orig_pos.1));
                }
                // The selection follows the bot it was made on.
                if let Some(selected) = self.selected_bot_coordinates {
                    if selected.0 == orig_pos.0 && selected.1 == orig_pos.1 {
                        self.selected_bot_coordinates = Some(bot.coordinates());
                        self.selected_bot = Some(bot);
                    }
                }
                self.map.set(bot.x(), bot.y(), bot);

                proof {
                    let k = draws.len() as int;
                    vstd::arithmetic::div_mod::lemma_fundamental_div_mod_converse(
                        k,
                        self.height as int,
                        x as int,
                        y as int,
                    );
                    let longer = draws.push(mutation);
                    assert(longer.drop_last() =~= draws);
                    assert(start.coordinate(k) == (x as int, y as int));
                    assert(self@ == before.visit(x as int, y as int, mutation));
                    draws = longer;
                }
                y += 1;
            }
            proof {
                assert(x * self.height + self.height == (x + 1) * self.height) by (nonlinear_arith);
            }
            x += 1;
        }
        self.iterations += 1;
        proof {
            assert(start.tick_draws(draws));
            assert(self@ == start.ticked(draws));
        }
    }
}

} // verus!
