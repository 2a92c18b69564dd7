use cell_simulation::bot::Bot;
use cell_simulation::color::Color;
use cell_simulation::config::Config;
use cell_simulation::direction::Direction;
use cell_simulation::gene::Instruction;
use cell_simulation::renderer::RenderingMode;
use cell_simulation::runner::{Cmd, SimulationRunner, Step, IDLE_MILLIS, TPS_WINDOW_MILLIS};
use cell_simulation::simulation::Simulation;

fn config() -> Config {
    Config {
        width: 3,
        height: 3,
        cell_size: 8,
        mutation_percent: 0,
        start_energy: 50,
        reproduction_required_energy: 1000,
        cell_max_age: 100,
        photosynthesis_energy: 10,
        attack_energy: 4,
        movement_cost: 1,
        noop_cost: 1,
    }
}

fn shown(energy: i64, age: u32) -> Bot {
    let mut bot = Bot::new_empty(0, 0);
    bot.alive = true;
    bot.empty = false;
    bot.energy = energy;
    bot.age = age;
    bot.color = Color::new(1, 2, 3);
    bot
}

fn blank_runner() -> SimulationRunner {
    let mut runner = SimulationRunner::new(Simulation::new(Some(config())));
    for x in 0..3 {
        for y in 0..3 {
            runner.handle_command(Cmd::SetCell(x, y, Bot::new_empty(0, 0)));
        }
    }
    runner
}

fn grower() -> Bot {
    let mut bot = shown(50, 0);
    bot.direction = Direction::Up;
    for gene in bot.genome.iter_mut() {
        gene.instruction = Instruction::Photosynthesis;
    }
    bot
}

#[test]
fn the_normal_mode_shows_the_own_colour() {
    assert_eq!(RenderingMode::Normal.render(&shown(5, 5), &config()), Color::new(1, 2, 3));
}

#[test]
fn the_energy_mode_shows_yellow_below_five_thresholds() {
    let mode = RenderingMode::Energy;
    // A tenth of the threshold: five tenths of full yellow.
    assert_eq!(mode.render(&shown(100, 0), &config()), Color::new(127, 127, 0));
    assert_eq!(mode.render(&shown(1, 0), &config()), Color::new(1, 1, 0));
    assert_eq!(mode.render(&shown(0, 0), &config()), Color::new(0, 0, 0));
    assert_eq!(mode.render(&shown(-100, 0), &config()), Color::new(0, 0, 0));
    assert_eq!(mode.render(&shown(199, 0), &config()), Color::new(253, 253, 0));
    assert_eq!(mode.render(&shown(200, 0), &config()), Color::new(255, 255, 0));
    assert_eq!(mode.render(&shown(4999, 0), &config()), Color::new(255, 255, 0));
}

#[test]
fn the_energy_mode_shows_green_from_five_thresholds_on() {
    let mode = RenderingMode::Energy;
    assert_eq!(mode.render(&shown(5000, 0), &config()), Color::new(0, 0, 0));
    assert_eq!(mode.render(&shown(5000 + 999, 0), &config()), Color::new(0, 0, 0));
    assert_eq!(mode.render(&shown(5000 + 1000, 0), &config()), Color::new(0, 1, 0));
    assert_eq!(mode.render(&shown(5000 + 100_000, 0), &config()), Color::new(0, 100, 0));
    assert_eq!(mode.render(&shown(5000 + 255_000, 0), &config()), Color::new(0, 255, 0));
    assert_eq!(mode.render(&shown(i64::MAX, 0), &config()), Color::new(0, 255, 0));
}

#[test]
fn the_lifetime_mode_shows_red_by_age() {
    let mode = RenderingMode::Lifetime;
    assert_eq!(mode.render(&shown(5, 0), &config()), Color::new(10, 0, 0));
    assert_eq!(mode.render(&shown(5, 50), &config()), Color::new(10 + 122, 0, 0));
    assert_eq!(mode.render(&shown(5, 99), &config()), Color::new(10 + 242, 0, 0));
    assert_eq!(mode.render(&shown(5, 100), &config()), Color::new(255, 0, 0));
    assert_eq!(mode.render(&shown(5, 101), &config()), Color::new(255, 0, 0));
    let ageless = Config { cell_max_age: 0, ..config() };
    assert_eq!(mode.render(&shown(5, 0), &ageless), Color::new(255, 0, 0));
}

#[test]
fn a_new_runner_is_paused() {
    let runner = blank_runner();
    assert!(runner.is_paused());
    assert_eq!(runner.tps(), 0);
    assert_eq!(runner.target_tps(), None);
    assert_eq!(runner.simulation().iterations(), 0);
    assert_eq!(IDLE_MILLIS, 10);
    assert_eq!(TPS_WINDOW_MILLIS, 1000);
}

#[test]
fn a_paused_runner_makes_no_tick() {
    let mut runner = blank_runner();
    runner.handle_command(Cmd::SetCell(1, 1, grower()));
    assert_eq!(runner.advance(), Step::Idle);
    assert_eq!(runner.simulation().iterations(), 0);
    assert_eq!(runner.simulation().map().get(1, 1).unwrap().energy, 50);
}

#[test]
fn a_running_runner_ticks() {
    let mut runner = blank_runner();
    runner.handle_command(Cmd::SetCell(1, 1, grower()));
    assert!(!runner.handle_command(Cmd::TogglePause));
    assert!(!runner.is_paused());
    assert_eq!(runner.advance(), Step::Ticked);
    assert_eq!(runner.advance(), Step::Ticked);
    assert_eq!(runner.simulation().iterations(), 2);
    assert_eq!(runner.simulation().map().get(1, 1).unwrap().energy, 50 + 2 * 9);
    runner.handle_command(Cmd::TogglePause);
    assert!(runner.is_paused());
    assert_eq!(runner.advance(), Step::Idle);
}

#[test]
fn a_placed_cell_gets_its_coordinates() {
    let mut runner = blank_runner();
    runner.handle_command(Cmd::SetCell(2, 0, grower()));
    let cell = runner.simulation().map().get(2, 0).unwrap();
    assert!(cell.alive);
    assert_eq!(cell.coordinates(), (2, 0));
}

#[test]
fn a_cell_that_cannot_be_placed_is_refused() {
    let mut runner = blank_runner();
    runner.handle_command(Cmd::SetCell(3, 0, grower()));
    runner.handle_command(Cmd::SetCell(0, 3, grower()));
    let mut malformed = grower();
    malformed.instruction_pointer = 40;
    runner.handle_command(Cmd::SetCell(1, 1, malformed));
    for x in 0..3 {
        for y in 0..3 {
            assert!(runner.simulation().map().get(x, y).unwrap().empty);
        }
    }
}

#[test]
fn selecting_by_command() {
    let mut runner = blank_runner();
    runner.handle_command(Cmd::SetCell(2, 0, grower()));
    assert!(!runner.handle_command(Cmd::SelectCell(2, 0)));
    assert_eq!(runner.simulation().selected_coordinates(), Some((2, 0)));
    assert_eq!(runner.simulation().selected_bot().unwrap().energy, 50);
    runner.handle_command(Cmd::SelectCell(9, 9));
    assert_eq!(runner.simulation().selected_coordinates(), Some((9, 9)));
    assert_eq!(runner.simulation().selected_bot().unwrap().energy, 50);
}

#[test]
fn a_reset_begins_a_new_window() {
    let mut runner = blank_runner();
    runner.handle_command(Cmd::TogglePause);
    runner.advance();
    runner.advance();
    assert!(runner.measure_tps(1001));
    assert_eq!(runner.tps(), 2);
    assert!(runner.handle_command(Cmd::Reset));
    assert_eq!(runner.tps(), 0);
    assert_eq!(runner.simulation().iterations(), 0);
    assert!(!runner.is_paused());
    runner.advance();
    assert!(runner.measure_tps(2000));
    assert_eq!(runner.tps(), 1);
}

#[test]
fn the_rate_is_measured_once_a_second() {
    let mut runner = blank_runner();
    runner.handle_command(Cmd::TogglePause);
    for _ in 0..7 {
        runner.advance();
    }
    assert!(!runner.measure_tps(999));
    assert!(!runner.measure_tps(1000));
    assert_eq!(runner.tps(), 0);
    assert!(runner.measure_tps(1001));
    assert_eq!(runner.tps(), 7);
    for _ in 0..3 {
        runner.advance();
    }
    assert!(runner.measure_tps(5000));
    assert_eq!(runner.tps(), 3);
    assert!(runner.measure_tps(5000));
    assert_eq!(runner.tps(), 0);
}

#[test]
fn the_target_rate() {
    let mut runner = blank_runner();
    assert_eq!(runner.rest_micros(0), 0);
    runner.handle_command(Cmd::SetTargetTps(Some(50)));
    assert_eq!(runner.target_tps(), Some(50));
    assert_eq!(runner.rest_micros(0), 20_000);
    assert_eq!(runner.rest_micros(5_000), 15_000);
    assert_eq!(runner.rest_micros(20_000), 0);
    assert_eq!(runner.rest_micros(u64::MAX), 0);
    runner.handle_command(Cmd::SetTargetTps(Some(3)));
    assert_eq!(runner.rest_micros(1), 333_332);
    // A rate of zero is refused.
    runner.handle_command(Cmd::SetTargetTps(Some(0)));
    assert_eq!(runner.target_tps(), Some(3));
    runner.handle_command(Cmd::SetTargetTps(None));
    assert_eq!(runner.target_tps(), None);
    assert_eq!(runner.rest_micros(1), 0);
}

#[test]
fn parameters_by_command() {
    let mut runner = blank_runner();
    let richer = Config { photosynthesis_energy: 99, ..config() };
    runner.handle_command(Cmd::UpdateConfig(richer));
    assert_eq!(*runner.simulation().configuration(), richer);
    runner.handle_command(Cmd::UpdateConfig(Config { width: 4, ..config() }));
    assert_eq!(*runner.simulation().configuration(), richer);
}

#[test]
fn a_snapshot_holds_what_the_runner_holds() {
    let mut runner = blank_runner();
    runner.handle_command(Cmd::SetCell(1, 1, grower()));
    runner.handle_command(Cmd::SelectCell(1, 1));
    runner.handle_command(Cmd::TogglePause);
    runner.advance();
    runner.measure_tps(1500);
    let snapshot = runner.construct_metadata();
    runner.advance();
    assert_eq!(snapshot.iterations, 1);
    assert_eq!(snapshot.tps, 1);
    assert!(!snapshot.paused);
    assert_eq!(snapshot.config, config());
    assert_eq!(snapshot.selected_bot.unwrap().energy, 59);
    assert_eq!(snapshot.map.get(1, 1).unwrap().energy, 59);
    assert_eq!(runner.simulation().map().get(1, 1).unwrap().energy, 68);
    let copy = snapshot.clone();
    assert_eq!(copy.iterations, 1);
    assert_eq!(copy.map.get(1, 1).unwrap().energy, 59);
}
