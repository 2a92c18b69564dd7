//! An artificial-life cellular automaton.
//!
//! A toroidal grid holds one cell per coordinate. A cell is empty, holds a
//! living bot, or holds the remains of a dead one. Every living bot carries a
//! genome of [`GENOME_LENGTH`] genes and executes exactly one of them per
//! tick: it turns, moves, gathers energy, trades energy with the cell it
//! faces, branches on what it sees, or reproduces.
//!
//! Energy is counted in whole units ([`Energy`]). A gain or a cost that
//! would leave the range of the type stops at its nearest end, and a
//! transfer between two cells moves no more than both can hold, so that it
//! neither creates nor destroys energy. Random choices are drawn from the
//! thread's generator, and every rule that consumes such a choice is also
//! available as a function that takes the choice as an argument.

pub mod energy;
pub mod config;
pub mod direction;
mod random;
pub mod color;
pub mod gene;
pub mod grid;
pub mod bot;
pub mod simulation;
pub mod renderer;
pub mod runner;

pub use config::{Config, GENOME_LENGTH};
pub use direction::Direction;
pub use energy::Energy;
