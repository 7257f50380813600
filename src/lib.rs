//! Simulation core of a tile-based exploration game: terrain grids and the
//! map catalog, actors, branching dialogue, a two-party combat exchange, a
//! bounded message log, and the mode machine that routes commands to them.

pub mod terrain;
pub mod text;
pub mod item;
pub mod grid;
pub mod catalog;
pub mod dialogue;
pub mod actor;
pub mod log;
pub mod game;
pub mod laws;
