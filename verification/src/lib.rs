//! Simulation core of a top-down arcade shooter.
//!
//! A ship in the middle of a rectangular field fires projectiles at enemies
//! that drift in from the edges. Hits pay coins, and coins buy items that
//! change the settings of the game. The game advances one action at a time
//! through [`game::Game::step`]; [`GameModel`] wraps a game for a host that
//! wants to show it.
//!
//! Every rule is stated over integers. Lengths, positions, speeds, the score
//! and probabilities are fixed-point numbers in thousandths of a unit (see
//! [`units`]), so that a step is exact and the same on every machine. What
//! the rules leave to chance is drawn with the `rand` crate (see [`random`]);
//! the ids of enemies and projectiles come from the `unique_id` crate (see
//! [`ids`]).
//!
//! The contracts are stated over views: [`game::GameView`] is what a game
//! holds, [`game::GameView::after`] is the game after an action, and
//! [`game::laws`] holds what follows for every step.

pub mod enemy;
pub mod error_message;
pub mod game;
pub mod game_ressources;
pub mod game_settings;
pub mod ids;
pub mod model;
pub mod positioned;
pub mod projectile;
pub mod random;
pub mod shop;
pub mod units;

pub use crate::model::GameModel;
