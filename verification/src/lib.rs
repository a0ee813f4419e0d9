//! Decision kernels for two turn-based puzzle bots: a locator that closes in
//! on a hidden cell of a grid from compass hints, and an arbitrator that picks
//! one move for several hurdle races that run side by side.

pub mod arbitration;
pub mod convergence;
pub mod direction;
pub mod game;
pub mod game_turn;
pub mod lineup;
pub mod moves;
pub mod player;
pub mod progress;
pub mod safety;
pub mod score;
pub mod search_area;
pub mod text;
pub mod track;
