//! A rules engine for Kalah, the two-player sowing game: a board of two
//! sides with up to nine holes each, a store per player, and a move
//! operation that sows a batch of stones, applies the single-stone capture
//! and extra-turn rules, and detects the end of the game.

pub mod game_config;
pub mod game_field;
pub mod game_process;
pub mod laws;
pub mod model;

pub use game_config::GameConfig;
pub use game_field::{Color, GameField, Hole, Side, Size, Stone};
pub use game_process::{GameProcess, GameStatus, LastTurnHole, MoveError, Player};
