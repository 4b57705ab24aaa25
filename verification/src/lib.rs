//! A verified pebbles game engine: a user and an automated opponent take
//! turns removing pebbles from a pile, and whoever removes the last pebble
//! wins. The engine owns initialization, move validation, turn alternation,
//! win detection and restart semantics; the host supplies randomness and
//! carries the notifications.

pub mod engine;
pub mod host;
pub mod laws;
pub mod types;

pub use engine::program_turn_gen;
pub use host::get_random_u32;
pub use host::handle_action;
pub use host::init_game;
pub use types::DifficultyLevel;
pub use types::GameError;
pub use types::PebbleGame;
pub use types::PebblesAction;
pub use types::PebblesEvent;
pub use types::PebblesInit;
pub use types::Player;
