//! Data model of the pebbles game: configuration, actions, events, errors,
//! and the game state itself with its well-formedness invariant.

use vstd::prelude::*;

verus! {

/// Selects the opponent's move-generation policy.
#[derive(Clone, Copy, Debug, PartialEq, Eq, Structural)]
pub enum DifficultyLevel {
    Easy,
    Hard,
}

/// A participant of the game.
#[derive(Clone, Copy, Debug, PartialEq, Eq, Structural)]
pub enum Player {
    User,
    Program,
}

/// Configuration accepted when a game is created.
#[derive(Clone, Copy, Debug)]
pub struct PebblesInit {
    pub difficulty: DifficultyLevel,
    pub pebbles_count: u32,
    pub max_pebbles_per_turn: u32,
}

/// An inbound request: the single entry point dispatches on this.
#[derive(Clone, Copy, Debug)]
pub enum PebblesAction {
    Turn(u32),
    GiveUp,
    Restart {
        difficulty: DifficultyLevel,
        pebbles_count: u32,
        max_pebbles_per_turn: u32,
    },
}

/// The one outbound notification a successful transition emits.
#[derive(Clone, Copy, Debug, PartialEq, Eq, Structural)]
pub enum PebblesEvent {
    CounterTurn(u32),
    Won(Player),
}

/// Why a request was rejected; the state is left untouched in either case.
#[derive(Clone, Copy, Debug, PartialEq, Eq, Structural)]
pub enum GameError {
    /// `pebbles_count` and `max_pebbles_per_turn` must be positive, with
    /// `max_pebbles_per_turn <= pebbles_count`.
    InvalidConfiguration,
    /// A turn must remove between 1 and `max_pebbles_per_turn` pebbles,
    /// and no more than remain.
    IllegalMove,
}

/// The whole state of one game.
#[derive(Clone, Copy, Debug)]
pub struct PebbleGame {
    /// Total pebbles at game start; fixed until the next restart.
    pub pebbles_count: u32,
    /// Inclusive upper bound on pebbles removed in one move.
    pub max_pebbles_per_turn: u32,
    /// Pebbles still on the pile.
    pub pebbles_remaining: u32,
    /// Pebbles the program removed on its most recent move; reset to 0 at
    /// the start of each user-initiated exchange.
    pub program_lastmove: u32,
    /// The opponent policy this game was created with.
    pub difficulty: DifficultyLevel,
    /// Who moved first this session; recorded at creation or restart.
    pub first_player: Player,
    /// `None` while the game is in progress; set when the pile empties.
    pub winner: Option<Player>,
}

/// A configuration is acceptable when both bounds are positive and a full
/// move can never ask for more pebbles than the pile starts with.
pub open spec fn config_ok(pebbles_count: u32, max_pebbles_per_turn: u32) -> bool {
    1 <= max_pebbles_per_turn <= pebbles_count
}

impl PebbleGame {
    /// Well-formedness of a running game: the pile never exceeds its starting
    /// size, the per-turn bound is within the configuration's limits, and a
    /// winner is recorded exactly while the pile is empty.
    pub open spec fn valid(self) -> bool {
        &&& config_ok(self.pebbles_count, self.max_pebbles_per_turn)
        &&& self.pebbles_remaining <= self.pebbles_count
        &&& (self.winner is Some <==> self.pebbles_remaining == 0)
    }

    /// An immutable snapshot of the current state; never fails, never mutates.
    pub fn read_state(&self) -> (snapshot: PebbleGame)
        ensures
            snapshot == *self,
    {
        *self
    }
}

impl Default for DifficultyLevel {
    fn default() -> (d: DifficultyLevel)
        ensures
            d == DifficultyLevel::Easy,
    {
        DifficultyLevel::Easy
    }
}

impl Default for Player {
    fn default() -> (p: Player)
        ensures
            p == Player::User,
    {
        Player::User
    }
}

impl Default for PebbleGame {
    /// The zeroed snapshot reported when no game was ever created.
    fn default() -> (g: PebbleGame)
        ensures
            g.pebbles_count == 0,
            g.max_pebbles_per_turn == 0,
            g.pebbles_remaining == 0,
            g.program_lastmove == 0,
            g.difficulty == DifficultyLevel::Easy,
            g.first_player == Player::User,
            g.winner is None,
    {
        PebbleGame {
            pebbles_count: 0,
            max_pebbles_per_turn: 0,
            pebbles_remaining: 0,
            program_lastmove: 0,
            difficulty: DifficultyLevel::Easy,
            first_player: Player::User,
            winner: None,
        }
    }
}

} // verus!
