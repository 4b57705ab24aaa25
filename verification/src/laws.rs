//! The global guarantees of the state machine, stated over the
//! specification-level transition functions and proved once and for all.

use vstd::arithmetic::div_mod::lemma_mod_bound;
use vstd::prelude::*;

use crate::engine::action_step;
use crate::engine::init_step;
use crate::engine::program_move_count;
use crate::engine::program_step;
use crate::types::config_ok;
use crate::types::DifficultyLevel;
use crate::types::PebbleGame;
use crate::types::PebblesAction;
use crate::types::PebblesInit;

verus! {

/// Law: the opponent's candidate move always lies in `[1, max_per_turn]`,
/// whatever the draws were.
pub proof fn lemma_move_count_bounds(
    difficulty: DifficultyLevel,
    max_per_turn: u32,
    r1: u32,
    r2: u32,
)
    requires
        max_per_turn >= 1,
    ensures
        1 <= program_move_count(difficulty, max_per_turn, r1, r2) <= max_per_turn,
{
    lemma_mod_bound(r1 as int, max_per_turn as int);
    lemma_mod_bound(r2 as int, max_per_turn as int);
}

/// Law: an opponent move carries a well-formed state to a well-formed
/// state, whatever the draws were.
pub proof fn lemma_program_step_valid(s: PebbleGame, r1: u32, r2: u32)
    requires
        s.valid(),
    ensures
        program_step(s, r1, r2).0.valid(),
{
    lemma_move_count_bounds(s.difficulty, s.max_pebbles_per_turn, r1, r2);
}

/// Law: a game produced by a successful initialization is well formed:
/// the pile is within its starting size, the per-turn bound is within the
/// configuration's limits, and a winner is recorded exactly while the pile
/// is empty.
pub proof fn lemma_init_valid(init: PebblesInit, rp: u32, r1: u32, r2: u32)
    requires
        config_ok(init.pebbles_count, init.max_pebbles_per_turn),
    ensures
        init_step(init, rp, r1, r2).0.valid(),
{
    lemma_move_count_bounds(init.difficulty, init.max_pebbles_per_turn, r1, r2);
}

/// Law: every action either is refused, leaving the state as it was, or
/// carries a well-formed state to a well-formed state. Together with the
/// previous law this makes well-formedness an invariant of every
/// reachable state.
pub proof fn lemma_action_preserves_valid(
    s: PebbleGame,
    action: PebblesAction,
    rp: u32,
    r1: u32,
    r2: u32,
)
    requires
        s.valid() || action is Restart,
    ensures
        (match action_step(s, action, rp, r1, r2) {
            Ok((s2, _)) => s2.valid(),
            Err(_) => true,
        }),
{
    match action {
        PebblesAction::Turn(count) => {
            lemma_move_count_bounds(s.difficulty, s.max_pebbles_per_turn, r1, r2);
        },
        PebblesAction::GiveUp => {
            lemma_move_count_bounds(s.difficulty, s.max_pebbles_per_turn, r1, r2);
        },
        PebblesAction::Restart { difficulty, pebbles_count, max_pebbles_per_turn } => {
            if config_ok(pebbles_count, max_pebbles_per_turn) {
                lemma_move_count_bounds(difficulty, max_pebbles_per_turn, r1, r2);
            }
        },
    }
}

/// Law: from a state still in play, a successful action records a winner
/// exactly when it empties the pile — never before, never later.
pub proof fn lemma_winner_exactly_at_empty(
    s: PebbleGame,
    action: PebblesAction,
    rp: u32,
    r1: u32,
    r2: u32,
)
    requires
        s.valid(),
        s.pebbles_remaining > 0,
    ensures
        (match action_step(s, action, rp, r1, r2) {
            Ok((s2, _)) => s2.winner is Some <==> s2.pebbles_remaining == 0,
            Err(_) => true,
        }),
{
    lemma_action_preserves_valid(s, action, rp, r1, r2);
}

/// Law: once the pile is empty a winner stays recorded; no action short of
/// a restart brings the game back into play.
pub proof fn lemma_finished_stays_finished(
    s: PebbleGame,
    action: PebblesAction,
    rp: u32,
    r1: u32,
    r2: u32,
)
    requires
        s.valid(),
        s.pebbles_remaining == 0,
        !(action is Restart),
    ensures
        (match action_step(s, action, rp, r1, r2) {
            Ok((s2, _)) => s2.winner is Some && s2.pebbles_remaining == 0,
            Err(_) => true,
        }),
{
    lemma_move_count_bounds(s.difficulty, s.max_pebbles_per_turn, r1, r2);
}

} // verus!
