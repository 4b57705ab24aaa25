//! The one capability the engine consumes from its host: a 32-bit random
//! word. The functions here draw the words a transition may need and hand
//! them to the verified engine, so every property that does not depend on
//! the drawn values is proved of every outcome.

use vstd::prelude::*;

use crate::engine::action_step;
use crate::engine::init_step;
use crate::engine::turn_legal;
use crate::types::config_ok;
use crate::types::GameError;
use crate::types::PebbleGame;
use crate::types::PebblesAction;
use crate::types::PebblesEvent;
use crate::types::PebblesInit;

verus! {

/// One 32-bit word of host randomness. Relies on `gstd::msg::id` for the
/// salt and on `gstd::exec::random` for the drawn hash, of which the first
/// four bytes are read little-endian. The host chooses the value, so
/// nothing is promised of it.
#[verifier::external_body]
pub fn get_random_u32() -> u32 {
    let salt = gstd::msg::id();
    let (hash, _num) = gstd::exec::random(salt.into_bytes()).expect(
        "Failed to generate random number",
    );
    u32::from_le_bytes([hash[0], hash[1], hash[2], hash[3]])
}

/// Creates a game from `init`, drawing the opening words from the host's
/// randomness. Acceptance does not depend on the draws: a configuration
/// within bounds always yields a game, one outside them never does; and
/// whatever was drawn, the game produced is some well-formed outcome of
/// the initialization transition.
pub fn init_game(init: PebblesInit) -> (r: Result<(PebbleGame, PebblesEvent), GameError>)
    ensures
        r is Err <==> !config_ok(init.pebbles_count, init.max_pebbles_per_turn),
        r is Err ==> r == Err::<(PebbleGame, PebblesEvent), GameError>(
            GameError::InvalidConfiguration,
        ),
        r matches Ok((game, event)) ==> {
            &&& game.valid()
            &&& game.pebbles_count == init.pebbles_count
            &&& game.max_pebbles_per_turn == init.max_pebbles_per_turn
            &&& game.difficulty == init.difficulty
            &&& exists|rp: u32, r1: u32, r2: u32| (game, event) == init_step(init, rp, r1, r2)
        },
{
    let rp = get_random_u32();
    let r1 = get_random_u32();
    let r2 = get_random_u32();
    PebbleGame::initialize(init, rp, r1, r2)
}

/// Dispatches one inbound action, drawing the words the transition may
/// need from the host's randomness. Whether the action is accepted does
/// not depend on the draws; whatever was drawn, the state committed is
/// some well-formed outcome of the action's transition, and a refused
/// action leaves the state exactly as it was.
pub fn handle_action(game: &mut PebbleGame, action: PebblesAction) -> (r: Result<
    PebblesEvent,
    GameError,
>)
    requires
        old(game).valid() || action is Restart,
    ensures
        r is Err ==> *final(game) == *old(game),
        r is Ok ==> final(game).valid(),
        r is Ok ==> (final(game).winner is Some <==> final(game).pebbles_remaining == 0),
        action matches PebblesAction::Turn(count) ==> (r is Err <==> !turn_legal(
            *old(game),
            count,
        )),
        action matches PebblesAction::Turn(count) ==> (r is Ok
            ==> final(game).pebbles_remaining + count + final(game).program_lastmove == old(
            game,
        ).pebbles_remaining),
        action is GiveUp ==> r is Ok,
        action matches PebblesAction::Restart { pebbles_count, max_pebbles_per_turn, .. } ==> (
        r is Ok <==> config_ok(pebbles_count, max_pebbles_per_turn)),
        exists|rp: u32, r1: u32, r2: u32|
            (match #[trigger] action_step(*old(game), action, rp, r1, r2) {
                Ok((s2, event)) => r == Ok::<PebblesEvent, GameError>(event) && *final(game) == s2,
                Err(e) => r == Err::<PebblesEvent, GameError>(e) && *final(game) == *old(game),
            }),
{
    let rp = get_random_u32();
    let r1 = get_random_u32();
    let r2 = get_random_u32();
    game.apply_action(action, rp, r1, r2)
}

} // verus!
