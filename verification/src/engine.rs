//! The game engine: move validation, turn alternation, win detection and
//! restart semantics, each pinned to a specification-level transition
//! function. Randomness is injected: every operation that may draw from the
//! host's random source takes the drawn words as arguments, so the whole
//! transition is a function of its inputs.

use vstd::arithmetic::div_mod::lemma_mod_bound;
use vstd::prelude::*;

use crate::types::config_ok;
use crate::types::DifficultyLevel;
use crate::types::GameError;
use crate::types::PebbleGame;
use crate::types::PebblesAction;
use crate::types::PebblesEvent;
use crate::types::PebblesInit;
use crate::types::Player;

verus! {

/// What the move-generation policy returns for the two policy draws `r1`
/// and `r2`. `Easy` uses the first draw. `Hard` draws once, then re-rolls
/// whenever half the first candidate is below the bound — which always
/// holds, since the candidate itself is already below the bound — so its
/// answer comes from the second draw.
pub open spec fn turn_gen_spec(
    difficulty: DifficultyLevel,
    max_per_turn: u32,
    r1: u32,
    r2: u32,
) -> int
    recommends
        max_per_turn >= 1,
{
    match difficulty {
        DifficultyLevel::Easy => r1 % max_per_turn + 1,
        DifficultyLevel::Hard => r2 % max_per_turn + 1,
    }
}

/// The candidate count of the opponent's move, before clamping: 1 when no
/// choice exists, otherwise whatever the policy generates.
pub open spec fn program_move_count(
    difficulty: DifficultyLevel,
    max_per_turn: u32,
    r1: u32,
    r2: u32,
) -> int
    recommends
        max_per_turn >= 1,
{
    if max_per_turn == 1 {
        1
    } else {
        turn_gen_spec(difficulty, max_per_turn, r1, r2)
    }
}

/// The count the opponent actually removes: the candidate, clamped to the
/// pebbles still on the pile.
pub open spec fn clamped_move_count(s: PebbleGame, r1: u32, r2: u32) -> int
    recommends
        s.max_pebbles_per_turn >= 1,
{
    let candidate = program_move_count(s.difficulty, s.max_pebbles_per_turn, r1, r2);
    if candidate <= s.pebbles_remaining {
        candidate
    } else {
        s.pebbles_remaining as int
    }
}

/// One opponent move on `s`: the clamped count leaves the pile and is
/// recorded; if the pile empties, the opponent is the winner.
pub open spec fn program_step(s: PebbleGame, r1: u32, r2: u32) -> (PebbleGame, PebblesEvent)
    recommends
        s.max_pebbles_per_turn >= 1,
{
    let count = clamped_move_count(s, r1, r2);
    let remaining = (s.pebbles_remaining - count) as u32;
    let s2 = (PebbleGame {
        pebbles_remaining: remaining,
        program_lastmove: count as u32,
        winner: if remaining == 0 {
            Some(Player::Program)
        } else {
            s.winner
        },
        ..s
    });
    let event = if remaining == 0 {
        PebblesEvent::Won(Player::Program)
    } else {
        PebblesEvent::CounterTurn(count as u32)
    };
    (s2, event)
}

impl PebbleGame {
    /// Whether `count` lies in the window a single turn may remove.
    pub fn is_valid_move(&self, count: u32) -> (legal: bool)
        ensures
            legal == (1 <= count <= self.max_pebbles_per_turn),
    {
        1 <= count && count <= self.max_pebbles_per_turn
    }

    /// The opponent's candidate move: 1 when only one count is legal,
    /// otherwise the policy's choice for the injected draws.
    pub fn calculate_program_move(&self, r1: u32, r2: u32) -> (count: u32)
        requires
            self.max_pebbles_per_turn >= 1,
        ensures
            count == program_move_count(self.difficulty, self.max_pebbles_per_turn, r1, r2),
            1 <= count <= self.max_pebbles_per_turn,
    {
        if self.max_pebbles_per_turn != 1 {
            program_turn_gen(self.difficulty, self.max_pebbles_per_turn, r1, r2)
        } else {
            1
        }
    }

    /// Performs one opponent move and reports its outcome: the win
    /// notification when the pile empties, otherwise the counter move.
    ///
    /// The removal count always lies in `[1, min(max_per_turn, remaining)]`
    /// while any pebbles remain, so the opponent can neither pass nor
    /// over-remove.
    pub fn program_move(&mut self, r1: u32, r2: u32) -> (event: PebblesEvent)
        requires
            old(self).max_pebbles_per_turn >= 1,
        ensures
            (*final(self), event) == program_step(*old(self), r1, r2),
            old(self).pebbles_remaining >= 1 ==> {
                &&& 1 <= final(self).program_lastmove
                &&& final(self).program_lastmove <= old(self).max_pebbles_per_turn
                &&& final(self).program_lastmove <= old(self).pebbles_remaining
            },
            final(self).pebbles_remaining
                == old(self).pebbles_remaining - final(self).program_lastmove,
            final(self).pebbles_remaining == 0 ==> final(self).winner == Some(Player::Program),
            final(self).pebbles_remaining > 0 ==> final(self).winner == old(self).winner,
            old(self).valid() ==> final(self).valid(),
    {
        let candidate = self.calculate_program_move(r1, r2);
        let count = if candidate <= self.pebbles_remaining {
            candidate
        } else {
            self.pebbles_remaining
        };
        self.pebbles_remaining = self.pebbles_remaining - count;
        self.program_lastmove = count;

        if self.pebbles_remaining == 0 {
            self.winner = Some(Player::Program);
            PebblesEvent::Won(Player::Program)
        } else {
            PebblesEvent::CounterTurn(count)
        }
    }
}

/// Whether removing `count` pebbles is a legal turn in state `s`.
pub open spec fn turn_legal(s: PebbleGame, count: u32) -> bool {
    &&& 1 <= count <= s.max_pebbles_per_turn
    &&& count <= s.pebbles_remaining
}

/// One legal user turn on `s`: `count` pebbles leave the pile; emptying it
/// makes the user the winner, anything else hands the move to the opponent.
pub open spec fn user_turn_step(s: PebbleGame, count: u32, r1: u32, r2: u32) -> (
    PebbleGame,
    PebblesEvent,
)
    recommends
        turn_legal(s, count),
{
    let remaining = (s.pebbles_remaining - count) as u32;
    if remaining == 0 {
        (
            (PebbleGame { pebbles_remaining: 0, winner: Some(Player::User), ..s }),
            PebblesEvent::Won(Player::User),
        )
    } else {
        program_step(PebbleGame { pebbles_remaining: remaining, ..s }, r1, r2)
    }
}

/// The state a restart installs before anyone has moved: the new
/// configuration with a full pile, no winner and no recorded opponent move.
pub open spec fn reset_state(
    s: PebbleGame,
    difficulty: DifficultyLevel,
    pebbles_count: u32,
    max_pebbles_per_turn: u32,
) -> PebbleGame {
    PebbleGame {
        pebbles_count,
        max_pebbles_per_turn,
        pebbles_remaining: pebbles_count,
        program_lastmove: 0,
        difficulty,
        first_player: s.first_player,
        winner: None,
    }
}

/// The first-play draw: an even word lets the user open (nothing is
/// removed, a zero-valued turn notification goes out), an odd word records
/// the opponent as first player and lets it move at once.
pub open spec fn first_play_step(s: PebbleGame, rp: u32, r1: u32, r2: u32) -> (
    PebbleGame,
    PebblesEvent,
)
    recommends
        s.max_pebbles_per_turn >= 1,
{
    if rp % 2 == 0 {
        ((PebbleGame { first_player: Player::User, ..s }), PebblesEvent::CounterTurn(0))
    } else {
        program_step(PebbleGame { first_player: Player::Program, ..s }, r1, r2)
    }
}

/// A successful restart: the state is replaced wholesale by the new
/// configuration and the first-play draw decides who opens.
pub open spec fn restart_step(
    s: PebbleGame,
    difficulty: DifficultyLevel,
    pebbles_count: u32,
    max_pebbles_per_turn: u32,
    rp: u32,
    r1: u32,
    r2: u32,
) -> (PebbleGame, PebblesEvent)
    recommends
        config_ok(pebbles_count, max_pebbles_per_turn),
{
    first_play_step(reset_state(s, difficulty, pebbles_count, max_pebbles_per_turn), rp, r1, r2)
}

/// The state a fresh game starts from, before the first-play draw.
pub open spec fn initial_state(init: PebblesInit) -> PebbleGame {
    PebbleGame {
        pebbles_count: init.pebbles_count,
        max_pebbles_per_turn: init.max_pebbles_per_turn,
        pebbles_remaining: init.pebbles_count,
        program_lastmove: 0,
        difficulty: init.difficulty,
        first_player: Player::User,
        winner: None,
    }
}

/// A successful initialization: the fresh state, with the first-play draw
/// applied.
pub open spec fn init_step(init: PebblesInit, rp: u32, r1: u32, r2: u32) -> (
    PebbleGame,
    PebblesEvent,
)
    recommends
        config_ok(init.pebbles_count, init.max_pebbles_per_turn),
{
    first_play_step(initial_state(init), rp, r1, r2)
}

/// The single state-transition relation: what each action does to `s`, or
/// the error it is refused with. The recorded opponent move is cleared at
/// the start of every exchange; a refused action leaves the state exactly
/// as it was.
pub open spec fn action_step(s: PebbleGame, action: PebblesAction, rp: u32, r1: u32, r2: u32) -> Result<
    (PebbleGame, PebblesEvent),
    GameError,
>
    recommends
        s.max_pebbles_per_turn >= 1 || action is Restart,
{
    match action {
        PebblesAction::Turn(count) => {
            if turn_legal(s, count) {
                Ok(user_turn_step(PebbleGame { program_lastmove: 0, ..s }, count, r1, r2))
            } else {
                Err(GameError::IllegalMove)
            }
        },
        PebblesAction::GiveUp => Ok(program_step(PebbleGame { program_lastmove: 0, ..s }, r1, r2)),
        PebblesAction::Restart { difficulty, pebbles_count, max_pebbles_per_turn } => {
            if config_ok(pebbles_count, max_pebbles_per_turn) {
                Ok(restart_step(s, difficulty, pebbles_count, max_pebbles_per_turn, rp, r1, r2))
            } else {
                Err(GameError::InvalidConfiguration)
            }
        },
    }
}

impl PebbleGame {
    /// Creates a game from `init` and plays the opening: who moves first
    /// comes from the parity of `rp`, and an opponent opening consumes the
    /// policy draws `r1`, `r2`. A configuration outside the allowed bounds
    /// is refused whole: no game is produced.
    pub fn initialize(init: PebblesInit, rp: u32, r1: u32, r2: u32) -> (r: Result<
        (PebbleGame, PebblesEvent),
        GameError,
    >)
        ensures
            r is Err <==> !config_ok(init.pebbles_count, init.max_pebbles_per_turn),
            r is Err ==> r == Err::<(PebbleGame, PebblesEvent), GameError>(
                GameError::InvalidConfiguration,
            ),
            r matches Ok((game, event)) ==> {
                &&& (game, event) == init_step(init, rp, r1, r2)
                &&& game.valid()
                &&& game.pebbles_count == init.pebbles_count
                &&& game.max_pebbles_per_turn == init.max_pebbles_per_turn
                &&& game.difficulty == init.difficulty
            },
    {
        if !(1 <= init.max_pebbles_per_turn && init.max_pebbles_per_turn <= init.pebbles_count) {
            return Err(GameError::InvalidConfiguration);
        }
        let mut game = PebbleGame {
            pebbles_count: init.pebbles_count,
            max_pebbles_per_turn: init.max_pebbles_per_turn,
            pebbles_remaining: init.pebbles_count,
            program_lastmove: 0,
            difficulty: init.difficulty,
            first_player: Player::User,
            winner: None,
        };
        let event = game.first_play(rp, r1, r2);
        Ok((game, event))
    }

    /// Removes `count` pebbles for the user. An illegal count — zero, above
    /// the per-turn bound, or above what remains — is refused with
    /// `IllegalMove` and the state is left untouched. A legal move that
    /// empties the pile wins the game for the user; otherwise the opponent
    /// answers at once.
    pub fn user_move(&mut self, count: u32, r1: u32, r2: u32) -> (r: Result<
        PebblesEvent,
        GameError,
    >)
        ensures
            r is Err <==> !turn_legal(*old(self), count),
            r is Err ==> *final(self) == *old(self) && r == Err::<PebblesEvent, GameError>(
                GameError::IllegalMove,
            ),
            r matches Ok(event) ==> (*final(self), event) == user_turn_step(
                *old(self),
                count,
                r1,
                r2,
            ),
            old(self).valid() && r is Ok ==> final(self).valid(),
    {
        if !self.is_valid_move(count) {
            return Err(GameError::IllegalMove);
        }
        if count > self.pebbles_remaining {
            return Err(GameError::IllegalMove);
        }
        self.pebbles_remaining = self.pebbles_remaining - count;

        if self.pebbles_remaining == 0 {
            self.winner = Some(Player::User);
            Ok(PebblesEvent::Won(Player::User))
        } else {
            Ok(self.program_move(r1, r2))
        }
    }

    /// Plays the opening of a fresh session: an even `rp` records the user
    /// as first player and only announces their turn; an odd `rp` records
    /// the opponent and lets it move immediately.
    pub fn first_play(&mut self, rp: u32, r1: u32, r2: u32) -> (event: PebblesEvent)
        requires
            old(self).max_pebbles_per_turn >= 1,
        ensures
            (*final(self), event) == first_play_step(*old(self), rp, r1, r2),
            rp % 2 == 0 ==> *final(self) == (PebbleGame {
                first_player: Player::User,
                ..*old(self)
            }) && event == PebblesEvent::CounterTurn(0),
            rp % 2 != 0 ==> final(self).first_player == Player::Program,
            old(self).valid() ==> final(self).valid(),
    {
        if rp % 2 == 0 {
            self.first_player = Player::User;
            PebblesEvent::CounterTurn(0)
        } else {
            self.first_player = Player::Program;
            self.program_move(r1, r2)
        }
    }

    /// Replaces the whole session with a new configuration, then plays the
    /// opening. A configuration outside the allowed bounds is refused with
    /// `InvalidConfiguration` and the old state is kept unchanged.
    pub fn restart(
        &mut self,
        difficulty: DifficultyLevel,
        pebbles_count: u32,
        max_pebbles_per_turn: u32,
        rp: u32,
        r1: u32,
        r2: u32,
    ) -> (r: Result<PebblesEvent, GameError>)
        ensures
            r is Err <==> !config_ok(pebbles_count, max_pebbles_per_turn),
            r is Err ==> *final(self) == *old(self) && r == Err::<PebblesEvent, GameError>(
                GameError::InvalidConfiguration,
            ),
            r matches Ok(event) ==> (*final(self), event) == restart_step(
                *old(self),
                difficulty,
                pebbles_count,
                max_pebbles_per_turn,
                rp,
                r1,
                r2,
            ),
            r is Ok ==> {
                &&& final(self).valid()
                &&& final(self).pebbles_count == pebbles_count
                &&& final(self).max_pebbles_per_turn == max_pebbles_per_turn
                &&& final(self).difficulty == difficulty
            },
            r is Ok && rp % 2 == 0 ==> {
                &&& final(self).winner is None
                &&& final(self).program_lastmove == 0
                &&& final(self).pebbles_remaining == pebbles_count
                &&& final(self).first_player == Player::User
            },
    {
        if !(1 <= max_pebbles_per_turn && max_pebbles_per_turn <= pebbles_count) {
            return Err(GameError::InvalidConfiguration);
        }
        self.difficulty = difficulty;
        self.pebbles_count = pebbles_count;
        self.max_pebbles_per_turn = max_pebbles_per_turn;
        self.pebbles_remaining = self.pebbles_count;
        self.winner = None;
        self.program_lastmove = 0;
        Ok(self.first_play(rp, r1, r2))
    }

    /// The single entry point for inbound requests: dispatches `action`,
    /// drawing who opens (after a restart) from `rp` and the opponent's
    /// policy from `r1`, `r2`. A refused action reports its error and
    /// leaves the state exactly as it was; a successful one commits the
    /// full transition and returns the one notification it emits.
    pub fn apply_action(&mut self, action: PebblesAction, rp: u32, r1: u32, r2: u32) -> (r: Result<
        PebblesEvent,
        GameError,
    >)
        requires
            old(self).valid() || action is Restart,
        ensures
            (match action_step(*old(self), action, rp, r1, r2) {
                Ok((s2, event)) => r == Ok::<PebblesEvent, GameError>(event) && *final(self) == s2,
                Err(e) => r == Err::<PebblesEvent, GameError>(e) && *final(self) == *old(self),
            }),
            r is Err ==> *final(self) == *old(self),
            r is Ok ==> final(self).valid(),
            r is Ok ==> (final(self).winner is Some <==> final(self).pebbles_remaining == 0),
            action matches PebblesAction::Turn(count) ==> (r is Err <==> !turn_legal(
                *old(self),
                count,
            )),
            action matches PebblesAction::Turn(count) ==> (r is Ok
                ==> final(self).pebbles_remaining + count + final(self).program_lastmove == old(
                self,
            ).pebbles_remaining),
            action is GiveUp ==> r is Ok,
            action matches PebblesAction::Restart { pebbles_count, max_pebbles_per_turn, .. } ==> (
            r is Ok <==> config_ok(pebbles_count, max_pebbles_per_turn)),
    {
        match action {
            PebblesAction::Turn(count) => {
                if self.is_valid_move(count) && count <= self.pebbles_remaining {
                    self.program_lastmove = 0;
                    self.user_move(count, r1, r2)
                } else {
                    Err(GameError::IllegalMove)
                }
            },
            PebblesAction::GiveUp => {
                self.program_lastmove = 0;
                Ok(self.program_move(r1, r2))
            },
            PebblesAction::Restart { difficulty, pebbles_count, max_pebbles_per_turn } => {
                self.restart(difficulty, pebbles_count, max_pebbles_per_turn, rp, r1, r2)
            },
        }
    }
}

/// The move-generation policy for the injected draws `r1` and `r2`: uniform
/// in `[1, max_per_turn]` under `Easy`; under `Hard` the first candidate is
/// discarded by a re-roll test that can never fail, and the second draw
/// decides.
pub fn program_turn_gen(
    difficulty: DifficultyLevel,
    max_per_turn: u32,
    r1: u32,
    r2: u32,
) -> (count: u32)
    requires
        max_per_turn >= 1,
    ensures
        count == turn_gen_spec(difficulty, max_per_turn, r1, r2),
        1 <= count <= max_per_turn,
{
    proof {
        lemma_mod_bound(r1 as int, max_per_turn as int);
        lemma_mod_bound(r2 as int, max_per_turn as int);
    }
    match difficulty {
        DifficultyLevel::Easy => (r1 % max_per_turn) + 1,
        DifficultyLevel::Hard => {
            let mut count: u32 = r1 % max_per_turn;
            if count / 2 < max_per_turn {
                count = r2 % max_per_turn;
            }
            count + 1
        },
    }
}

} // verus!
