use pebbles_game::DifficultyLevel;
use pebbles_game::GameError;
use pebbles_game::PebbleGame;
use pebbles_game::PebblesAction;
use pebbles_game::PebblesEvent;
use pebbles_game::Player;
use pebbles_game::program_turn_gen;

fn easy_init(total: u32, turn_max: u32) -> pebbles_game::PebblesInit {
    pebbles_game::PebblesInit {
        difficulty: DifficultyLevel::Easy,
        pebbles_count: total,
        max_pebbles_per_turn: turn_max,
    }
}

#[test]
fn invalid_configuration_is_refused() {
    // The per-turn bound may not exceed the pile, and both must be positive.
    assert_eq!(
        PebbleGame::initialize(easy_init(3, 5), 0, 0, 0).unwrap_err(),
        GameError::InvalidConfiguration
    );
    assert_eq!(
        PebbleGame::initialize(easy_init(10, 0), 0, 0, 0).unwrap_err(),
        GameError::InvalidConfiguration
    );
    assert_eq!(
        PebbleGame::initialize(easy_init(0, 0), 0, 0, 0).unwrap_err(),
        GameError::InvalidConfiguration
    );
}

#[test]
fn restart_with_bad_configuration_keeps_state() {
    let (mut game, _) = PebbleGame::initialize(easy_init(10, 3), 0, 0, 0).unwrap();
    let before = game.read_state();
    let err = game
        .apply_action(
            PebblesAction::Restart {
                difficulty: DifficultyLevel::Hard,
                pebbles_count: 2,
                max_pebbles_per_turn: 5,
            },
            1,
            4,
            4,
        )
        .unwrap_err();
    assert_eq!(err, GameError::InvalidConfiguration);
    let after = game.read_state();
    assert_eq!(after.pebbles_count, before.pebbles_count);
    assert_eq!(after.max_pebbles_per_turn, before.max_pebbles_per_turn);
    assert_eq!(after.pebbles_remaining, before.pebbles_remaining);
    assert_eq!(after.difficulty, before.difficulty);
}

#[test]
fn illegal_turns_are_refused_and_change_nothing() {
    let (mut game, _) = PebbleGame::initialize(easy_init(10, 3), 0, 0, 0).unwrap();
    let before = game.read_state();

    // Too few, too many, and more than remain.
    for count in [0u32, 4, 11] {
        let err = game.apply_action(PebblesAction::Turn(count), 0, 1, 1).unwrap_err();
        assert_eq!(err, GameError::IllegalMove);
        let after = game.read_state();
        assert_eq!(after.pebbles_remaining, before.pebbles_remaining);
        assert_eq!(after.program_lastmove, before.program_lastmove);
        assert_eq!(after.winner, before.winner);
    }

    // The boundary itself is legal.
    game.apply_action(PebblesAction::Turn(3), 0, 0, 0).unwrap();
}

#[test]
fn opponent_opens_on_odd_draw() {
    // An odd first-play draw lets the opponent move at once: draw 2 removes
    // 2 % 3 + 1 = 3 pebbles and announces the counter move.
    let (game, event) = PebbleGame::initialize(easy_init(101, 3), 1, 2, 0).unwrap();
    assert_eq!(game.first_player, Player::Program);
    assert_eq!(game.pebbles_remaining, 98);
    assert_eq!(game.program_lastmove, 3);
    assert_eq!(event, PebblesEvent::CounterTurn(3));
}

#[test]
fn turn_accounting_is_exact() {
    // After a successful turn the pile shrank by the user's count plus the
    // opponent's recorded answer, and the answer is within its bounds.
    let (mut game, _) = PebbleGame::initialize(easy_init(101, 3), 0, 0, 0).unwrap();
    let before = game.read_state().pebbles_remaining;
    game.apply_action(PebblesAction::Turn(1), 0, 6, 0).unwrap();
    let state = game.read_state();
    assert!(state.program_lastmove >= 1 && state.program_lastmove <= 3);
    assert_eq!(state.pebbles_remaining, before - 1 - state.program_lastmove);
}

#[test]
fn opponent_move_is_always_in_bounds() {
    // Whatever word the policy draws, the opponent removes between 1 and
    // min(max_per_turn, what remains).
    for draw in 0u32..40 {
        let (game, _) = PebbleGame::initialize(easy_init(10, 3), 1, draw, draw).unwrap();
        assert!(game.program_lastmove >= 1);
        assert!(game.program_lastmove <= 3);
        assert_eq!(game.pebbles_remaining, 10 - game.program_lastmove);
    }
}

#[test]
fn policy_easy_uses_first_draw() {
    assert_eq!(program_turn_gen(DifficultyLevel::Easy, 3, 5, 9), 3); // 5 % 3 + 1
    assert_eq!(program_turn_gen(DifficultyLevel::Easy, 3, 6, 9), 1); // 6 % 3 + 1
    assert_eq!(program_turn_gen(DifficultyLevel::Easy, 1, 7, 9), 1);
}

#[test]
fn policy_hard_always_rerolls() {
    // The re-roll guard always passes, so only the second draw counts.
    assert_eq!(program_turn_gen(DifficultyLevel::Hard, 4, 0, 6), 3); // 6 % 4 + 1
    assert_eq!(program_turn_gen(DifficultyLevel::Hard, 4, 3, 0), 1);
    assert_eq!(program_turn_gen(DifficultyLevel::Hard, 5, 17, 9), 5); // 9 % 5 + 1
}

#[test]
fn user_wins_when_opening_a_three_pile() {
    // A pile of 3 with a bound of 1 is fully deterministic: whoever opens,
    // every move removes one pebble, and the opener of the exchange wins.
    let (mut game, event) = PebbleGame::initialize(easy_init(3, 1), 0, 0, 0).unwrap();
    assert_eq!(event, PebblesEvent::CounterTurn(0));

    let event = game.apply_action(PebblesAction::Turn(1), 0, 0, 0).unwrap();
    assert_eq!(event, PebblesEvent::CounterTurn(1));
    assert_eq!(game.read_state().pebbles_remaining, 1);

    let event = game.apply_action(PebblesAction::Turn(1), 0, 0, 0).unwrap();
    assert_eq!(event, PebblesEvent::Won(Player::User));
    let state = game.read_state();
    assert_eq!(state.pebbles_remaining, 0);
    assert_eq!(state.winner, Some(Player::User));
}

#[test]
fn program_wins_when_opening_a_three_pile() {
    let (mut game, event) = PebbleGame::initialize(easy_init(3, 1), 1, 0, 0).unwrap();
    assert_eq!(event, PebblesEvent::CounterTurn(1));
    assert_eq!(game.first_player, Player::Program);
    assert_eq!(game.pebbles_remaining, 2);

    let event = game.apply_action(PebblesAction::Turn(1), 0, 0, 0).unwrap();
    assert_eq!(event, PebblesEvent::Won(Player::Program));
    let state = game.read_state();
    assert_eq!(state.pebbles_remaining, 0);
    assert_eq!(state.winner, Some(Player::Program));
}

#[test]
fn opponent_answer_is_clamped_to_the_pile() {
    // After the user takes 3 of 5, the opponent's candidate 3 exceeds the
    // 2 that remain and is clamped: it takes both and wins.
    let (mut game, _) = PebbleGame::initialize(easy_init(5, 3), 0, 0, 0).unwrap();
    let event = game.apply_action(PebblesAction::Turn(3), 0, 2, 0).unwrap();
    assert_eq!(event, PebblesEvent::Won(Player::Program));
    let state = game.read_state();
    assert_eq!(state.pebbles_remaining, 0);
    assert_eq!(state.program_lastmove, 2);
    assert_eq!(state.winner, Some(Player::Program));
}

#[test]
fn giving_up_on_a_finished_game_keeps_it_finished() {
    // Once the pile is empty the opponent's move is clamped to nothing and
    // the game stays finished, with the opponent recorded as winner.
    let (mut game, _) = PebbleGame::initialize(easy_init(2, 2), 0, 0, 0).unwrap();
    let event = game.apply_action(PebblesAction::Turn(2), 0, 0, 0).unwrap();
    assert_eq!(event, PebblesEvent::Won(Player::User));

    let event = game.apply_action(PebblesAction::GiveUp, 0, 1, 1).unwrap();
    assert_eq!(event, PebblesEvent::Won(Player::Program));
    let state = game.read_state();
    assert_eq!(state.pebbles_remaining, 0);
    assert_eq!(state.program_lastmove, 0);
    assert_eq!(state.winner, Some(Player::Program));

    // Any further turn is refused outright.
    let err = game.apply_action(PebblesAction::Turn(1), 0, 0, 0).unwrap_err();
    assert_eq!(err, GameError::IllegalMove);
}

#[test]
fn restart_replaces_a_finished_session() {
    let (mut game, _) = PebbleGame::initialize(easy_init(2, 2), 0, 0, 0).unwrap();
    game.apply_action(PebblesAction::Turn(2), 0, 0, 0).unwrap();
    assert_eq!(game.read_state().winner, Some(Player::User));

    // An even first-play draw leaves the fresh pile untouched.
    game.apply_action(
        PebblesAction::Restart {
            difficulty: DifficultyLevel::Hard,
            pebbles_count: 50,
            max_pebbles_per_turn: 3,
        },
        0,
        0,
        0,
    )
    .unwrap();
    let state = game.read_state();
    assert_eq!(state.pebbles_count, 50);
    assert_eq!(state.max_pebbles_per_turn, 3);
    assert_eq!(state.pebbles_remaining, 50);
    assert_eq!(state.difficulty, DifficultyLevel::Hard);
    assert_eq!(state.winner, None);
    assert_eq!(state.program_lastmove, 0);
    assert_eq!(state.first_player, Player::User);
}

#[test]
fn default_state_is_zeroed() {
    let state = PebbleGame::default();
    assert_eq!(state.pebbles_count, 0);
    assert_eq!(state.max_pebbles_per_turn, 0);
    assert_eq!(state.pebbles_remaining, 0);
    assert_eq!(state.program_lastmove, 0);
    assert_eq!(state.difficulty, DifficultyLevel::Easy);
    assert_eq!(state.first_player, Player::User);
    assert_eq!(state.winner, None);
}
