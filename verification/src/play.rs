//! What holds of every game that play can reach.
//!
//! A game is reachable when some sequence of attempted moves leads to it
//! from the initial game, the rejected attempts changing nothing.

use crate::board::{
    accept_move, consistent, initial_view, is_move_outcome, lemma_view_determines_state,
    GameState, GameStatus, GameView, MoveError, Player, PlayerMove,
};
use crate::draw::lemma_initial_game_is_a_draw;
use crate::session::{
    awaits_human, lemma_engine_holds_its_ground, lemma_initial_game_awaits_human, turn_outcome,
};
use crate::solver::{
    best_move, lemma_best_move_is_optimal, lemma_optimal_play_reaches_the_value, optimal_play,
};
use vstd::prelude::*;

verus! {

/// The game that the attempts lead to, taken in order from the initial game.
pub open spec fn play(attempts: Seq<(Player, PlayerMove)>) -> GameView
    decreases attempts.len(),
{
    if attempts.len() == 0 {
        initial_view()
    } else {
        let before = play(attempts.drop_last());
        match accept_move(before, attempts.last().0, attempts.last().1) {
            Ok(next) => next,
            Err(_) => before,
        }
    }
}

/// Whether some sequence of attempts leads to `game`.
pub open spec fn reachable(game: GameView) -> bool {
    exists|attempts: Seq<(Player, PlayerMove)>| play(attempts) == game
}

/// The initial game is reachable.
pub proof fn lemma_initial_game_is_reachable()
    ensures
        reachable(initial_view()),
{
    assert(play(Seq::empty()) == initial_view());
}

/// A game that an accepted move leads to from a reachable game is reachable.
pub proof fn lemma_accepted_move_is_reachable(
    game: GameView,
    player: Player,
    player_move: PlayerMove,
)
    requires
        reachable(game),
        accept_move(game, player, player_move) is Ok,
    ensures
        reachable(accept_move(game, player, player_move)->Ok_0),
{
    let attempts = choose|attempts: Seq<(Player, PlayerMove)>| play(attempts) == game;
    let longer = attempts.push((player, player_move));
    assert(longer.drop_last() =~= attempts);
    assert(play(longer) == accept_move(game, player, player_move)->Ok_0);
}

/// An accepted move gives a game whose status is that of its board,
/// whatever the status of the game before said.
pub proof fn lemma_accepted_move_is_consistent(
    game: GameView,
    player: Player,
    player_move: PlayerMove,
)
    requires
        game.cells.len() == 9,
        accept_move(game, player, player_move) is Ok,
    ensures
        consistent(accept_move(game, player, player_move)->Ok_0),
{
}

/// The status of a game that a sequence of attempts leads to is the status
/// of its board.
pub proof fn lemma_play_is_consistent(attempts: Seq<(Player, PlayerMove)>)
    ensures
        consistent(play(attempts)),
    decreases attempts.len(),
{
    if attempts.len() == 0 {
        assert(initial_view().cells[0] is Empty);
    } else {
        lemma_play_is_consistent(attempts.drop_last());
    }
}

/// In every reachable game the status is the status of the board.
pub proof fn lemma_reachable_is_consistent(game: GameView)
    requires
        reachable(game),
    ensures
        game.cells.len() == 9,
        game.status == crate::board::derive_status(game.cells),
{
    let attempts = choose|attempts: Seq<(Player, PlayerMove)>| play(attempts) == game;
    lemma_play_is_consistent(attempts);
}

/// In a reachable game in progress exactly one player may move: some move
/// of the player to move is accepted, and none of the other player.
pub proof fn lemma_one_player_may_move(game: GameView)
    requires
        reachable(game),
        game.status == GameStatus::InProgress,
    ensures
        exists|player_move: PlayerMove| #[trigger]
            accept_move(game, game.to_play, player_move) is Ok,
        forall|player_move: PlayerMove| #[trigger]
            accept_move(game, game.to_play.other(), player_move) == Err::<GameView, MoveError>(
                MoveError::OutOfTurn,
            ),
{
    lemma_reachable_is_consistent(game);
    let i = choose|i: int| 0 <= i < 9 && #[trigger] game.cells[i] is Empty;
    let player_move = PlayerMove::at(i);
    assert(player_move.in_bounds() && player_move.index() == i);
    assert(accept_move(game, game.to_play, player_move) is Ok);
}

/// Only the player to move has a move accepted, and an accepted move passes
/// the turn to the other player.
pub proof fn lemma_turn_alternates(game: GameView, player: Player, player_move: PlayerMove)
    requires
        accept_move(game, player, player_move) is Ok,
    ensures
        player == game.to_play,
        accept_move(game, player, player_move)->Ok_0.to_play == game.to_play.other(),
        accept_move(game, player, player_move)->Ok_0.to_play != game.to_play,
{
}

/// A finished game accepts no move, whoever makes it and wherever: its
/// board changes no more.
pub proof fn lemma_finished_game_accepts_no_move(
    game: GameView,
    player: Player,
    player_move: PlayerMove,
)
    requires
        game.status != GameStatus::InProgress,
    ensures
        accept_move(game, player, player_move) == Err::<GameView, MoveError>(
            MoveError::NotInProgress,
        ),
{
}

/// A move has one outcome: two results for the same game, player and move
/// are the same result, and leave the same game.
pub proof fn lemma_move_has_one_outcome(
    before: GameState,
    player: Player,
    player_move: PlayerMove,
    first: (Result<(), MoveError>, GameState),
    second: (Result<(), MoveError>, GameState),
)
    requires
        is_move_outcome(before, player, player_move, first.0, first.1),
        is_move_outcome(before, player, player_move, second.0, second.1),
    ensures
        first == second,
{
    if accept_move(before@, player, player_move) is Ok {
        lemma_view_determines_state(first.1, second.1);
        assert(first.0->Ok_0 == second.0->Ok_0);
    }
}

/// A move to an occupied square of a game in progress, made in turn, is
/// rejected as such and changes nothing.
pub proof fn lemma_occupied_square_is_refused(
    before: GameState,
    player_move: PlayerMove,
    result: Result<(), MoveError>,
    after: GameState,
)
    requires
        before.status == GameStatus::InProgress,
        player_move.in_bounds(),
        !(before@.cells[player_move.index()] is Empty),
        is_move_outcome(before, before.to_play, player_move, result, after),
    ensures
        result == Err::<(), MoveError>(MoveError::CellOccupied),
        after == before,
{
}

/// The game that the human's moves lead to from the initial game, the
/// engine answering each of them; a turn that fails changes nothing.
pub open spec fn play_against_engine(moves: Seq<PlayerMove>) -> GameView
    decreases moves.len(),
{
    if moves.len() == 0 {
        initial_view()
    } else {
        let before = play_against_engine(moves.drop_last());
        match turn_outcome(before, moves.last()) {
            Ok(next) => next,
            Err(_) => before,
        }
    }
}

/// Whatever the human plays, the engine is never beaten: `X` has not won
/// the game that the human's moves lead to, and while that game goes on it
/// awaits the human in a position that `X` cannot win by force.
pub proof fn lemma_engine_is_never_beaten(moves: Seq<PlayerMove>)
    ensures
        reachable(play_against_engine(moves)),
        play_against_engine(moves).status != GameStatus::Win(Player::X),
        play_against_engine(moves).status == GameStatus::InProgress ==> awaits_human(
            play_against_engine(moves),
        ),
    decreases moves.len(),
{
    if moves.len() == 0 {
        lemma_initial_game_is_reachable();
        lemma_initial_game_awaits_human();
    } else {
        let before = play_against_engine(moves.drop_last());
        lemma_engine_is_never_beaten(moves.drop_last());
        if before.status == GameStatus::InProgress {
            lemma_engine_holds_its_ground(before, moves.last());
            match accept_move(before, Player::X, moves.last()) {
                Ok(after_human) => {
                    lemma_accepted_move_is_reachable(before, Player::X, moves.last());
                    if after_human.status == GameStatus::InProgress {
                        lemma_best_move_is_optimal(after_human.cells, Player::O);
                        let chosen = best_move(after_human.cells, Player::O)->Some_0;
                        lemma_accepted_move_is_reachable(after_human, Player::O, chosen);
                    }
                },
                Err(_) => {},
            }
        }
    }
}

/// When both sides follow the solver from the first move on, the game ends
/// in a draw.
pub proof fn lemma_optimal_play_is_a_draw()
    ensures
        optimal_play(initial_view()).status == GameStatus::Draw,
{
    lemma_initial_game_is_a_draw();
    lemma_initial_game_awaits_human();
    lemma_optimal_play_reaches_the_value(initial_view());
}

} // verus!
