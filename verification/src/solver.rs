//! The exhaustive game-tree search and the engine's turn.
//!
//! `X` is the maximising side and `O` the minimising side. A finished game
//! is worth 10 when `X` has won, -10 when `O` has won and 0 when it is
//! drawn; a game in progress is worth the best of the values that the player
//! to move can reach with one move.

use crate::board::{
    accept_move, consistent, derive_status, empty_count, successor, try_move, Cell, GameState,
    GameStatus, GameView, MoveError, Player, PlayerMove,
};
use vstd::prelude::*;

verus! {

/// The solver found no move although the game is still in progress.
#[derive(Clone, Copy, Debug, PartialEq, Eq, Structural)]
pub enum SolverError {
    SolverExhausted,
}

/// Why a turn of the engine failed.
#[derive(Clone, Copy, Debug, PartialEq, Eq, Structural)]
pub enum Error {
    /// The move that the solver chose was rejected.
    Move(MoveError),
    /// The solver chose no move.
    Solver(SolverError),
}

/// The worth of a finished game; 0 for a game in progress.
pub open spec fn score_of(status: GameStatus) -> int {
    match status {
        GameStatus::Win(Player::X) => 10,
        GameStatus::Win(Player::O) => -10,
        _ => 0,
    }
}

/// The board after `player` has taken the cell with index `i`.
pub open spec fn place(cells: Seq<Cell>, i: int, player: Player) -> Seq<Cell> {
    cells.update(i, Cell::Occupied(player))
}

/// Whether `player` likes the value `a` strictly better than the value `b`.
pub open spec fn prefers(player: Player, a: int, b: int) -> bool {
    match player {
        Player::X => a > b,
        Player::O => a < b,
    }
}

/// The game-theoretic value of a board with `player` to move.
pub open spec fn game_value(cells: Seq<Cell>, player: Player) -> int
    decreases empty_count(cells), 10int,
{
    if cells.len() != 9 {
        0
    } else {
        match derive_status(cells) {
            GameStatus::InProgress => match best_in_prefix(cells, player, 9) {
                Some((value, _)) => value,
                None => 0,
            },
            finished => score_of(finished),
        }
    }
}

/// The value that `player` reaches by taking the empty cell with index `i`.
pub open spec fn reply_value(cells: Seq<Cell>, player: Player, i: int) -> int
    recommends
        cells.len() == 9,
        0 <= i < 9,
        cells[i] is Empty,
{
    game_value(place(cells, i, player), player.other())
}

/// The best value that `player` reaches by taking one of the empty cells
/// with an index below `n`, and the first cell that reaches it; `None` when
/// none of these cells is empty.
pub open spec fn best_in_prefix(cells: Seq<Cell>, player: Player, n: int) -> Option<(int, int)>
    decreases empty_count(cells), n,
{
    if cells.len() != 9 || n <= 0 || n > 9 {
        None
    } else {
        let earlier = best_in_prefix(cells, player, n - 1);
        if cells[n - 1] is Empty {
            let value = game_value(place(cells, n - 1, player), player.other());
            match earlier {
                Some((best, _)) if !prefers(player, value, best) => earlier,
                _ => Some((value, n - 1)),
            }
        } else {
            earlier
        }
    }
}

/// The move that the solver chooses: none on a finished board, else the
/// first cell in row-major order that reaches the value of the board.
pub open spec fn best_move(cells: Seq<Cell>, player: Player) -> Option<PlayerMove> {
    if cells.len() != 9 || derive_status(cells) != GameStatus::InProgress {
        None
    } else {
        match best_in_prefix(cells, player, 9) {
            Some((_, i)) => Some(PlayerMove::at(i)),
            None => None,
        }
    }
}

/// Taking an empty cell leaves one empty cell fewer.
pub proof fn lemma_place_fills_a_cell(cells: Seq<Cell>, i: int, player: Player)
    requires
        cells.len() == 9,
        0 <= i < 9,
        cells[i] is Empty,
    ensures
        place(cells, i, player).len() == 9,
        empty_count(place(cells, i, player)) + 1 == empty_count(cells),
{
}

/// What `best_in_prefix` finds: nothing exactly when no cell below `n` is
/// empty; else an empty cell below `n` whose value no other such cell
/// improves on and no earlier one reaches.
pub proof fn lemma_best_in_prefix(cells: Seq<Cell>, player: Player, n: int)
    requires
        cells.len() == 9,
        0 <= n <= 9,
    ensures
        match best_in_prefix(cells, player, n) {
            None => forall|i: int| 0 <= i < n ==> !(#[trigger] cells[i] is Empty),
            Some((value, first)) => {
                &&& 0 <= first < n
                &&& cells[first] is Empty
                &&& value == reply_value(cells, player, first)
                &&& forall|i: int|
                    0 <= i < n && cells[i] is Empty ==> !prefers(
                        player,
                        #[trigger] reply_value(cells, player, i),
                        value,
                    )
                &&& forall|i: int|
                    0 <= i < first && cells[i] is Empty ==> #[trigger] reply_value(cells, player, i)
                        != value
            },
        },
    decreases n,
{
    if n > 0 {
        lemma_best_in_prefix(cells, player, n - 1);
    }
}

/// Every value is -10, 0 or 10.
pub proof fn lemma_game_value_range(cells: Seq<Cell>, player: Player)
    ensures
        game_value(cells, player) == -10 || game_value(cells, player) == 0 || game_value(
            cells,
            player,
        ) == 10,
    decreases empty_count(cells),
{
    if cells.len() == 9 && derive_status(cells) == GameStatus::InProgress {
        lemma_best_in_prefix(cells, player, 9);
        match best_in_prefix(cells, player, 9) {
            Some((_, first)) => {
                lemma_place_fills_a_cell(cells, first, player);
                lemma_game_value_range(place(cells, first, player), player.other());
            },
            None => {},
        }
    }
}

/// On a board in progress the solver chooses an empty square that reaches
/// the value of the board. No square reaches a value that the player to move
/// likes better, and no earlier square reaches the same value.
pub proof fn lemma_best_move_is_optimal(cells: Seq<Cell>, player: Player)
    requires
        cells.len() == 9,
        derive_status(cells) == GameStatus::InProgress,
    ensures
        best_move(cells, player) is Some,
        ({
            let chosen = best_move(cells, player)->Some_0;
            let value = game_value(cells, player);
            &&& chosen.in_bounds()
            &&& cells[chosen.index()] is Empty
            &&& reply_value(cells, player, chosen.index()) == value
            &&& forall|i: int|
                0 <= i < 9 && cells[i] is Empty ==> !prefers(
                    player,
                    #[trigger] reply_value(cells, player, i),
                    value,
                )
            &&& forall|i: int|
                0 <= i < chosen.index() && cells[i] is Empty ==> #[trigger] reply_value(
                    cells,
                    player,
                    i,
                ) != value
        }),
{
    lemma_best_in_prefix(cells, player, 9);
    let first = best_in_prefix(cells, player, 9)->Some_0.1;
    assert(PlayerMove::at(first).index() == first);
}

/// The value of a finished board is its score.
pub proof fn lemma_finished_value(cells: Seq<Cell>, player: Player)
    requires
        cells.len() == 9,
        derive_status(cells) != GameStatus::InProgress,
    ensures
        game_value(cells, player) == score_of(derive_status(cells)),
{
}

/// The game in which, from `game` on, each player in turn makes the move
/// that the solver chooses, until the game is finished.
pub open spec fn optimal_play(game: GameView) -> GameView
    decreases empty_count(game.cells),
{
    if !consistent(game) || game.status != GameStatus::InProgress {
        game
    } else {
        match best_move(game.cells, game.to_play) {
            Some(chosen) => {
                proof {
                    lemma_best_move_is_optimal(game.cells, game.to_play);
                }
                optimal_play(successor(game, chosen.index()))
            },
            None => game,
        }
    }
}

/// Play in which both sides follow the solver ends with the result that the
/// value of the game announces.
pub proof fn lemma_optimal_play_reaches_the_value(game: GameView)
    requires
        consistent(game),
    ensures
        consistent(optimal_play(game)),
        optimal_play(game).status != GameStatus::InProgress,
        score_of(optimal_play(game).status) == game_value(game.cells, game.to_play),
    decreases empty_count(game.cells),
{
    if game.status == GameStatus::InProgress {
        lemma_best_move_is_optimal(game.cells, game.to_play);
        let chosen = best_move(game.cells, game.to_play)->Some_0;
        lemma_place_fills_a_cell(game.cells, chosen.index(), game.to_play);
        lemma_optimal_play_reaches_the_value(successor(game, chosen.index()));
    }
}

/// Searches the whole game tree below `game_state`.
///
/// Returns the value of the board for the player to move and, while the
/// board is still in progress, the first square in row-major order that
/// reaches this value. The `status` field is not consulted: the status is
/// computed from the board.
pub fn minimax(game_state: &GameState) -> (result: (i32, Option<PlayerMove>))
    ensures
        result.0 == game_value(game_state@.cells, game_state.to_play),
        result.1 == best_move(game_state@.cells, game_state.to_play),
    decreases empty_count(game_state@.cells),
{
    match game_state.check_status() {
        GameStatus::Win(winner) => {
            return if winner == Player::X {
                (10, None)
            } else {
                (-10, None)
            };
        },
        GameStatus::Draw => {
            return (0, None);
        },
        GameStatus::InProgress => (),
    }
    let ghost cells = game_state@.cells;
    let player = game_state.to_play;
    let mut best: Option<(i32, PlayerMove)> = None;
    let mut i: usize = 0;
    while i < 9
        invariant
            i <= 9,
            cells == game_state@.cells,
            player == game_state.to_play,
            match best_in_prefix(cells, player, i as int) {
                Some((value, first)) => best == Some((value as i32, PlayerMove::at(first)))
                    && -10 <= value <= 10,
                None => best is None,
            },
        decreases 9 - i,
    {
        let row: usize = i / 3;
        let col: usize = i % 3;
        if game_state.board[row][col] == Cell::Empty {
            let mut new_state = *game_state;
            new_state.board[row][col] = Cell::Occupied(player);
            new_state.to_play = player.opponent();
            proof {
                assert(new_state@.cells =~= place(cells, i as int, player));
                lemma_place_fills_a_cell(cells, i as int, player);
                lemma_game_value_range(place(cells, i as int, player), player.other());
            }
            let (score, _) = minimax(&new_state);
            let improves = match best {
                Some((value, _)) => match player {
                    Player::X => score > value,
                    Player::O => score < value,
                },
                None => true,
            };
            if improves {
                best = Some((score, PlayerMove { row, col }));
            }
        }
        i += 1;
    }
    match best {
        Some((value, first)) => (value, Some(first)),
        None => (0, None),
    }
}

/// What the engine's turn does to a game: nothing to a finished game; else
/// the move that the solver chooses is applied for `O`.
pub open spec fn optimal_reply(game: GameView) -> Result<GameView, Error> {
    if game.status != GameStatus::InProgress {
        Ok(game)
    } else {
        match best_move(game.cells, game.to_play) {
            Some(chosen) => match accept_move(game, Player::O, chosen) {
                Ok(next) => Ok(next),
                Err(e) => Err(Error::Move(e)),
            },
            None => Err(Error::Solver(SolverError::SolverExhausted)),
        }
    }
}

/// Plays the engine's turn.
///
/// A finished game is left as it is. In a game in progress the solver's move
/// is applied for `O`; the turn fails when the solver finds no move or when
/// its move is rejected, and the game is then left as it was.
pub fn do_optimal_move(game_state: &mut GameState) -> (result: Result<(), Error>)
    ensures
        match optimal_reply(old(game_state)@) {
            Ok(next) => result is Ok && final(game_state)@ == next,
            Err(e) => result == Err::<(), Error>(e) && *final(game_state) == *old(game_state),
        },
        old(game_state).status != GameStatus::InProgress ==> *final(game_state) == *old(game_state),
{
    if game_state.status != GameStatus::InProgress {
        return Ok(());
    }
    let (_, optimal_move) = minimax(game_state);
    if let Some(player_move) = optimal_move {
        match try_move(game_state, Player::O, player_move) {
            Ok(()) => Ok(()),
            Err(e) => Err(Error::Move(e)),
        }
    } else {
        Err(Error::Solver(SolverError::SolverExhausted))
    }
}

/// In a game in progress whose status is that of its board, with `O` to
/// move, the engine's turn succeeds, and the game that results has the same
/// value for `X` as the game before had for `O`.
pub proof fn lemma_engine_turn_succeeds(game: GameView)
    requires
        consistent(game),
        game.status == GameStatus::InProgress,
        game.to_play == Player::O,
    ensures
        optimal_reply(game) is Ok,
        consistent(optimal_reply(game)->Ok_0),
        optimal_reply(game)->Ok_0.to_play == Player::X,
        game_value(optimal_reply(game)->Ok_0.cells, Player::X) == game_value(
            game.cells,
            Player::O,
        ),
{
    lemma_best_move_is_optimal(game.cells, Player::O);
}

} // verus!
