//! The board, the players and the rules that decide what a move does.
//!
//! Executable values are plain data: a 3×3 array of cells, a status and the
//! player to move. Contracts speak of the *view* of a game, in which the
//! board is the sequence of its nine cells in row-major order, so that the
//! cell in row `r` and column `c` has index `3 * r + c`.

use vstd::prelude::*;

verus! {

/// One of the two players. `X` moves first and is the side a human plays;
/// `O` is the side the engine plays.
#[derive(Clone, Copy, Debug, PartialEq, Eq, Structural)]
pub enum Player {
    X,
    O,
}

impl Player {
    /// The other player.
    pub open spec fn other(self) -> Player {
        match self {
            Player::X => Player::O,
            Player::O => Player::X,
        }
    }

    /// Returns the other player.
    pub fn opponent(&self) -> (other: Player)
        ensures
            other == self.other(),
    {
        match self {
            Player::X => Player::O,
            Player::O => Player::X,
        }
    }
}

/// The opponent of a player's opponent is the player, and nobody is their
/// own opponent.
pub proof fn lemma_other_is_an_involution(player: Player)
    ensures
        player.other().other() == player,
        player.other() != player,
{
}

/// The content of one square of the board.
#[derive(Clone, Copy, Debug, PartialEq, Eq, Structural)]
pub enum Cell {
    Empty,
    Occupied(Player),
}

/// The outcome of a game so far. It is a function of the board alone.
#[derive(Clone, Copy, Debug, PartialEq, Eq, Structural)]
pub enum GameStatus {
    InProgress,
    Draw,
    Win(Player),
}

/// The 3×3 grid, indexed by row and then by column.
pub type GameBoard = [[Cell; 3]; 3];

/// A game: the board, the status derived from it and the player to move.
#[derive(Clone, Copy, Debug)]
pub struct GameState {
    pub board: GameBoard,
    pub status: GameStatus,
    pub to_play: Player,
}

/// A square addressed by row and column, each in `0..3`.
#[derive(Clone, Copy, Debug, PartialEq, Eq, Structural)]
pub struct PlayerMove {
    pub row: usize,
    pub col: usize,
}

/// Why a move was rejected.
#[derive(Clone, Copy, Debug, PartialEq, Eq, Structural)]
pub enum MoveError {
    /// The game has already ended in a win or a draw.
    NotInProgress,
    /// The acting player is not the player to move.
    OutOfTurn,
    /// The target square is already taken.
    CellOccupied,
    /// The row or the column is not in `0..3`.
    OutOfBounds,
}

/// The mathematical model of a game.
#[verifier::ext_equal]
pub struct GameView {
    /// The nine cells in row-major order.
    pub cells: Seq<Cell>,
    pub status: GameStatus,
    pub to_play: Player,
}

/// The nine cells of a board in row-major order.
pub open spec fn board_cells(board: GameBoard) -> Seq<Cell> {
    Seq::new(9, |i: int| board[i / 3][i % 3])
}

impl View for GameState {
    type V = GameView;

    open spec fn view(&self) -> GameView {
        GameView { cells: board_cells(self.board), status: self.status, to_play: self.to_play }
    }
}

impl PlayerMove {
    /// Whether the move addresses a square of the board.
    pub open spec fn in_bounds(self) -> bool {
        self.row < 3 && self.col < 3
    }

    /// The row-major index of the addressed square.
    pub open spec fn index(self) -> int {
        3 * self.row + self.col
    }

    /// The move that addresses the square with row-major index `i`.
    pub open spec fn at(i: int) -> PlayerMove {
        PlayerMove { row: (i / 3) as usize, col: (i % 3) as usize }
    }
}

/// 1 for an empty cell, 0 for an occupied one.
pub open spec fn vacancy(cell: Cell) -> nat {
    if cell is Empty {
        1
    } else {
        0
    }
}

/// The number of empty cells among the nine.
pub open spec fn empty_count(cells: Seq<Cell>) -> nat {
    vacancy(cells[0]) + vacancy(cells[1]) + vacancy(cells[2]) + vacancy(cells[3]) + vacancy(
        cells[4],
    ) + vacancy(cells[5]) + vacancy(cells[6]) + vacancy(cells[7]) + vacancy(cells[8])
}

/// Whether no cell is empty.
pub open spec fn is_full(cells: Seq<Cell>) -> bool {
    forall|i: int| 0 <= i < 9 ==> !(#[trigger] cells[i] is Empty)
}

/// The player who holds all three of the cells `a`, `b` and `c`, if any.
pub open spec fn line_owner(cells: Seq<Cell>, a: int, b: int, c: int) -> Option<Player> {
    match cells[a] {
        Cell::Occupied(p) if cells[b] == cells[a] && cells[c] == cells[a] => Some(p),
        _ => None,
    }
}

/// The player who holds all of row `r`, if any.
pub open spec fn row_owner(cells: Seq<Cell>, r: int) -> Option<Player> {
    line_owner(cells, 3 * r, 3 * r + 1, 3 * r + 2)
}

/// The player who holds all of column `c`, if any.
pub open spec fn column_owner(cells: Seq<Cell>, c: int) -> Option<Player> {
    line_owner(cells, c, c + 3, c + 6)
}

/// The owner of the first completed line, the eight lines being taken in the
/// order rows, columns, main diagonal, anti-diagonal.
pub open spec fn winner(cells: Seq<Cell>) -> Option<Player> {
    if row_owner(cells, 0) is Some {
        row_owner(cells, 0)
    } else if row_owner(cells, 1) is Some {
        row_owner(cells, 1)
    } else if row_owner(cells, 2) is Some {
        row_owner(cells, 2)
    } else if column_owner(cells, 0) is Some {
        column_owner(cells, 0)
    } else if column_owner(cells, 1) is Some {
        column_owner(cells, 1)
    } else if column_owner(cells, 2) is Some {
        column_owner(cells, 2)
    } else if line_owner(cells, 0, 4, 8) is Some {
        line_owner(cells, 0, 4, 8)
    } else {
        line_owner(cells, 2, 4, 6)
    }
}

/// The status that a board has: won by the owner of the first completed
/// line, else drawn if it is full, else still in progress.
pub open spec fn derive_status(cells: Seq<Cell>) -> GameStatus {
    match winner(cells) {
        Some(p) => GameStatus::Win(p),
        None => if is_full(cells) {
            GameStatus::Draw
        } else {
            GameStatus::InProgress
        },
    }
}

/// The game before the first move: an empty board, `X` to move.
pub open spec fn initial_view() -> GameView {
    GameView {
        cells: Seq::new(9, |i: int| Cell::Empty),
        status: GameStatus::InProgress,
        to_play: Player::X,
    }
}

/// The game after the player to move has taken the cell with index `i`.
pub open spec fn successor(game: GameView, i: int) -> GameView {
    let cells = game.cells.update(i, Cell::Occupied(game.to_play));
    GameView { cells, status: derive_status(cells), to_play: game.to_play.other() }
}

/// What a move by `player` does to a game: the game that results if the move
/// is accepted, or the reason why it is rejected.
pub open spec fn accept_move(game: GameView, player: Player, player_move: PlayerMove) -> Result<
    GameView,
    MoveError,
> {
    if game.status != GameStatus::InProgress {
        Err(MoveError::NotInProgress)
    } else if player != game.to_play {
        Err(MoveError::OutOfTurn)
    } else if !player_move.in_bounds() {
        Err(MoveError::OutOfBounds)
    } else if !(game.cells[player_move.index()] is Empty) {
        Err(MoveError::CellOccupied)
    } else {
        Ok(successor(game, player_move.index()))
    }
}

/// Whether a game has nine cells and the status that its board has.
pub open spec fn consistent(game: GameView) -> bool {
    game.cells.len() == 9 && game.status == derive_status(game.cells)
}

/// Two games with the same view are the same game.
pub proof fn lemma_view_determines_state(a: GameState, b: GameState)
    requires
        a@ == b@,
    ensures
        a == b,
{
    assert forall|r: int, c: int| 0 <= r < 3 && 0 <= c < 3 implies a.board[r][c] == b.board[r][c] by {
        let i = 3 * r + c;
        assert(i / 3 == r && i % 3 == c);
        assert(a@.cells[i] == a.board[r][c]);
        assert(b@.cells[i] == b.board[r][c]);
    }
    assert forall|r: int| 0 <= r < 3 implies a.board[r] == b.board[r] by {
        assert(a.board[r] =~= b.board[r]);
    }
    assert(a.board =~= b.board);
}

impl Default for GameState {
    /// A new game: an empty board, in progress, `X` to move.
    fn default() -> (game: GameState)
        ensures
            game@ == initial_view(),
    {
        let game = GameState {
            board: [[Cell::Empty; 3]; 3],
            status: GameStatus::InProgress,
            to_play: Player::X,
        };
        assert(game@.cells =~= initial_view().cells);
        game
    }
}

impl GameState {
    /// Computes the status of the board, whatever the `status` field holds.
    pub fn check_status(&self) -> (status: GameStatus)
        ensures
            status == derive_status(self@.cells),
    {
        let ghost cells = self@.cells;
        let mut r: usize = 0;
        while r < 3
            invariant
                r <= 3,
                cells == self@.cells,
                forall|k: int| 0 <= k < r ==> row_owner(cells, k) is None,
            decreases 3 - r,
        {
            let first = self.board[r][0];
            if let Cell::Occupied(player) = first {
                if first == self.board[r][1] && first == self.board[r][2] {
                    assert(row_owner(cells, r as int) == Some(player));
                    return GameStatus::Win(player);
                }
            }
            r += 1;
        }
        let mut c: usize = 0;
        while c < 3
            invariant
                c <= 3,
                cells == self@.cells,
                forall|k: int| 0 <= k < 3 ==> row_owner(cells, k) is None,
                forall|k: int| 0 <= k < c ==> column_owner(cells, k) is None,
            decreases 3 - c,
        {
            let first = self.board[0][c];
            if let Cell::Occupied(player) = first {
                if first == self.board[1][c] && first == self.board[2][c] {
                    assert(column_owner(cells, c as int) == Some(player));
                    return GameStatus::Win(player);
                }
            }
            c += 1;
        }
        let centre = self.board[1][1];
        if let Cell::Occupied(player) = centre {
            if centre == self.board[0][0] && centre == self.board[2][2] {
                assert(line_owner(cells, 0, 4, 8) == Some(player));
                return GameStatus::Win(player);
            }
            if centre == self.board[0][2] && centre == self.board[2][0] {
                assert(line_owner(cells, 2, 4, 6) == Some(player));
                return GameStatus::Win(player);
            }
        }
        assert(winner(cells) is None);
        if self.has_empty_cell() {
            GameStatus::InProgress
        } else {
            GameStatus::Draw
        }
    }

    /// Whether some cell of the board is empty.
    fn has_empty_cell(&self) -> (found: bool)
        ensures
            found == !is_full(self@.cells),
    {
        let ghost cells = self@.cells;
        let mut i: usize = 0;
        while i < 9
            invariant
                i <= 9,
                cells == self@.cells,
                forall|k: int| 0 <= k < i ==> !(#[trigger] cells[k] is Empty),
            decreases 9 - i,
        {
            if self.board[i / 3][i % 3] == Cell::Empty {
                assert(cells[i as int] is Empty);
                return true;
            }
            i += 1;
        }
        false
    }
}

/// Whether `result` and `after` are what `try_move` gives for `player` and
/// `player_move` in the game `before`: an accepted move is applied, a
/// rejected one is reported and changes nothing.
pub open spec fn is_move_outcome(
    before: GameState,
    player: Player,
    player_move: PlayerMove,
    result: Result<(), MoveError>,
    after: GameState,
) -> bool {
    match accept_move(before@, player, player_move) {
        Ok(next) => result is Ok && after@ == next,
        Err(e) => result == Err::<(), MoveError>(e) && after == before,
    }
}

/// Applies `player_move` for `player`.
///
/// The move is accepted when the game is in progress, `player` is the player
/// to move, the square lies on the board and is empty. The square is then
/// taken, the turn passes to the opponent and the status is recomputed from
/// the board. A rejected move leaves the game as it was.
pub fn try_move(game_state: &mut GameState, player: Player, player_move: PlayerMove) -> (result:
    Result<(), MoveError>)
    ensures
        is_move_outcome(*old(game_state), player, player_move, result, *final(game_state)),
{
    if game_state.status != GameStatus::InProgress {
        return Err(MoveError::NotInProgress);
    }
    if game_state.to_play != player {
        return Err(MoveError::OutOfTurn);
    }
    if player_move.row >= 3 || player_move.col >= 3 {
        return Err(MoveError::OutOfBounds);
    }
    if game_state.board[player_move.row][player_move.col] != Cell::Empty {
        return Err(MoveError::CellOccupied);
    }
    game_state.board[player_move.row][player_move.col] = Cell::Occupied(game_state.to_play);
    game_state.to_play = game_state.to_play.opponent();
    game_state.status = game_state.check_status();
    proof {
        let next = successor(old(game_state)@, player_move.index());
        assert(game_state@.cells =~= next.cells);
    }
    Ok(())
}

} // verus!
