//! Games and errors as text: a rendering for logs and terminals, and the
//! labels under which cells, statuses and errors cross the boundary of a
//! service.

use crate::board::{Cell, GameState, GameStatus, GameView, MoveError, Player};
use crate::session::RegistryError;
use crate::solver::{Error, SolverError};
use vstd::prelude::*;
use vstd::string::StringExecFns;

verus! {

/// The name of a player.
pub open spec fn player_text(player: Player) -> Seq<char> {
    match player {
        Player::X => "X"@,
        Player::O => "O"@,
    }
}

/// The symbol of a cell: a dot for an empty one, else the player's name.
pub open spec fn cell_text(cell: Cell) -> Seq<char> {
    match cell {
        Cell::Empty => "."@,
        Cell::Occupied(player) => player_text(player),
    }
}

/// The name of a status.
pub open spec fn status_text(status: GameStatus) -> Seq<char> {
    match status {
        GameStatus::InProgress => "InProgress"@,
        GameStatus::Draw => "Draw"@,
        GameStatus::Win(Player::X) => "Win(X)"@,
        GameStatus::Win(Player::O) => "Win(O)"@,
    }
}

/// The first `n` cells as text: each cell's symbol and a space, and a line
/// break after every third cell.
pub open spec fn cells_text(cells: Seq<Cell>, n: int) -> Seq<char>
    decreases n,
{
    if n <= 0 {
        Seq::empty()
    } else {
        let line_end = if n % 3 == 0 {
            "\n"@
        } else {
            Seq::empty()
        };
        cells_text(cells, n - 1) + cell_text(cells[n - 1]) + " "@ + line_end
    }
}

/// A game as text: the three rows of the board, then one line for the
/// status and one for the player to move.
pub open spec fn game_text(game: GameView) -> Seq<char> {
    cells_text(game.cells, 9) + "Status: "@ + status_text(game.status) + "\n"@ + "Next to play: "@
        + player_text(game.to_play) + "\n"@
}

/// The name of `player`.
pub fn player_name(player: Player) -> (name: &'static str)
    ensures
        name@ == player_text(player),
{
    match player {
        Player::X => "X",
        Player::O => "O",
    }
}

/// The symbol of `cell`.
pub fn cell_symbol(cell: Cell) -> (symbol: &'static str)
    ensures
        symbol@ == cell_text(cell),
{
    match cell {
        Cell::Empty => ".",
        Cell::Occupied(player) => player_name(player),
    }
}

/// The name of `status`.
pub fn status_name(status: GameStatus) -> (name: &'static str)
    ensures
        name@ == status_text(status),
{
    match status {
        GameStatus::InProgress => "InProgress",
        GameStatus::Draw => "Draw",
        GameStatus::Win(Player::X) => "Win(X)",
        GameStatus::Win(Player::O) => "Win(O)",
    }
}

impl GameState {
    /// Renders the game as text.
    pub fn to_text(&self) -> (text: String)
        ensures
            text@ == game_text(self@),
    {
        let ghost cells = self@.cells;
        let mut text = String::new();
        let mut i: usize = 0;
        while i < 9
            invariant
                i <= 9,
                cells == self@.cells,
                text@ == cells_text(cells, i as int),
            decreases 9 - i,
        {
            text.append(cell_symbol(self.board[i / 3][i % 3]));
            text.append(" ");
            i += 1;
            if i % 3 == 0 {
                text.append("\n");
            }
            assert(text@ =~= cells_text(cells, i as int));
        }
        text.append("Status: ");
        text.append(status_name(self.status));
        text.append("\n");
        text.append("Next to play: ");
        text.append(player_name(self.to_play));
        text.append("\n");
        text
    }
}

/// The label of a cell at the boundary.
pub open spec fn cell_label_text(cell: Cell) -> Seq<char> {
    match cell {
        Cell::Empty => "empty"@,
        Cell::Occupied(player) => player_text(player),
    }
}

/// The label of a status at the boundary.
pub open spec fn status_label_text(status: GameStatus) -> Seq<char> {
    match status {
        GameStatus::InProgress => "in_progress"@,
        GameStatus::Draw => "draw"@,
        GameStatus::Win(Player::X) => "win_X"@,
        GameStatus::Win(Player::O) => "win_O"@,
    }
}

/// The label of `cell` at the boundary: `empty`, `X` or `O`.
pub fn cell_label(cell: Cell) -> (label: &'static str)
    ensures
        label@ == cell_label_text(cell),
{
    match cell {
        Cell::Empty => "empty",
        Cell::Occupied(player) => player_name(player),
    }
}

/// The label of `status` at the boundary: `in_progress`, `draw`, `win_X` or
/// `win_O`.
pub fn status_label(status: GameStatus) -> (label: &'static str)
    ensures
        label@ == status_label_text(status),
{
    match status {
        GameStatus::InProgress => "in_progress",
        GameStatus::Draw => "draw",
        GameStatus::Win(Player::X) => "win_X",
        GameStatus::Win(Player::O) => "win_O",
    }
}

impl MoveError {
    /// The machine-readable kind of the error.
    pub open spec fn kind_text(self) -> Seq<char> {
        match self {
            MoveError::NotInProgress => "not_in_progress"@,
            MoveError::OutOfTurn => "out_of_turn"@,
            MoveError::CellOccupied => "cell_occupied"@,
            MoveError::OutOfBounds => "out_of_bounds"@,
        }
    }

    /// The message of the error for a human reader.
    pub open spec fn message_text(self) -> Seq<char> {
        match self {
            MoveError::NotInProgress => "Game is not in progress"@,
            MoveError::OutOfTurn => "Not your turn"@,
            MoveError::CellOccupied => "Cell already occupied"@,
            MoveError::OutOfBounds => "Move is out of bounds"@,
        }
    }

    /// Returns the machine-readable kind of the error.
    pub fn kind(&self) -> (kind: &'static str)
        ensures
            kind@ == self.kind_text(),
    {
        match self {
            MoveError::NotInProgress => "not_in_progress",
            MoveError::OutOfTurn => "out_of_turn",
            MoveError::CellOccupied => "cell_occupied",
            MoveError::OutOfBounds => "out_of_bounds",
        }
    }

    /// Returns the message of the error for a human reader.
    pub fn message(&self) -> (message: &'static str)
        ensures
            message@ == self.message_text(),
    {
        match self {
            MoveError::NotInProgress => "Game is not in progress",
            MoveError::OutOfTurn => "Not your turn",
            MoveError::CellOccupied => "Cell already occupied",
            MoveError::OutOfBounds => "Move is out of bounds",
        }
    }
}

impl SolverError {
    /// The machine-readable kind of the error.
    pub open spec fn kind_text(self) -> Seq<char> {
        "solver_exhausted"@
    }

    /// The message of the error for a human reader.
    pub open spec fn message_text(self) -> Seq<char> {
        "AI could not find a valid move"@
    }

    /// Returns the machine-readable kind of the error.
    pub fn kind(&self) -> (kind: &'static str)
        ensures
            kind@ == self.kind_text(),
    {
        "solver_exhausted"
    }

    /// Returns the message of the error for a human reader.
    pub fn message(&self) -> (message: &'static str)
        ensures
            message@ == self.message_text(),
    {
        "AI could not find a valid move"
    }
}

impl Error {
    /// The machine-readable kind of the error.
    pub open spec fn kind_text(self) -> Seq<char> {
        match self {
            Error::Move(e) => e.kind_text(),
            Error::Solver(e) => e.kind_text(),
        }
    }

    /// The message of the error for a human reader.
    pub open spec fn message_text(self) -> Seq<char> {
        match self {
            Error::Move(e) => e.message_text(),
            Error::Solver(e) => e.message_text(),
        }
    }

    /// Returns the machine-readable kind of the error.
    pub fn kind(&self) -> (kind: &'static str)
        ensures
            kind@ == self.kind_text(),
    {
        match self {
            Error::Move(e) => e.kind(),
            Error::Solver(e) => e.kind(),
        }
    }

    /// Returns the message of the error for a human reader.
    pub fn message(&self) -> (message: &'static str)
        ensures
            message@ == self.message_text(),
    {
        match self {
            Error::Move(e) => e.message(),
            Error::Solver(e) => e.message(),
        }
    }
}

impl RegistryError {
    /// The machine-readable kind of the error.
    pub open spec fn kind_text(self) -> Seq<char> {
        match self {
            RegistryError::SessionNotFound => "session_not_found"@,
            RegistryError::Move(e) => e.kind_text(),
            RegistryError::Solver(e) => e.kind_text(),
        }
    }

    /// The message of the error for a human reader.
    pub open spec fn message_text(self) -> Seq<char> {
        match self {
            RegistryError::SessionNotFound => "Game not found"@,
            RegistryError::Move(e) => e.message_text(),
            RegistryError::Solver(e) => e.message_text(),
        }
    }

    /// Returns the machine-readable kind of the error.
    pub fn kind(&self) -> (kind: &'static str)
        ensures
            kind@ == self.kind_text(),
    {
        match self {
            RegistryError::SessionNotFound => "session_not_found",
            RegistryError::Move(e) => e.kind(),
            RegistryError::Solver(e) => e.kind(),
        }
    }

    /// Returns the message of the error for a human reader.
    pub fn message(&self) -> (message: &'static str)
        ensures
            message@ == self.message_text(),
    {
        match self {
            RegistryError::SessionNotFound => "Game not found",
            RegistryError::Move(e) => e.message(),
            RegistryError::Solver(e) => e.message(),
        }
    }
}

/// The kind tells the error: two errors of the registry with the same kind
/// are the same error.
pub proof fn lemma_kind_tells_the_error(a: RegistryError, b: RegistryError)
    requires
        a.kind_text() == b.kind_text(),
    ensures
        a == b,
{
    reveal_strlit("not_in_progress");
    reveal_strlit("out_of_turn");
    reveal_strlit("cell_occupied");
    reveal_strlit("out_of_bounds");
    reveal_strlit("solver_exhausted");
    reveal_strlit("session_not_found");
    assert("not_in_progress"@.len() == 15);
    assert("out_of_turn"@.len() == 11);
    assert("cell_occupied"@.len() == 13 && "cell_occupied"@[0] == 'c');
    assert("out_of_bounds"@.len() == 13 && "out_of_bounds"@[0] == 'o');
    assert("solver_exhausted"@.len() == 16);
    assert("session_not_found"@.len() == 17);
}

} // verus!
