use tictactoe::board::{try_move, Cell, GameState, GameStatus, MoveError, Player, PlayerMove};
use tictactoe::session::RegistryError;
use tictactoe::solver::{Error, SolverError};
use tictactoe::text::{cell_label, cell_symbol, player_name, status_label, status_name};

#[test]
fn new_game_as_text() {
    assert_eq!(
        GameState::default().to_text(),
        ". . . \n. . . \n. . . \nStatus: InProgress\nNext to play: X\n"
    );
}

#[test]
fn game_in_progress_as_text() {
    let mut game = GameState::default();
    assert_eq!(try_move(&mut game, Player::X, PlayerMove { row: 0, col: 2 }), Ok(()));
    assert_eq!(try_move(&mut game, Player::O, PlayerMove { row: 1, col: 1 }), Ok(()));
    assert_eq!(try_move(&mut game, Player::X, PlayerMove { row: 2, col: 0 }), Ok(()));
    assert_eq!(
        game.to_text(),
        ". . X \n. O . \nX . . \nStatus: InProgress\nNext to play: O\n"
    );
}

#[test]
fn finished_games_as_text() {
    let x = Cell::Occupied(Player::X);
    let o = Cell::Occupied(Player::O);
    let e = Cell::Empty;
    let won = GameState {
        board: [[x, x, x], [o, o, e], [e, e, e]],
        status: GameStatus::Win(Player::X),
        to_play: Player::O,
    };
    assert_eq!(won.to_text(), "X X X \nO O . \n. . . \nStatus: Win(X)\nNext to play: O\n");
    let lost = GameState {
        board: [[x, x, o], [x, o, e], [o, e, e]],
        status: GameStatus::Win(Player::O),
        to_play: Player::X,
    };
    assert_eq!(lost.to_text(), "X X O \nX O . \nO . . \nStatus: Win(O)\nNext to play: X\n");
    let drawn = GameState {
        board: [[x, o, x], [x, o, o], [o, x, x]],
        status: GameStatus::Draw,
        to_play: Player::O,
    };
    assert_eq!(drawn.to_text(), "X O X \nX O O \nO X X \nStatus: Draw\nNext to play: O\n");
}

#[test]
fn names_are_those_of_the_debug_form() {
    for player in [Player::X, Player::O] {
        assert_eq!(player_name(player), format!("{:?}", player));
    }
    for status in [
        GameStatus::InProgress,
        GameStatus::Draw,
        GameStatus::Win(Player::X),
        GameStatus::Win(Player::O),
    ] {
        assert_eq!(status_name(status), format!("{:?}", status));
    }
}

#[test]
fn symbols_of_cells() {
    assert_eq!(cell_symbol(Cell::Empty), ".");
    assert_eq!(cell_symbol(Cell::Occupied(Player::X)), "X");
    assert_eq!(cell_symbol(Cell::Occupied(Player::O)), "O");
}

#[test]
fn labels_at_the_boundary() {
    assert_eq!(cell_label(Cell::Empty), "empty");
    assert_eq!(cell_label(Cell::Occupied(Player::X)), "X");
    assert_eq!(cell_label(Cell::Occupied(Player::O)), "O");
    assert_eq!(status_label(GameStatus::InProgress), "in_progress");
    assert_eq!(status_label(GameStatus::Draw), "draw");
    assert_eq!(status_label(GameStatus::Win(Player::X)), "win_X");
    assert_eq!(status_label(GameStatus::Win(Player::O)), "win_O");
    assert_eq!(player_name(Player::X), "X");
    assert_eq!(player_name(Player::O), "O");
}

#[test]
fn kinds_and_messages_of_move_errors() {
    assert_eq!(MoveError::NotInProgress.kind(), "not_in_progress");
    assert_eq!(MoveError::NotInProgress.message(), "Game is not in progress");
    assert_eq!(MoveError::OutOfTurn.kind(), "out_of_turn");
    assert_eq!(MoveError::OutOfTurn.message(), "Not your turn");
    assert_eq!(MoveError::CellOccupied.kind(), "cell_occupied");
    assert_eq!(MoveError::CellOccupied.message(), "Cell already occupied");
    assert_eq!(MoveError::OutOfBounds.kind(), "out_of_bounds");
    assert_eq!(MoveError::OutOfBounds.message(), "Move is out of bounds");
}

#[test]
fn kinds_and_messages_of_the_other_errors() {
    assert_eq!(SolverError::SolverExhausted.kind(), "solver_exhausted");
    assert_eq!(SolverError::SolverExhausted.message(), "AI could not find a valid move");
    assert_eq!(Error::Solver(SolverError::SolverExhausted).kind(), "solver_exhausted");
    assert_eq!(
        Error::Solver(SolverError::SolverExhausted).message(),
        "AI could not find a valid move"
    );
    assert_eq!(Error::Move(MoveError::OutOfTurn).kind(), "out_of_turn");
    assert_eq!(Error::Move(MoveError::OutOfTurn).message(), "Not your turn");
    assert_eq!(RegistryError::SessionNotFound.kind(), "session_not_found");
    assert_eq!(RegistryError::SessionNotFound.message(), "Game not found");
    assert_eq!(RegistryError::Move(MoveError::CellOccupied).kind(), "cell_occupied");
    assert_eq!(RegistryError::Move(MoveError::CellOccupied).message(), "Cell already occupied");
    assert_eq!(RegistryError::Solver(SolverError::SolverExhausted).kind(), "solver_exhausted");
    assert_eq!(
        RegistryError::Solver(SolverError::SolverExhausted).message(),
        "AI could not find a valid move"
    );
}

#[test]
fn kinds_of_errors_are_distinct() {
    let kinds = [
        MoveError::NotInProgress.kind(),
        MoveError::OutOfTurn.kind(),
        MoveError::CellOccupied.kind(),
        MoveError::OutOfBounds.kind(),
        SolverError::SolverExhausted.kind(),
        RegistryError::SessionNotFound.kind(),
    ];
    for i in 0..kinds.len() {
        for j in 0..i {
            assert_ne!(kinds[i], kinds[j]);
        }
    }
}
