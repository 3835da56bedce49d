use tictactoe::board::{Cell, GameState, GameStatus, MoveError, Player, PlayerMove};
use tictactoe::session::{play_turn, RegistryError, SessionRegistry};
use tictactoe::solver::{Error, SolverError};

/// Builds a board from three rows written with `X`, `O` and `.`.
fn board(rows: [&str; 3]) -> [[Cell; 3]; 3] {
    let mut cells = [[Cell::Empty; 3]; 3];
    for (r, row) in rows.iter().enumerate() {
        for (c, symbol) in row.chars().enumerate() {
            cells[r][c] = match symbol {
                'X' => Cell::Occupied(Player::X),
                'O' => Cell::Occupied(Player::O),
                _ => Cell::Empty,
            };
        }
    }
    cells
}

fn state(rows: [&str; 3], status: GameStatus, to_play: Player) -> GameState {
    GameState { board: board(rows), status, to_play }
}

fn at(row: usize, col: usize) -> PlayerMove {
    PlayerMove { row, col }
}

#[test]
fn turn_is_the_humans_move_and_the_engines_answer() {
    let mut game = GameState::default();
    assert_eq!(play_turn(&mut game, at(0, 0)), Ok(()));
    assert_eq!(game, state(["X..", ".O.", "..."], GameStatus::InProgress, Player::X));
    assert_eq!(play_turn(&mut game, at(0, 1)), Ok(()));
    assert_eq!(game, state(["XXO", ".O.", "..."], GameStatus::InProgress, Player::X));
    assert_eq!(play_turn(&mut game, at(1, 0)), Ok(()));
    assert_eq!(game, state(["XXO", "XO.", "O.."], GameStatus::Win(Player::O), Player::X));
}

#[test]
fn turn_ends_without_an_answer_when_the_human_ends_the_game() {
    let mut game = state(["XOX", "XOO", "OX."], GameStatus::InProgress, Player::X);
    assert_eq!(play_turn(&mut game, at(2, 2)), Ok(()));
    assert_eq!(game, state(["XOX", "XOO", "OXX"], GameStatus::Draw, Player::O));
    let mut game = state(["XX.", "OO.", "..."], GameStatus::InProgress, Player::X);
    assert_eq!(play_turn(&mut game, at(0, 2)), Ok(()));
    assert_eq!(game, state(["XXX", "OO.", "..."], GameStatus::Win(Player::X), Player::O));
}

#[test]
fn failed_turn_changes_nothing() {
    let start = state(["X..", ".O.", "..."], GameStatus::InProgress, Player::X);
    let mut game = start;
    assert_eq!(play_turn(&mut game, at(1, 1)), Err(Error::Move(MoveError::CellOccupied)));
    assert_eq!(game, start);
    assert_eq!(play_turn(&mut game, at(0, 0)), Err(Error::Move(MoveError::CellOccupied)));
    assert_eq!(game, start);
    assert_eq!(play_turn(&mut game, at(0, 3)), Err(Error::Move(MoveError::OutOfBounds)));
    assert_eq!(game, start);
    let waiting_for_o = state(["X..", "...", "..."], GameStatus::InProgress, Player::O);
    let mut game = waiting_for_o;
    assert_eq!(play_turn(&mut game, at(1, 1)), Err(Error::Move(MoveError::OutOfTurn)));
    assert_eq!(game, waiting_for_o);
    let finished = state(["XOX", "XOO", "OXX"], GameStatus::Draw, Player::O);
    let mut game = finished;
    assert_eq!(play_turn(&mut game, at(1, 1)), Err(Error::Move(MoveError::NotInProgress)));
    assert_eq!(game, finished);
}

#[test]
fn registry_starts_empty() {
    let registry = SessionRegistry::new();
    assert_eq!(registry.len(), 0);
    assert_eq!(registry.lookup(1), Err(RegistryError::SessionNotFound));
}

#[test]
fn new_game_is_registered_under_a_random_uuid() {
    let mut registry = SessionRegistry::new();
    let (id, game) = registry.new_game();
    assert_eq!(game, GameState::default());
    assert_eq!(registry.len(), 1);
    assert_eq!(registry.lookup(id), Ok(GameState::default()));
    // Version 4, variant 10.
    assert_eq!((id >> 76) & 0xf, 4);
    assert_eq!((id >> 62) & 0x3, 2);
    let (other, _) = registry.new_game();
    assert_ne!(other, id);
    assert_eq!((other >> 76) & 0xf, 4);
    assert_eq!((other >> 62) & 0x3, 2);
    assert_eq!(registry.len(), 2);
}

#[test]
fn session_is_opened_under_a_given_identifier() {
    let mut registry = SessionRegistry::new();
    assert_eq!(registry.open_session(7), GameState::default());
    assert_eq!(registry.open_session(u128::MAX), GameState::default());
    assert_eq!(registry.len(), 2);
    assert_eq!(registry.lookup(7), Ok(GameState::default()));
    assert_eq!(registry.lookup(u128::MAX), Ok(GameState::default()));
    assert_eq!(registry.lookup(8), Err(RegistryError::SessionNotFound));
}

#[test]
fn opening_a_session_again_starts_it_afresh() {
    let mut registry = SessionRegistry::new();
    registry.open_session(7);
    assert!(registry.update_game_state(7, at(0, 0)).is_ok());
    assert_ne!(registry.lookup(7), Ok(GameState::default()));
    assert_eq!(registry.open_session(7), GameState::default());
    assert_eq!(registry.lookup(7), Ok(GameState::default()));
    assert_eq!(registry.len(), 1);
}

#[test]
fn request_for_an_unknown_session_is_refused() {
    let mut registry = SessionRegistry::new();
    assert_eq!(registry.update_game_state(5, at(0, 0)), Err(RegistryError::SessionNotFound));
    registry.open_session(6);
    assert_eq!(registry.update_game_state(5, at(0, 0)), Err(RegistryError::SessionNotFound));
    assert_eq!(registry.len(), 1);
    assert_eq!(registry.lookup(6), Ok(GameState::default()));
}

#[test]
fn request_plays_a_turn_and_stores_the_game() {
    let mut registry = SessionRegistry::new();
    registry.open_session(1);
    let after = state(["X..", ".O.", "..."], GameStatus::InProgress, Player::X);
    assert_eq!(registry.update_game_state(1, at(0, 0)), Ok(after));
    assert_eq!(registry.lookup(1), Ok(after));
    let after = state(["XXO", ".O.", "..."], GameStatus::InProgress, Player::X);
    assert_eq!(registry.update_game_state(1, at(0, 1)), Ok(after));
    assert_eq!(registry.lookup(1), Ok(after));
    assert_eq!(registry.len(), 1);
}

#[test]
fn refused_move_leaves_the_stored_game_as_it_was() {
    let mut registry = SessionRegistry::new();
    registry.open_session(1);
    let after = registry.update_game_state(1, at(0, 0)).unwrap();
    assert_eq!(
        registry.update_game_state(1, at(0, 0)),
        Err(RegistryError::Move(MoveError::CellOccupied))
    );
    assert_eq!(registry.lookup(1), Ok(after));
    assert_eq!(
        registry.update_game_state(1, at(1, 1)),
        Err(RegistryError::Move(MoveError::CellOccupied))
    );
    assert_eq!(registry.lookup(1), Ok(after));
    assert_eq!(
        registry.update_game_state(1, at(0, 3)),
        Err(RegistryError::Move(MoveError::OutOfBounds))
    );
    assert_eq!(
        registry.update_game_state(1, at(9, 0)),
        Err(RegistryError::Move(MoveError::OutOfBounds))
    );
    assert_eq!(registry.lookup(1), Ok(after));
    assert_eq!(registry.len(), 1);
}

#[test]
fn finished_game_leaves_the_registry() {
    let mut registry = SessionRegistry::new();
    registry.open_session(1);
    registry.open_session(2);
    assert!(registry.update_game_state(1, at(0, 0)).is_ok());
    assert!(registry.update_game_state(1, at(0, 1)).is_ok());
    let last = registry.update_game_state(1, at(1, 0)).unwrap();
    assert_eq!(last, state(["XXO", "XO.", "O.."], GameStatus::Win(Player::O), Player::X));
    assert_eq!(registry.lookup(1), Err(RegistryError::SessionNotFound));
    assert_eq!(registry.update_game_state(1, at(2, 2)), Err(RegistryError::SessionNotFound));
    assert_eq!(registry.len(), 1);
    assert_eq!(registry.lookup(2), Ok(GameState::default()));
}

#[test]
fn drawn_game_leaves_the_registry() {
    let mut registry = SessionRegistry::new();
    registry.open_session(3);
    // The human follows the line that the solver would play for X.
    let mut last = GameState::default();
    for square in [at(0, 0), at(0, 1), at(2, 0), at(1, 2), at(2, 2)] {
        assert_eq!(registry.lookup(3), Ok(last));
        last = registry.update_game_state(3, square).unwrap();
    }
    assert_eq!(last, state(["XXO", "OOX", "XOX"], GameStatus::Draw, Player::O));
    assert_eq!(registry.lookup(3), Err(RegistryError::SessionNotFound));
    assert_eq!(registry.len(), 0);
}

#[test]
fn sessions_do_not_touch_each_other() {
    let mut registry = SessionRegistry::new();
    registry.open_session(1);
    registry.open_session(2);
    let first = registry.update_game_state(1, at(2, 2)).unwrap();
    assert_eq!(registry.lookup(2), Ok(GameState::default()));
    let second = registry.update_game_state(2, at(1, 1)).unwrap();
    assert_eq!(registry.lookup(1), Ok(first));
    assert_eq!(registry.lookup(2), Ok(second));
    assert_eq!(first, state(["...", ".O.", "..X"], GameStatus::InProgress, Player::X));
    assert_eq!(second, state(["O..", ".X.", "..."], GameStatus::InProgress, Player::X));
}

#[test]
fn registry_holds_open_games_only_and_the_human_never_wins() {
    let mut registry = SessionRegistry::new();
    for first in 0..9 {
        let id = 100 + first as u128;
        registry.open_session(id);
        let mut square = first;
        loop {
            let before = registry.lookup(id).unwrap();
            assert_eq!(before.status, GameStatus::InProgress);
            assert_eq!(before.to_play, Player::X);
            match registry.update_game_state(id, at(square / 3, square % 3)) {
                Ok(game) => {
                    assert_ne!(game.status, GameStatus::Win(Player::X));
                    assert_eq!(game.status, game.check_status());
                    if game.status != GameStatus::InProgress {
                        assert_eq!(registry.lookup(id), Err(RegistryError::SessionNotFound));
                        break;
                    }
                    assert_eq!(registry.lookup(id), Ok(game));
                    square = 0;
                }
                Err(e) => {
                    assert_eq!(e, RegistryError::Move(MoveError::CellOccupied));
                    assert_eq!(registry.lookup(id), Ok(before));
                    square += 1;
                }
            }
        }
    }
    assert_eq!(registry.len(), 0);
}

#[test]
fn errors_of_a_turn_become_errors_of_the_registry() {
    for e in [
        MoveError::NotInProgress,
        MoveError::OutOfTurn,
        MoveError::CellOccupied,
        MoveError::OutOfBounds,
    ] {
        assert_eq!(RegistryError::from_turn(Error::Move(e)), RegistryError::Move(e));
    }
    assert_eq!(
        RegistryError::from_turn(Error::Solver(SolverError::SolverExhausted)),
        RegistryError::Solver(SolverError::SolverExhausted)
    );
}
