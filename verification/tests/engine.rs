use rand::rng;
use rand::seq::IndexedRandom;
use tictactoe::board::{try_move, Cell, GameState, GameStatus, Player, PlayerMove};
use tictactoe::solver::{do_optimal_move, minimax};

/// Plays 100 games with a human (X) who moves at random and checks that the
/// engine (O) never loses.
#[test]
fn test_ai_is_unbeatable_over_100_random_games() {
    for i in 0..100 {
        println!("\n--- Starting Random Game #{} ---", i + 1);
        let mut game_state = GameState::default();
        let mut rng = rng();

        while game_state.status == GameStatus::InProgress {
            assert_eq!(game_state.to_play, Player::X);

            let mut available_moves = Vec::new();
            for r in 0..3 {
                for c in 0..3 {
                    if game_state.board[r][c] == Cell::Empty {
                        available_moves.push(PlayerMove { row: r, col: c });
                    }
                }
            }

            if available_moves.is_empty() {
                break;
            }

            let human_move = *available_moves.choose(&mut rng).unwrap();
            println!("Human (X) plays at ({}, {})", human_move.row, human_move.col);

            try_move(&mut game_state, Player::X, human_move).expect("Human move should be valid");

            if game_state.status != GameStatus::InProgress {
                break;
            }

            assert_eq!(game_state.to_play, Player::O);
            println!("AI (O) is thinking...");

            do_optimal_move(&mut game_state).expect("AI move should be valid");
            println!("{}", game_state.to_text());
        }

        println!("Game Over. Final Status: {:?}", game_state.status);

        assert_ne!(
            game_state.status,
            GameStatus::Win(Player::X),
            "AI FAILED: The AI lost a game! Final board:\n{}",
            game_state.to_text()
        );
    }
}

#[test]
fn test_optimal_vs_optimal_is_always_a_draw() {
    println!("\n--- Starting Optimal vs Optimal Game ---");
    let mut game_state = GameState::default();

    while game_state.status == GameStatus::InProgress {
        if game_state.to_play == Player::X {
            println!("Optimal Human (X) is thinking...");
            let (_, optimal_move_for_x) = minimax(&game_state);
            let player_move = optimal_move_for_x.expect("Minimax should always find a move for X");

            try_move(&mut game_state, Player::X, player_move)
                .expect("Optimal move for X should be valid");

            println!("{}", game_state.to_text());
        }

        if game_state.status != GameStatus::InProgress {
            break;
        }

        if game_state.to_play == Player::O {
            println!("AI (O) is thinking...");
            do_optimal_move(&mut game_state).expect("Optimal move for O should be valid");
            println!("{}", game_state.to_text());
        }
    }

    println!("Game Over. Final Status: {:?}", game_state.status);

    assert_eq!(
        game_state.status,
        GameStatus::Draw,
        "MINIMAX FAILED: A game between two optimal players did not result in a draw! Final board:\n{}",
        game_state.to_text()
    );
}
