use tic_tac_toe::board::{Board, BoardError, Player};
use tic_tac_toe::turn::{
    apply_move, initial_state, other_player, outcome, validate_move, GameOutcome, TurnState,
};

#[test]
fn game_starts_awaiting_the_first_mover() {
    assert_eq!(initial_state(), TurnState::AwaitingMove(Player::O));
}

#[test]
fn players_alternate() {
    assert_eq!(other_player(Player::O), Player::X);
    assert_eq!(other_player(Player::X), Player::O);
}

#[test]
fn outcome_tracks_the_board() {
    let mut board = Board::new();
    assert_eq!(outcome(&board), GameOutcome::Ongoing);
    board.set(0, 0, Player::X);
    board.set(1, 1, Player::X);
    board.set(2, 2, Player::X);
    assert_eq!(outcome(&board), GameOutcome::Won(Player::X));
}

#[test]
fn validate_rejects_out_of_range_input() {
    let board = Board::new();
    assert_eq!(validate_move(&board, 0, 1), Err(BoardError::OutOfRange));
    assert_eq!(validate_move(&board, 1, 0), Err(BoardError::OutOfRange));
    assert_eq!(validate_move(&board, 4, 2), Err(BoardError::OutOfRange));
    assert_eq!(validate_move(&board, 2, 9), Err(BoardError::OutOfRange));
}

#[test]
fn validate_converts_one_based_input() {
    let board = Board::new();
    assert_eq!(validate_move(&board, 1, 1), Ok((0, 0)));
    assert_eq!(validate_move(&board, 3, 2), Ok((2, 1)));
}

#[test]
fn occupied_cell_is_rejected_before_any_write() {
    // After the first mover claims (0,0), a second request for (0,0) is
    // turned away by validation and the board never changes.
    let mut board = Board::new();
    board.set(0, 0, Player::O);
    assert_eq!(validate_move(&board, 1, 1), Err(BoardError::OccupiedCellWrite));
    assert_eq!(board.get(0, 0), Ok(Player::O));
    for row in 0..3 {
        for col in 0..3 {
            if (row, col) != (0, 0) {
                assert_eq!(board.get(row, col), Ok(Player::Empty));
            }
        }
    }
}

#[test]
fn a_full_game_to_a_row_win() {
    // A:(0,0), B:(1,0), A:(0,1), B:(1,1), A:(0,2) -> A wins on the fifth move.
    let mut board = Board::new();
    let mut state = initial_state();
    let moves = [(0, 0), (1, 0), (0, 1), (1, 1), (0, 2)];
    for &(row, col) in &moves {
        let player = match state {
            TurnState::AwaitingMove(p) => p,
            _ => panic!("game ended early"),
        };
        state = apply_move(&mut board, player, row, col);
    }
    assert_eq!(state, TurnState::GameWon(Player::O));
    assert_eq!(board.winner(), Some(Player::O));
}

#[test]
fn a_full_game_to_a_draw() {
    let mut board = Board::new();
    let mut state = initial_state();
    let moves = [
        (0, 0),
        (0, 1),
        (0, 2),
        (1, 0),
        (1, 1),
        (2, 0),
        (1, 2),
        (2, 2),
        (2, 1),
    ];
    for &(row, col) in &moves {
        let player = match state {
            TurnState::AwaitingMove(p) => p,
            _ => panic!("game ended early"),
        };
        state = apply_move(&mut board, player, row, col);
    }
    assert_eq!(state, TurnState::GameDrawn);
    assert!(board.is_full());
    assert_eq!(board.winner(), None);
    assert!(board.is_draw());
}

#[test]
fn apply_move_hands_the_turn_over() {
    let mut board = Board::new();
    let state = apply_move(&mut board, Player::O, 1, 1);
    assert_eq!(state, TurnState::AwaitingMove(Player::X));
    let state = apply_move(&mut board, Player::X, 0, 2);
    assert_eq!(state, TurnState::AwaitingMove(Player::O));
    assert_eq!(board.get(1, 1), Ok(Player::O));
    assert_eq!(board.get(0, 2), Ok(Player::X));
}
