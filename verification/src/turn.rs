//! The turn controller's decisions: alternation, move validation, and the
//! terminal-state check after each applied move.

use vstd::prelude::*;

use crate::board::Board;
use crate::board::BoardError;
use crate::board::Player;
use crate::board::balanced;
use crate::board::full;
use crate::board::lemma_set_preserves_invariant;
use crate::board::other_of;
use crate::board::to_move;
use crate::board::winner_of;

verus! {

/// What a board means for the game, recomputed after every move: still in
/// play, won by a player, or drawn.
#[derive(Clone, Copy, Debug, PartialEq, Eq, Structural)]
pub enum GameOutcome {
    Ongoing,
    Won(Player),
    Draw,
}

/// Where the turn loop stands: waiting for the named player's move, or ended
/// in a win or a draw.
#[derive(Clone, Copy, Debug, PartialEq, Eq, Structural)]
pub enum TurnState {
    AwaitingMove(Player),
    GameWon(Player),
    GameDrawn,
}

/// The outcome a board denotes: a win for whoever fully owns a line, else a
/// draw when the grid is full, else an ongoing game.
pub open spec fn outcome_of(s: Seq<Player>) -> GameOutcome {
    if winner_of(s) != Player::Empty {
        GameOutcome::Won(winner_of(s))
    } else if full(s) {
        GameOutcome::Draw
    } else {
        GameOutcome::Ongoing
    }
}

/// The turn state after player `p` has moved and the board reads `s`: the
/// game ends on a win or a full grid, else the other player is to move.
pub open spec fn next_state_of(s: Seq<Player>, p: Player) -> TurnState {
    if winner_of(s) != Player::Empty {
        TurnState::GameWon(winner_of(s))
    } else if full(s) {
        TurnState::GameDrawn
    } else {
        TurnState::AwaitingMove(other_of(p))
    }
}

/// The player who moves after `p`. Players alternate strictly.
pub fn other_player(p: Player) -> (r: Player)
    requires
        p != Player::Empty,
    ensures
        r == other_of(p),
        r != Player::Empty,
        r != p,
{
    match p {
        Player::Empty => Player::Empty,
        Player::O => Player::X,
        Player::X => Player::O,
    }
}

/// Every game starts with an empty board and `O` to move.
pub fn initial_state() -> (st: TurnState)
    ensures
        st == TurnState::AwaitingMove(Player::O),
{
    TurnState::AwaitingMove(Player::O)
}

/// The outcome the board currently denotes.
pub fn outcome(b: &Board) -> (r: GameOutcome)
    requires
        b.wf(),
    ensures
        r == outcome_of(b@),
{
    match b.winner() {
        Some(p) => GameOutcome::Won(p),
        None => {
            if b.is_full() {
                GameOutcome::Draw
            } else {
                GameOutcome::Ongoing
            }
        },
    }
}

/// Checks a requested cell, given as one-based row and column numbers as the
/// players type them. Both numbers must lie in 1..=3 and the cell must still
/// be empty; a valid request comes back as zero-based indices ready for
/// `Board::set`. Exactly the out-of-range requests are answered `OutOfRange`,
/// and exactly the in-range requests for a claimed cell `OccupiedCellWrite`.
pub fn validate_move(b: &Board, row_input: usize, col_input: usize) -> (r: Result<
    (usize, usize),
    BoardError,
>)
    requires
        b.wf(),
    ensures
        !(1 <= row_input <= 3 && 1 <= col_input <= 3) ==> r == Err::<
            (usize, usize),
            BoardError,
        >(BoardError::OutOfRange),
        1 <= row_input <= 3 && 1 <= col_input <= 3 && b@[(row_input - 1) * 3 + (col_input - 1)]
            == Player::Empty ==> r == Ok::<(usize, usize), BoardError>(
            ((row_input - 1) as usize, (col_input - 1) as usize),
        ),
        1 <= row_input <= 3 && 1 <= col_input <= 3 && b@[(row_input - 1) * 3 + (col_input - 1)]
            != Player::Empty ==> r == Err::<(usize, usize), BoardError>(
            BoardError::OccupiedCellWrite,
        ),
{
    if row_input < 1 || row_input > 3 || col_input < 1 || col_input > 3 {
        return Err(BoardError::OutOfRange);
    }
    let row = row_input - 1;
    let col = col_input - 1;
    match b.get(row, col) {
        Ok(cell) => {
            if cell == Player::Empty {
                Ok((row, col))
            } else {
                Err(BoardError::OccupiedCellWrite)
            }
        },
        Err(e) => Err(e),
    }
}

/// One applied move of the per-turn protocol: writes the player's mark into
/// the validated empty cell and decides how the game goes on. The new board
/// differs from the old one in that cell alone; the result names the winner
/// if the move completed a line, a draw if it filled the grid, and otherwise
/// hands the turn to the other player. A legal move by the player whose turn
/// it is keeps the board balanced.
pub fn apply_move(b: &mut Board, player: Player, row: usize, col: usize) -> (next: TurnState)
    requires
        old(b).wf(),
        player != Player::Empty,
        row < 3,
        col < 3,
        old(b)@[row as int * 3 + col as int] == Player::Empty,
    ensures
        final(b).wf(),
        final(b)@ == old(b)@.update(row as int * 3 + col as int, player),
        next == next_state_of(final(b)@, player),
        balanced(old(b)@) && player == to_move(old(b)@) ==> balanced(final(b)@),
{
    b.set(row, col, player);
    proof {
        if balanced(old(b)@) && player == to_move(old(b)@) {
            lemma_set_preserves_invariant(old(b)@, row as int * 3 + col as int, player);
        }
    }
    match b.winner() {
        Some(p) => TurnState::GameWon(p),
        None => {
            if b.is_full() {
                TurnState::GameDrawn
            } else {
                TurnState::AwaitingMove(other_player(player))
            }
        },
    }
}

} // verus!
