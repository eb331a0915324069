//! A verified game-state engine for two-player tic-tac-toe.
//!
//! The board is a fixed 3x3 grid of cells, each empty or holding one of the
//! two players' marks. `board` owns the grid together with its win and draw
//! queries; `turn` drives alternating play: it validates a requested cell,
//! applies the move, and decides whether the game goes on, is won, or is
//! drawn. Rendering and console input are left to the surrounding program.

pub mod board;
pub mod turn;
