//! Core of a two-player grid placement game: a bounded square board of
//! cells, a strict turn alternator for the two stone colors, and the single
//! placement rule that a cell may be occupied at most once.

use vstd::prelude::*;

pub mod board;
pub mod game;
pub mod render;

pub use board::Board;
pub use game::Game;

verus! {

/// One of the two stone colors. Black always moves first.
#[derive(Clone, Copy, PartialEq, Eq, Structural, Debug)]
pub enum Color {
    Black,
    White,
}

/// The state of one board position: empty, or occupied by a stone.
/// A cell starts `Empty` and may change at most once, to `Stone(c)`;
/// there is no capture, so it never becomes `Empty` again.
#[derive(Clone, Copy, PartialEq, Eq, Structural, Debug)]
pub enum Cell {
    Empty,
    Stone(Color),
}

/// A zero-indexed (row, column) coordinate on the board.
#[derive(Clone, Copy, PartialEq, Eq, PartialOrd, Ord, Structural, Debug)]
pub struct Point(pub u8, pub u8);

/// The three ways a construction or a placement can fail.
#[derive(Clone, Copy, PartialEq, Eq, Structural, Debug)]
pub enum GameError {
    /// Construction was asked for a side length other than 3, 9 or 19.
    InvalidBoardSize,
    /// Placement named a coordinate outside the grid.
    OutOfBounds,
    /// Placement named a cell that already holds a stone.
    OccupiedCell,
}

/// The color whose turn comes after `c`.
pub open spec fn opposite(c: Color) -> Color {
    match c {
        Color::Black => Color::White,
        Color::White => Color::Black,
    }
}

} // verus!
