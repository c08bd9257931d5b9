//! The game: two named players, a board, and the strict turn alternator.

use vstd::prelude::*;

use crate::board::{board_wf, cell_at, cell_index, in_bounds, valid_size, Board, BoardView};
use crate::{Cell, Color, GameError, Point, opposite};

verus! {

/// A display name bound to the color it plays.
struct Player {
    name: String,
    color: Color,
}

/// Mathematical model of a game: the two player names, the color whose
/// turn it is, and the board model.
pub ghost struct GameView {
    pub player_1: Seq<char>,
    pub player_2: Seq<char>,
    pub current: Color,
    pub board: BoardView,
}

/// A game is well formed when its board is.
pub open spec fn game_wf(v: GameView) -> bool {
    board_wf(v.board)
}

/// Two players, a board, and the color eligible to place the next stone.
/// The first player plays Black and moves first.
pub struct Game {
    player_1: Player,
    player_2: Player,
    current_player: Color,
    board: Board,
}

impl View for Game {
    type V = GameView;

    closed spec fn view(&self) -> GameView {
        GameView {
            player_1: self.player_1.name@,
            player_2: self.player_2.name@,
            current: self.current_player,
            board: self.board@,
        }
    }
}

impl Game {
    /// Binds `player_1` to Black (the first mover) and `player_2` to
    /// White, over a fresh all-empty board of side length `size`.
    /// Fails with [`GameError::InvalidBoardSize`], producing no game,
    /// for any size other than 3, 9 or 19.
    pub fn new(player_1: &str, player_2: &str, size: u8) -> (r: Result<Game, GameError>)
        ensures
            valid_size(size as nat) <==> r is Ok,
            r is Ok ==> {
                let v = r->Ok_0@;
                &&& game_wf(v)
                &&& v.player_1 == player_1@
                &&& v.player_2 == player_2@
                &&& v.current == Color::Black
                &&& v.board.size == size as nat
                &&& forall|k: int| 0 <= k < v.board.cells.len() ==> v.board.cells[k] == Cell::Empty
            },
            r is Err ==> r->Err_0 == GameError::InvalidBoardSize,
    {
        let board = match Board::new(size) {
            Ok(b) => b,
            Err(e) => {
                return Err(e);
            },
        };
        Ok(Game {
            player_1: Player { name: player_1.to_owned(), color: Color::Black },
            player_2: Player { name: player_2.to_owned(), color: Color::White },
            current_player: Color::Black,
            board,
        })
    }

    /// The name of the player who plays Black.
    pub fn get_player_1(&self) -> (r: &str)
        ensures
            r@ == self@.player_1,
    {
        self.player_1.name.as_str()
    }

    /// The name of the player who plays White.
    pub fn get_player_2(&self) -> (r: &str)
        ensures
            r@ == self@.player_2,
    {
        self.player_2.name.as_str()
    }

    /// Read-only access to the board, for inspection and rendering.
    pub fn board(&self) -> (r: &Board)
        ensures
            r@ == self@.board,
    {
        &self.board
    }

    /// Attempts to place a stone of the current player's color at `point`.
    /// On success the turn passes to the other color; on failure the
    /// error of the board's placement rule is surfaced unchanged and
    /// neither the board nor the turn moves.
    pub fn play(&mut self, point: &Point) -> (r: Result<(), GameError>)
        requires
            game_wf(old(self)@),
        ensures
            game_wf(final(self)@),
            final(self)@.player_1 == old(self)@.player_1,
            final(self)@.player_2 == old(self)@.player_2,
            final(self)@.board.size == old(self)@.board.size,
            !in_bounds(old(self)@.board, *point) ==> {
                &&& r == Err::<(), GameError>(GameError::OutOfBounds)
                &&& final(self)@ == old(self)@
            },
            in_bounds(old(self)@.board, *point) && cell_at(old(self)@.board, *point) is Stone
                ==> {
                &&& r == Err::<(), GameError>(GameError::OccupiedCell)
                &&& final(self)@ == old(self)@
            },
            in_bounds(old(self)@.board, *point) && cell_at(old(self)@.board, *point) is Empty
                ==> {
                &&& r == Ok::<(), GameError>(())
                &&& final(self)@.current == opposite(old(self)@.current)
                &&& final(self)@.board.cells == old(self)@.board.cells.update(
                    cell_index(old(self)@.board, *point),
                    Cell::Stone(old(self)@.current),
                )
            },
    {
        let color = self.current_player;
        match self.board.change_cell(point, Cell::Stone(color)) {
            Ok(()) => {
                self.current_player = if color == Color::Black {
                    Color::White
                } else {
                    Color::Black
                };
                Ok(())
            },
            Err(e) => Err(e),
        }
    }
}

} // verus!
