//! The board: a fixed-size square grid holding one cell per coordinate,
//! and the single mutator that enforces the placement rule.

use vstd::prelude::*;
use vstd::string::StringExecFns;

use crate::render::{
    cells_upto, cols_upto, header_prefix, row_label, rows_upto, spec_render, two_digit,
};
use crate::{Cell, Color, GameError, Point};

verus! {

/// Mathematical model of a board: the side length and the cell contents
/// in row-major order.
pub ghost struct BoardView {
    pub size: nat,
    pub cells: Seq<Cell>,
}

/// The sizes a board may be built with.
pub open spec fn valid_size(size: nat) -> bool {
    size == 3 || size == 9 || size == 19
}

/// A board is well formed when its side length is one of the recognized
/// sizes and it holds exactly one cell per coordinate of the grid.
pub open spec fn board_wf(v: BoardView) -> bool {
    &&& valid_size(v.size)
    &&& v.cells.len() == v.size * v.size
}

/// Whether `p` names a coordinate of the grid.
pub open spec fn in_bounds(v: BoardView, p: Point) -> bool {
    p.0 < v.size && p.1 < v.size
}

/// The row-major position of `p` in the cell sequence.
pub open spec fn cell_index(v: BoardView, p: Point) -> int {
    p.0 * v.size + p.1
}

/// The cell that the board holds at `p`.
pub open spec fn cell_at(v: BoardView, p: Point) -> Cell {
    v.cells[cell_index(v, p)]
}

/// Row-major indexing stays inside a square grid.
proof fn lemma_cell_index_in_range(r: int, c: int, n: int)
    by (nonlinear_arith)
    requires
        0 <= r < n,
        0 <= c < n,
        n <= 255,
    ensures
        0 <= r * n + c < n * n,
        n * n <= 65025,
{
}

/// A fixed-size square grid mapping every coordinate in
/// `[0, size) x [0, size)` to a [`Cell`], stored in row-major order.
pub struct Board {
    size: u8,
    cells: Vec<Cell>,
}

impl View for Board {
    type V = BoardView;

    closed spec fn view(&self) -> BoardView {
        BoardView { size: self.size as nat, cells: self.cells@ }
    }
}

impl Board {
    /// Builds a board of side length `size` with every cell empty, or
    /// fails with [`GameError::InvalidBoardSize`] for any size other
    /// than 3, 9 or 19.
    pub fn new(size: u8) -> (r: Result<Board, GameError>)
        ensures
            valid_size(size as nat) <==> r is Ok,
            r is Ok ==> {
                let v = r->Ok_0@;
                &&& board_wf(v)
                &&& v.size == size as nat
                &&& forall|k: int| 0 <= k < v.cells.len() ==> v.cells[k] == Cell::Empty
            },
            r is Err ==> r->Err_0 == GameError::InvalidBoardSize,
    {
        if !(size == 3 || size == 9 || size == 19) {
            return Err(GameError::InvalidBoardSize);
        }
        proof {
            assert((size as int) * (size as int) <= 361) by (nonlinear_arith)
                requires size <= 19;
        }
        let count: usize = (size as usize) * (size as usize);
        let mut cells: Vec<Cell> = Vec::new();
        let mut k: usize = 0;
        while k < count
            invariant
                k <= count,
                cells@.len() == k,
                forall|m: int| 0 <= m < k ==> cells@[m] == Cell::Empty,
            decreases count - k,
        {
            cells.push(Cell::Empty);
            k += 1;
        }
        Ok(Board { size, cells })
    }

    /// Overwrites the cell at `point` with `cell`, touching no other cell.
    /// Fails with [`GameError::OutOfBounds`] when `point` lies outside the
    /// grid and with [`GameError::OccupiedCell`] when the cell already
    /// holds a stone; on failure the board is left exactly as it was.
    pub fn change_cell(&mut self, point: &Point, cell: Cell) -> (r: Result<(), GameError>)
        requires
            board_wf(old(self)@),
        ensures
            board_wf(final(self)@),
            final(self)@.size == old(self)@.size,
            !in_bounds(old(self)@, *point) ==> {
                &&& r == Err::<(), GameError>(GameError::OutOfBounds)
                &&& final(self)@ == old(self)@
            },
            in_bounds(old(self)@, *point) && cell_at(old(self)@, *point) is Stone ==> {
                &&& r == Err::<(), GameError>(GameError::OccupiedCell)
                &&& final(self)@ == old(self)@
            },
            in_bounds(old(self)@, *point) && cell_at(old(self)@, *point) is Empty ==> {
                &&& r == Ok::<(), GameError>(())
                &&& final(self)@.cells
                    == old(self)@.cells.update(cell_index(old(self)@, *point), cell)
            },
    {
        if point.0 >= self.size || point.1 >= self.size {
            return Err(GameError::OutOfBounds);
        }
        proof {
            lemma_cell_index_in_range(point.0 as int, point.1 as int, self.size as int);
        }
        let k: usize = (point.0 as usize) * (self.size as usize) + (point.1 as usize);
        match self.cells[k] {
            Cell::Empty => {
                self.cells[k] = cell;
                Ok(())
            },
            Cell::Stone(_) => Err(GameError::OccupiedCell),
        }
    }

    /// The cell at `point`, or `None` when `point` lies outside the grid.
    pub fn get_cell(&self, point: &Point) -> (r: Option<Cell>)
        requires
            board_wf(self@),
        ensures
            in_bounds(self@, *point) ==> r == Some(cell_at(self@, *point)),
            !in_bounds(self@, *point) ==> r is None,
    {
        if point.0 >= self.size || point.1 >= self.size {
            return None;
        }
        proof {
            lemma_cell_index_in_range(point.0 as int, point.1 as int, self.size as int);
        }
        let k: usize = (point.0 as usize) * (self.size as usize) + (point.1 as usize);
        Some(self.cells[k])
    }

    /// Renders the grid as text, exactly as [`spec_render`] describes it:
    /// a header line of column indices, then one line per row, each cell
    /// drawn as `*`, `B` or `W`. Reading the board this way never
    /// changes it.
    pub fn render(&self) -> (r: String)
        requires
            board_wf(self@),
        ensures
            r@ == spec_render(self@),
    {
        let size: u8 = self.size;
        let mut s = String::new();
        s.append("|##|\t");
        proof {
            reveal_strlit("|##|\t");
            assert(s@ =~= header_prefix());
        }
        let mut i: u8 = 0;
        while i < size
            invariant
                i <= size,
                self@.size == size as nat,
                board_wf(self@),
                s@ == header_prefix() + cols_upto(i as int),
            decreases size - i,
        {
            s.append("|");
            let label = two_digit(i);
            s.append(label.as_str());
            s.append("|\t");
            proof {
                reveal_strlit("|");
                reveal_strlit("|\t");
                assert(s@ =~= header_prefix() + cols_upto(i as int + 1));
            }
            i += 1;
        }
        let mut i: u8 = 0;
        while i < size
            invariant
                i <= size,
                self@.size == size as nat,
                board_wf(self@),
                s@ == header_prefix() + cols_upto(size as int) + rows_upto(self@, i as int),
            decreases size - i,
        {
            s.append("\n|");
            let label = two_digit(i);
            s.append(label.as_str());
            s.append("|\t");
            proof {
                reveal_strlit("\n|");
                reveal_strlit("|\t");
                assert(s@ =~= header_prefix() + cols_upto(size as int) + rows_upto(
                    self@,
                    i as int,
                ) + row_label(i as int));
            }
            let mut j: u8 = 0;
            while j < size
                invariant
                    j <= size,
                    i < size,
                    self@.size == size as nat,
                    board_wf(self@),
                    s@ == header_prefix() + cols_upto(size as int) + rows_upto(self@, i as int)
                        + row_label(i as int) + cells_upto(self@, i as int, j as int),
                decreases size - j,
            {
                proof {
                    lemma_cell_index_in_range(i as int, j as int, size as int);
                }
                let k: usize = (i as usize) * (size as usize) + (j as usize);
                match self.cells[k] {
                    Cell::Empty => {
                        s.append("|* | \t");
                        proof {
                            reveal_strlit("|* | \t");
                        }
                    },
                    Cell::Stone(Color::Black) => {
                        s.append("|B | \t");
                        proof {
                            reveal_strlit("|B | \t");
                        }
                    },
                    Cell::Stone(Color::White) => {
                        s.append("|W |\t");
                        proof {
                            reveal_strlit("|W |\t");
                        }
                    },
                }
                proof {
                    assert(s@ =~= header_prefix() + cols_upto(size as int) + rows_upto(
                        self@,
                        i as int,
                    ) + row_label(i as int) + cells_upto(self@, i as int, j as int + 1));
                }
                j += 1;
            }
            proof {
                assert(s@ =~= header_prefix() + cols_upto(size as int) + rows_upto(
                    self@,
                    i as int + 1,
                ));
            }
            i += 1;
        }
        proof {
            assert(s@ =~= spec_render(self@));
        }
        s
    }
}

} // verus!
