//! Textual rendering of a board, specified character by character.
//!
//! The text begins with a header line naming every column index, zero
//! padded to two digits; each following line begins with its row index and
//! shows one glyph per column: `*` for an empty cell, `B` for a black
//! stone, `W` for a white stone.

use vstd::prelude::*;
use vstd::string::StringExecFns;

use crate::board::BoardView;
use crate::{Cell, Color};

verus! {

/// The character for one decimal digit.
pub open spec fn digit_char(d: int) -> char {
    if d == 0 {
        '0'
    } else if d == 1 {
        '1'
    } else if d == 2 {
        '2'
    } else if d == 3 {
        '3'
    } else if d == 4 {
        '4'
    } else if d == 5 {
        '5'
    } else if d == 6 {
        '6'
    } else if d == 7 {
        '7'
    } else if d == 8 {
        '8'
    } else {
        '9'
    }
}

/// An index written with exactly two decimal digits.
pub open spec fn two_digit_seq(n: int) -> Seq<char> {
    seq![digit_char(n / 10), digit_char(n % 10)]
}

/// The glyph cluster printed for one cell.
pub open spec fn glyph(c: Cell) -> Seq<char> {
    match c {
        Cell::Empty => seq!['|', '*', ' ', '|', ' ', '\t'],
        Cell::Stone(Color::Black) => seq!['|', 'B', ' ', '|', ' ', '\t'],
        Cell::Stone(Color::White) => seq!['|', 'W', ' ', '|', '\t'],
    }
}

/// The corner label that opens the header line.
pub open spec fn header_prefix() -> Seq<char> {
    seq!['|', '#', '#', '|', '\t']
}

/// The header label of column `i`.
pub open spec fn col_label(i: int) -> Seq<char> {
    seq!['|'] + two_digit_seq(i) + seq!['|', '\t']
}

/// The header labels of the first `n` columns, in ascending order.
pub open spec fn cols_upto(n: int) -> Seq<char>
    decreases n,
{
    if n <= 0 {
        Seq::empty()
    } else {
        cols_upto(n - 1) + col_label(n - 1)
    }
}

/// The line break and row label that open the line of row `i`.
pub open spec fn row_label(i: int) -> Seq<char> {
    seq!['\n', '|'] + two_digit_seq(i) + seq!['|', '\t']
}

/// The glyphs of the first `n` cells of row `i`, in ascending column order.
pub open spec fn cells_upto(v: BoardView, i: int, n: int) -> Seq<char>
    decreases n,
{
    if n <= 0 {
        Seq::empty()
    } else {
        cells_upto(v, i, n - 1) + glyph(v.cells[i * v.size + (n - 1)])
    }
}

/// The full line of row `i`.
pub open spec fn row_seq(v: BoardView, i: int) -> Seq<char> {
    row_label(i) + cells_upto(v, i, v.size as int)
}

/// The lines of the first `n` rows, in ascending order.
pub open spec fn rows_upto(v: BoardView, n: int) -> Seq<char>
    decreases n,
{
    if n <= 0 {
        Seq::empty()
    } else {
        rows_upto(v, n - 1) + row_seq(v, n - 1)
    }
}

/// The complete rendering of a board: header line, then one line per row,
/// top to bottom, with no trailing line break.
pub open spec fn spec_render(v: BoardView) -> Seq<char> {
    header_prefix() + cols_upto(v.size as int) + rows_upto(v, v.size as int)
}

/// Rendering is a pure function of board content: two boards with the
/// same side length and the same cells render to the same text, however
/// each arrived at that content.
pub proof fn lemma_render_deterministic(v1: BoardView, v2: BoardView)
    requires
        v1.size == v2.size,
        v1.cells == v2.cells,
    ensures
        spec_render(v1) == spec_render(v2),
{
    assert(v1 =~= v2);
}

/// The str literal for one decimal digit.
fn digit_str(d: u8) -> (r: &'static str)
    requires
        d < 10,
    ensures
        r@ == seq![digit_char(d as int)],
{
    proof {
        reveal_strlit("0");
        reveal_strlit("1");
        reveal_strlit("2");
        reveal_strlit("3");
        reveal_strlit("4");
        reveal_strlit("5");
        reveal_strlit("6");
        reveal_strlit("7");
        reveal_strlit("8");
        reveal_strlit("9");
    }
    if d == 0 {
        proof {
            assert("0"@ =~= seq![digit_char(0)]);
        }
        "0"
    } else if d == 1 {
        proof {
            assert("1"@ =~= seq![digit_char(1)]);
        }
        "1"
    } else if d == 2 {
        proof {
            assert("2"@ =~= seq![digit_char(2)]);
        }
        "2"
    } else if d == 3 {
        proof {
            assert("3"@ =~= seq![digit_char(3)]);
        }
        "3"
    } else if d == 4 {
        proof {
            assert("4"@ =~= seq![digit_char(4)]);
        }
        "4"
    } else if d == 5 {
        proof {
            assert("5"@ =~= seq![digit_char(5)]);
        }
        "5"
    } else if d == 6 {
        proof {
            assert("6"@ =~= seq![digit_char(6)]);
        }
        "6"
    } else if d == 7 {
        proof {
            assert("7"@ =~= seq![digit_char(7)]);
        }
        "7"
    } else if d == 8 {
        proof {
            assert("8"@ =~= seq![digit_char(8)]);
        }
        "8"
    } else {
        proof {
            assert("9"@ =~= seq![digit_char(9)]);
        }
        "9"
    }
}

/// An index written with exactly two decimal digits, zero padded.
pub fn two_digit(n: u8) -> (r: String)
    requires
        n < 100,
    ensures
        r@ == two_digit_seq(n as int),
{
    let mut s = String::new();
    s.append(digit_str(n / 10));
    s.append(digit_str(n % 10));
    proof {
        assert(s@ =~= two_digit_seq(n as int));
    }
    s
}

} // verus!
