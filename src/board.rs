//! The 3×3 board and the detection of a completed line.
use vstd::prelude::*;
use vstd::array::spec_array_update;

verus! {

/// What a cell of the board holds.
#[derive(Clone, Copy, Debug, PartialEq, Eq, Structural)]
pub enum Symbol {
    SymbolX,
    SymbolO,
    SymbolEmpty,
}

/// A board: three rows of three cells.
pub type Board = [[Symbol; 3]; 3];

/// The cell at row `r`, column `c`.
pub open spec fn cell(b: Board, r: int, c: int) -> Symbol {
    b@[r]@[c]
}

/// The three given cells hold one and the same mark.
pub open spec fn line_complete(b: Board, r0: int, c0: int, r1: int, c1: int, r2: int, c2: int) -> bool {
    &&& cell(b, r0, c0) != Symbol::SymbolEmpty
    &&& cell(b, r0, c0) == cell(b, r1, c1)
    &&& cell(b, r0, c0) == cell(b, r2, c2)
}

/// Row `r` is complete.
pub open spec fn row_complete(b: Board, r: int) -> bool {
    line_complete(b, r, 0, r, 1, r, 2)
}

/// Column `c` is complete.
pub open spec fn col_complete(b: Board, c: int) -> bool {
    line_complete(b, 0, c, 1, c, 2, c)
}

/// The diagonal from the top left corner is complete.
pub open spec fn main_diagonal_complete(b: Board) -> bool {
    line_complete(b, 0, 0, 1, 1, 2, 2)
}

/// The diagonal from the top right corner is complete.
pub open spec fn anti_diagonal_complete(b: Board) -> bool {
    line_complete(b, 0, 2, 1, 1, 2, 0)
}

/// Some row, column or diagonal of the board is complete.
pub open spec fn has_winner(b: Board) -> bool {
    ||| row_complete(b, 0)
    ||| row_complete(b, 1)
    ||| row_complete(b, 2)
    ||| col_complete(b, 0)
    ||| col_complete(b, 1)
    ||| col_complete(b, 2)
    ||| main_diagonal_complete(b)
    ||| anti_diagonal_complete(b)
}

/// One for a marked cell, zero for an empty one.
pub open spec fn filled(x: Symbol) -> int {
    if x != Symbol::SymbolEmpty { 1 } else { 0 }
}

/// The number of cells of the board that hold a mark.
pub open spec fn marked_count(b: Board) -> int {
    filled(cell(b, 0, 0)) + filled(cell(b, 0, 1)) + filled(cell(b, 0, 2))
    + filled(cell(b, 1, 0)) + filled(cell(b, 1, 1)) + filled(cell(b, 1, 2))
    + filled(cell(b, 2, 0)) + filled(cell(b, 2, 1)) + filled(cell(b, 2, 2))
}

/// The board with every cell empty.
pub open spec fn is_empty_board(b: Board) -> bool {
    forall|r: int, c: int| 0 <= r < 3 && 0 <= c < 3 ==> #[trigger] cell(b, r, c) == Symbol::SymbolEmpty
}

/// The board `b` with the cell at row `r`, column `c` set to `s`.
pub open spec fn board_with(b: Board, r: int, c: int, s: Symbol) -> Board {
    spec_array_update(b, r, spec_array_update(b@[r], c, s))
}

/// A board with every cell empty.
pub fn empty_board() -> (b: Board)
    ensures
        is_empty_board(b),
        marked_count(b) == 0,
        !has_winner(b),
{
    let b = [[Symbol::SymbolEmpty; 3]; 3];
    proof {
        assert forall|r: int, c: int| 0 <= r < 3 && 0 <= c < 3 implies #[trigger] cell(b, r, c) == Symbol::SymbolEmpty by {
            assert(b@[r]@[c] == Symbol::SymbolEmpty);
        }
    }
    b
}

/// Whether a row, a column or a diagonal of the board holds three equal marks.
pub fn check_winner(board: Board) -> (r: bool)
    ensures
        r == has_winner(board),
{
    let mut i: usize = 0;
    while i < 3
        invariant
            0 <= i <= 3,
            forall|k: int| 0 <= k < i ==> !row_complete(board, k) && !col_complete(board, k),
        decreases 3 - i,
    {
        if board[i][0] != Symbol::SymbolEmpty && board[i][0] == board[i][1] && board[i][0] == board[i][2] {
            return true;
        }
        if board[0][i] != Symbol::SymbolEmpty && board[0][i] == board[1][i] && board[0][i] == board[2][i] {
            return true;
        }
        i = i + 1;
    }
    assert(!row_complete(board, 0) && !row_complete(board, 1) && !row_complete(board, 2));
    assert(!col_complete(board, 0) && !col_complete(board, 1) && !col_complete(board, 2));
    if board[0][0] != Symbol::SymbolEmpty && board[0][0] == board[1][1] && board[0][0] == board[2][2] {
        return true;
    }
    if board[0][2] != Symbol::SymbolEmpty && board[0][2] == board[1][1] && board[0][2] == board[2][0] {
        return true;
    }
    false
}

/// Sets the cell at row `r`, column `c` to `s`.
pub fn set_cell(board: &mut Board, r: usize, c: usize, s: Symbol)
    requires
        r < 3,
        c < 3,
    ensures
        *final(board) == board_with(*old(board), r as int, c as int, s),
{
    let mut row = board[r];
    row[c] = s;
    board[r] = row;
}

} // verus!
