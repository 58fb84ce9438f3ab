//! The playing grid.

use vstd::prelude::*;
use crate::player::Player;
use crate::rules::{Grid, empty_grid, grid_wf, in_bounds, owner_at};

verus! {

/// Where a piece is anchored, or where a cell lies: `(row, col)`, counted from
/// the top-left cell of the board.
pub type Position = (usize, usize);

/// A grid of fixed size whose cells are free or owned by a player.
///
/// A board always has at least one row and one column. Its size never
/// changes, and no operation frees a cell. Cells are stored row after row.
pub struct Board {
    rows: usize,
    cols: usize,
    cells: Vec<Option<Player>>,
}

impl View for Board {
    type V = Grid;

    closed spec fn view(&self) -> Grid {
        Seq::new(
            self.rows as nat,
            |row: int| Seq::new(self.cols as nat, |col: int| self.cells@[row * self.cols + col]),
        )
    }
}

/// The cell `(row, col)` of a grid with `cols` columns has its own place in
/// the row-after-row storage of `rows * cols` cells.
proof fn lemma_cell_slot(rows: int, cols: int, row: int, col: int)
    requires
        0 <= row < rows,
        0 <= col < cols,
    ensures
        0 <= row * cols + col < rows * cols,
{
    assert(row * cols >= 0) by (nonlinear_arith)
        requires
            row >= 0,
            cols >= 0,
    ;
    assert(row * cols + cols <= rows * cols) by (nonlinear_arith)
        requires
            row + 1 <= rows,
            cols >= 0,
    ;
}

/// Two cells that share a place in the storage are the same cell.
proof fn lemma_cell_slot_unique(cols: int, row1: int, col1: int, row2: int, col2: int)
    requires
        0 <= col1 < cols,
        0 <= col2 < cols,
        row1 * cols + col1 == row2 * cols + col2,
    ensures
        row1 == row2,
        col1 == col2,
{
    if row1 < row2 {
        assert(row1 * cols + cols <= row2 * cols) by (nonlinear_arith)
            requires
                row1 + 1 <= row2,
                cols >= 0,
        ;
    } else if row2 < row1 {
        assert(row2 * cols + cols <= row1 * cols) by (nonlinear_arith)
            requires
                row2 + 1 <= row1,
                cols >= 0,
        ;
    }
}

/// Overwrites one stored cell.
fn store(cells: &mut Vec<Option<Player>>, slot: usize, owner: Option<Player>)
    requires
        slot < old(cells)@.len(),
    ensures
        final(cells)@ == old(cells)@.update(slot as int, owner),
    no_unwind
{
    cells[slot] = owner;
}

impl Board {
    /// Holds of every board a program can have: the board has at least one
    /// row and one column, and stores exactly the cells of its grid.
    #[verifier::type_invariant]
    pub closed spec fn well_formed(&self) -> bool {
        &&& self.rows > 0
        &&& self.cols > 0
        &&& self.cells@.len() == self.rows * self.cols
    }

    /// The grid of a board is well formed, and its size fits the machine.
    pub proof fn lemma_well_formed(&self)
        requires
            self.well_formed(),
        ensures
            grid_wf(self@),
            self@.len() <= usize::MAX,
            self@[0].len() <= usize::MAX,
    {
    }

    /// A board of the given size on which every cell is free. The number of
    /// cells must fit the machine.
    pub fn new(rows: usize, cols: usize) -> (board: Board)
        requires
            rows > 0,
            cols > 0,
            rows * cols <= usize::MAX,
        ensures
            board@ == empty_grid(rows as nat, cols as nat),
    {
        let count = rows * cols;
        let mut cells: Vec<Option<Player>> = Vec::new();
        let mut filled: usize = 0;
        while filled < count
            invariant
                filled <= count,
                cells@.len() == filled,
                forall|k: int| 0 <= k < filled ==> (#[trigger] cells@[k]) is None,
            decreases count - filled,
        {
            cells.push(None);
            filled += 1;
        }
        let board = Board { rows, cols, cells };
        assert forall|row: int, col: int| 0 <= row < rows && 0 <= col < cols implies (
        #[trigger] board@[row][col]) is None by {
            lemma_cell_slot(rows as int, cols as int, row, col);
        }
        assert(board@ =~~= empty_grid(rows as nat, cols as nat));
        board
    }

    /// Number of rows.
    pub fn rows(&self) -> (n: usize)
        ensures
            n == self@.len(),
            grid_wf(self@),
    {
        proof {
            use_type_invariant(self);
        }
        self.rows
    }

    /// Number of columns.
    pub fn cols(&self) -> (n: usize)
        ensures
            n == self@[0].len(),
            grid_wf(self@),
    {
        proof {
            use_type_invariant(self);
        }
        self.cols
    }

    /// The owner of the cell at `(row, col)`, or `None` where the cell is
    /// free or the position lies outside the board.
    pub fn cell_at(&self, row: usize, col: usize) -> (owner: Option<Player>)
        ensures
            owner == owner_at(self@, row as int, col as int),
    {
        proof {
            use_type_invariant(self);
        }
        if row < self.rows && col < self.cols {
            proof {
                lemma_cell_slot(self.rows as int, self.cols as int, row as int, col as int);
                assert(self.cells.len() == self.rows * self.cols);
            }
            self.cells[row * self.cols + col]
        } else {
            None
        }
    }

    /// Gives the cell at `(row, col)` to `player`, whoever owned it before,
    /// and reports whether it did so: a position outside the board is left
    /// alone and reported as `false`.
    pub fn set_owner(&mut self, row: usize, col: usize, player: Player) -> (written: bool)
        ensures
            written == in_bounds(old(self)@, row as int, col as int),
            written ==> final(self)@ == old(self)@.update(
                row as int,
                old(self)@[row as int].update(col as int, Some(player)),
            ),
            !written ==> final(self)@ == old(self)@,
    {
        proof {
            use_type_invariant(&*self);
        }
        if row < self.rows && col < self.cols {
            proof {
                lemma_cell_slot(self.rows as int, self.cols as int, row as int, col as int);
                assert(self.cells.len() == self.rows * self.cols);
            }
            let slot = row * self.cols + col;
            store(&mut self.cells, slot, Some(player));
            proof {
                let cols = self.cols as int;
                let after = old(self)@.update(
                    row as int,
                    old(self)@[row as int].update(col as int, Some(player)),
                );
                assert forall|r: int, c: int| 0 <= r < self.rows && 0 <= c < cols implies (
                #[trigger] self@[r][c]) == after[r][c] by {
                    lemma_cell_slot(self.rows as int, cols, r, c);
                    if r * cols + c == slot {
                        lemma_cell_slot_unique(cols, r, c, row as int, col as int);
                    }
                }
                assert(self@ =~~= after);
            }
            true
        } else {
            false
        }
    }
}

/// The board a game starts on: fourteen rows of fourteen free cells.
pub fn initialize_board() -> (board: Board)
    ensures
        board@ == empty_grid(14, 14),
{
    Board::new(14, 14)
}

} // verus!
