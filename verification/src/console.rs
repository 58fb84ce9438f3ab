//! The picture of a board, for a text front end.

use vstd::prelude::*;
use crate::board::Board;
use crate::player::Player;
use crate::rules::{Grid, grid_wf};

verus! {

/// The character that stands for a cell: `1` and `2` for the two players,
/// a dot for a free cell.
pub open spec fn marker(cell: Option<Player>) -> char {
    match cell {
        Some(Player::Player1) => '1',
        Some(Player::Player2) => '2',
        None => '.',
    }
}

/// The picture of a grid: one line for each row, one character for each
/// cell.
pub open spec fn picture(grid: Grid) -> Seq<Seq<char>> {
    Seq::new(grid.len(), |row: int| Seq::new(grid[row].len(), |col: int| marker(grid[row][col])))
}

/// The lines of a picture, as plain sequences of characters.
pub open spec fn lines_of(lines: Seq<Vec<char>>) -> Seq<Seq<char>> {
    Seq::new(lines.len(), |row: int| lines[row]@)
}

/// The character that stands for a cell.
pub fn cell_marker(cell: Option<Player>) -> (mark: char)
    ensures
        mark == marker(cell),
{
    match cell {
        Some(Player::Player1) => '1',
        Some(Player::Player2) => '2',
        None => '.',
    }
}

/// Draws the board: one line for each row, from the top, with one character
/// for each cell, from the left.
pub fn render_board(board: &Board) -> (lines: Vec<Vec<char>>)
    ensures
        lines_of(lines@) == picture(board@),
{
    let rows = board.rows();
    let cols = board.cols();
    let mut lines: Vec<Vec<char>> = Vec::new();
    let mut row: usize = 0;
    while row < rows
        invariant
            grid_wf(board@),
            rows == board@.len(),
            cols == board@[0].len(),
            row <= rows,
            lines@.len() == row,
            forall|r: int| 0 <= r < row ==> (#[trigger] lines@[r])@ == picture(board@)[r],
        decreases rows - row,
    {
        let mut line: Vec<char> = Vec::new();
        let mut col: usize = 0;
        while col < cols
            invariant
                grid_wf(board@),
                rows == board@.len(),
                cols == board@[0].len(),
                row < rows,
                col <= cols,
                line@.len() == col,
                forall|c: int|
                    0 <= c < col ==> #[trigger] line@[c] == marker(board@[row as int][c]),
            decreases cols - col,
        {
            line.push(cell_marker(board.cell_at(row, col)));
            col += 1;
        }
        assert(line@ =~= picture(board@)[row as int]);
        lines.push(line);
        row += 1;
    }
    assert(lines_of(lines@) =~= picture(board@));
    lines
}

} // verus!
