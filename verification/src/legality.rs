//! The engine that decides whether a candidate move is legal.
//!
//! Nothing here changes a board: every function is a pure reading of its
//! arguments and may be called any number of times, for play or for search.

use vstd::prelude::*;
use crate::board::{Board, Position};
use crate::piece::Piece;
use crate::player::Player;
use crate::rules::{
    Grid, Mask, corner_neighbour, covers_start_corner, evaluate, first_move, grid_wf, in_bounds,
    occupies, out_of_bounds, overlaps, owner_at, placeable, side_neighbour, touches_corner,
    touches_side,
};
use crate::verdict::{IllegalReason, LegalityVerdict};

verus! {

/// Whether `player` owns the cell at `(row, col)`.
fn owned_by(board: &Board, row: usize, col: usize, player: &Player) -> (owned: bool)
    ensures
        owned == (owner_at(board@, row as int, col as int) == Some(*player)),
{
    match board.cell_at(row, col) {
        Some(owner) => owner == *player,
        None => false,
    }
}

/// Whether `player` has yet to place a piece: they own no cell of the board.
pub fn is_first_move(board: &Board, player: &Player) -> (first: bool)
    ensures
        first == first_move(board@, *player),
{
    let rows = board.rows();
    let cols = board.cols();
    let mut row: usize = 0;
    while row < rows
        invariant
            grid_wf(board@),
            rows == board@.len(),
            cols == board@[0].len(),
            row <= rows,
            forall|r: int, c: int|
                0 <= r < row ==> #[trigger] owner_at(board@, r, c) != Some(*player),
        decreases rows - row,
    {
        let mut col: usize = 0;
        while col < cols
            invariant
                grid_wf(board@),
                rows == board@.len(),
                cols == board@[0].len(),
                row < rows,
                col <= cols,
                forall|r: int, c: int|
                    0 <= r < row || (r == row && 0 <= c < col) ==> #[trigger] owner_at(
                        board@,
                        r,
                        c,
                    ) != Some(*player),
            decreases cols - col,
        {
            if owned_by(board, row, col, player) {
                return false;
            }
            col += 1;
        }
        row += 1;
    }
    true
}

/// Whether the piece, anchored at `position`, occupies the starting corner
/// of `player`.
pub fn is_corner_move(board: &Board, piece: &Piece, position: &Position, player: &Player) -> (covered: bool)
    ensures
        covered == covers_start_corner(
            board@,
            piece@,
            position.0 as int,
            position.1 as int,
            *player,
        ),
{
    let (corner_row, corner_col) = match player {
        Player::Player1 => (0, 0),
        Player::Player2 => (board.rows() - 1, board.cols() - 1),
    };
    corner_row >= position.0 && corner_col >= position.1 && piece.is_occupied(
        corner_row - position.0,
        corner_col - position.1,
    )
}

/// Whether `player` owns a cell diagonally next to `(row, col)`. The
/// position itself need not lie on the board.
pub fn check_touching_corner(board: &Board, row: usize, col: usize, player: &Player) -> (touching: bool)
    ensures
        touching == corner_neighbour(board@, row as int, col as int, *player),
{
    let rows = board.rows();
    let cols = board.cols();
    let up = row > 0;
    let down = row < rows - 1;
    let left = col > 0;
    let right = col < cols - 1;
    (up && left && owned_by(board, row - 1, col - 1, player))
        || (up && right && owned_by(board, row - 1, col + 1, player))
        || (down && left && owned_by(board, row + 1, col - 1, player))
        || (down && right && owned_by(board, row + 1, col + 1, player))
}

/// Whether `player` owns a cell sharing a side with `(row, col)`. The
/// position itself need not lie on the board.
pub fn check_touching_side(board: &Board, row: usize, col: usize, player: &Player) -> (touching: bool)
    ensures
        touching == side_neighbour(board@, row as int, col as int, *player),
{
    let rows = board.rows();
    let cols = board.cols();
    (row > 0 && owned_by(board, row - 1, col, player))
        || (col > 0 && owned_by(board, row, col - 1, player))
        || (col < cols - 1 && owned_by(board, row, col + 1, player))
        || (row < rows - 1 && owned_by(board, row + 1, col, player))
}

/// What one pass over the occupied cells of a placed piece finds.
#[derive(Clone, Copy, Debug)]
pub struct PlacementScan {
    /// Some occupied cell falls outside the board.
    pub out_of_bounds: bool,
    /// Some occupied cell lands on an owned cell.
    pub overlap: bool,
    /// Some occupied cell shares a side with a cell of the player.
    pub touches_side: bool,
    /// Some occupied cell is diagonally next to a cell of the player.
    pub touches_corner: bool,
}

/// The four things a scan looks for at each occupied cell.
enum Probe {
    Outside,
    Owned,
    Side,
    Corner,
}

/// Whether the probe finds what it looks for at `(row, col)`.
spec fn probe_hits(probe: Probe, grid: Grid, player: Player, row: int, col: int) -> bool {
    match probe {
        Probe::Outside => !in_bounds(grid, row, col),
        Probe::Owned => owner_at(grid, row, col) is Some,
        Probe::Side => side_neighbour(grid, row, col, player),
        Probe::Corner => corner_neighbour(grid, row, col, player),
    }
}

/// Whether the offset `(dr, dc)` comes before `(i, j)` when a mask is read
/// row after row.
spec fn passed(i: int, j: int, dr: int, dc: int) -> bool {
    dr < i || (dr == i && dc < j)
}

/// Whether the probe hits at some occupied cell that comes before the
/// offset `(i, j)`.
spec fn found(
    probe: Probe,
    grid: Grid,
    mask: Mask,
    anchor_row: int,
    anchor_col: int,
    player: Player,
    i: int,
    j: int,
) -> bool {
    exists|dr: int, dc: int| #[trigger]
        occupies(mask, dr, dc) && passed(i, j, dr, dc) && probe_hits(
            probe,
            grid,
            player,
            anchor_row + dr,
            anchor_col + dc,
        )
}

/// Reading one more cell adds what the probe finds there.
proof fn lemma_found_next(
    probe: Probe,
    grid: Grid,
    mask: Mask,
    anchor_row: int,
    anchor_col: int,
    player: Player,
    i: int,
    j: int,
)
    ensures
        found(probe, grid, mask, anchor_row, anchor_col, player, i, j + 1) == (found(
            probe,
            grid,
            mask,
            anchor_row,
            anchor_col,
            player,
            i,
            j,
        ) || (occupies(mask, i, j) && probe_hits(
            probe,
            grid,
            player,
            anchor_row + i,
            anchor_col + j,
        ))),
{
}

/// Past the end of a row nothing is occupied, so the next row may begin.
proof fn lemma_found_next_row(
    probe: Probe,
    grid: Grid,
    mask: Mask,
    anchor_row: int,
    anchor_col: int,
    player: Player,
    i: int,
    j: int,
)
    requires
        0 <= i < mask.len() ==> j >= mask[i].len(),
    ensures
        found(probe, grid, mask, anchor_row, anchor_col, player, i, j) == found(
            probe,
            grid,
            mask,
            anchor_row,
            anchor_col,
            player,
            i + 1,
            0,
        ),
{
}

/// Once every row has been read, the four probes have decided the four
/// questions a verdict rests on; before the first cell, none has hit.
proof fn lemma_found_all(
    grid: Grid,
    mask: Mask,
    anchor_row: int,
    anchor_col: int,
    player: Player,
    i: int,
)
    requires
        i >= mask.len(),
    ensures
        found(Probe::Outside, grid, mask, anchor_row, anchor_col, player, i, 0) == out_of_bounds(
            grid,
            mask,
            anchor_row,
            anchor_col,
        ),
        found(Probe::Owned, grid, mask, anchor_row, anchor_col, player, i, 0) == overlaps(
            grid,
            mask,
            anchor_row,
            anchor_col,
        ),
        found(Probe::Side, grid, mask, anchor_row, anchor_col, player, i, 0) == touches_side(
            grid,
            mask,
            anchor_row,
            anchor_col,
            player,
        ),
        found(Probe::Corner, grid, mask, anchor_row, anchor_col, player, i, 0) == touches_corner(
            grid,
            mask,
            anchor_row,
            anchor_col,
            player,
        ),
        forall|probe: Probe| !found(probe, grid, mask, anchor_row, anchor_col, player, 0, 0),
{
}

/// Reads every occupied cell of the piece anchored at `position` and reports
/// whether any of them leaves the board, lands on an owned cell, shares a
/// side with a cell of `player`, or touches one diagonally.
///
/// The four answers are independent: each is given for the whole piece,
/// whatever the others are.
pub fn scan_placement(board: &Board, piece: &Piece, position: &Position, player: &Player) -> (scan: PlacementScan)
    ensures
        scan.out_of_bounds == out_of_bounds(
            board@,
            piece@,
            position.0 as int,
            position.1 as int,
        ),
        scan.overlap == overlaps(board@, piece@, position.0 as int, position.1 as int),
        scan.touches_side == touches_side(
            board@,
            piece@,
            position.0 as int,
            position.1 as int,
            *player,
        ),
        scan.touches_corner == touches_corner(
            board@,
            piece@,
            position.0 as int,
            position.1 as int,
            *player,
        ),
{
    let rows = board.rows();
    let cols = board.cols();
    let height = piece.height();
    let ghost grid = board@;
    let ghost mask = piece@;
    let ghost ar = position.0 as int;
    let ghost ac = position.1 as int;
    let mut scan = PlacementScan {
        out_of_bounds: false,
        overlap: false,
        touches_side: false,
        touches_corner: false,
    };
    proof {
        lemma_found_all(grid, mask, ar, ac, *player, mask.len() as int);
    }
    let mut i: usize = 0;
    while i < height
        invariant
            grid == board@,
            mask == piece@,
            ar == position.0,
            ac == position.1,
            grid_wf(grid),
            rows == grid.len(),
            cols == grid[0].len(),
            height == mask.len(),
            i <= height,
            scan.out_of_bounds == found(Probe::Outside, grid, mask, ar, ac, *player, i as int, 0),
            scan.overlap == found(Probe::Owned, grid, mask, ar, ac, *player, i as int, 0),
            scan.touches_side == found(Probe::Side, grid, mask, ar, ac, *player, i as int, 0),
            scan.touches_corner == found(Probe::Corner, grid, mask, ar, ac, *player, i as int, 0),
        decreases height - i,
    {
        let width = piece.width(i);
        let mut j: usize = 0;
        while j < width
            invariant
                grid == board@,
                mask == piece@,
                ar == position.0,
                ac == position.1,
                grid_wf(grid),
                rows == grid.len(),
                cols == grid[0].len(),
                height == mask.len(),
                i < height,
                width == mask[i as int].len(),
                j <= width,
                scan.out_of_bounds == found(
                    Probe::Outside,
                    grid,
                    mask,
                    ar,
                    ac,
                    *player,
                    i as int,
                    j as int,
                ),
                scan.overlap == found(Probe::Owned, grid, mask, ar, ac, *player, i as int, j as int),
                scan.touches_side == found(
                    Probe::Side,
                    grid,
                    mask,
                    ar,
                    ac,
                    *player,
                    i as int,
                    j as int,
                ),
                scan.touches_corner == found(
                    Probe::Corner,
                    grid,
                    mask,
                    ar,
                    ac,
                    *player,
                    i as int,
                    j as int,
                ),
            decreases width - j,
        {
            proof {
                lemma_found_next(Probe::Outside, grid, mask, ar, ac, *player, i as int, j as int);
                lemma_found_next(Probe::Owned, grid, mask, ar, ac, *player, i as int, j as int);
                lemma_found_next(Probe::Side, grid, mask, ar, ac, *player, i as int, j as int);
                lemma_found_next(Probe::Corner, grid, mask, ar, ac, *player, i as int, j as int);
            }
            if piece.is_occupied(i, j) {
                if i > usize::MAX - position.0 || j > usize::MAX - position.1 {
                    // The cell lies beyond what the machine can address, and
                    // so beyond the board and all its neighbours.
                    scan.out_of_bounds = true;
                } else {
                    let row = position.0 + i;
                    let col = position.1 + j;
                    if row >= rows || col >= cols {
                        scan.out_of_bounds = true;
                    } else if board.cell_at(row, col).is_some() {
                        scan.overlap = true;
                    }
                    if check_touching_side(board, row, col, player) {
                        scan.touches_side = true;
                    }
                    if check_touching_corner(board, row, col, player) {
                        scan.touches_corner = true;
                    }
                }
            }
            j += 1;
        }
        proof {
            lemma_found_next_row(Probe::Outside, grid, mask, ar, ac, *player, i as int, j as int);
            lemma_found_next_row(Probe::Owned, grid, mask, ar, ac, *player, i as int, j as int);
            lemma_found_next_row(Probe::Side, grid, mask, ar, ac, *player, i as int, j as int);
            lemma_found_next_row(Probe::Corner, grid, mask, ar, ac, *player, i as int, j as int);
        }
        i += 1;
    }
    proof {
        lemma_found_all(grid, mask, ar, ac, *player, i as int);
    }
    scan
}

/// Whether the piece may be placed at `position` by a player who has placed
/// a piece before: it stays on the board and on free cells, shares no side
/// with the player's own cells and touches one of them diagonally.
pub fn can_place_piece(board: &Board, piece: &Piece, position: &Position, player: &Player) -> (allowed: bool)
    ensures
        allowed == placeable(board@, piece@, position.0 as int, position.1 as int, *player),
{
    let scan = scan_placement(board, piece, position, player);
    !scan.out_of_bounds && !scan.overlap && !scan.touches_side && scan.touches_corner
}

/// Decides the move of placing `piece` at `position` for `player`.
///
/// The function is total. An anchor far away from the board, a piece without
/// any occupied cell and a mask whose rows differ in length all receive a
/// verdict like any other move.
pub fn is_valid_move(board: &Board, piece: &Piece, position: &Position, player: &Player) -> (verdict: LegalityVerdict)
    ensures
        verdict == evaluate(board@, piece@, position.0 as int, position.1 as int, *player),
{
    let scan = scan_placement(board, piece, position, player);
    if scan.out_of_bounds {
        LegalityVerdict::Illegal(IllegalReason::OutOfBounds)
    } else if scan.overlap {
        LegalityVerdict::Illegal(IllegalReason::Overlap)
    } else if is_first_move(board, player) {
        if is_corner_move(board, piece, position, player) {
            LegalityVerdict::Legal
        } else {
            LegalityVerdict::Illegal(IllegalReason::MissingCornerStart)
        }
    } else if scan.touches_side {
        LegalityVerdict::Illegal(IllegalReason::EdgeAdjacencyToOwnColor)
    } else if !scan.touches_corner {
        LegalityVerdict::Illegal(IllegalReason::NoCornerAdjacencyToOwnColor)
    } else {
        LegalityVerdict::Legal
    }
}

} // verus!
