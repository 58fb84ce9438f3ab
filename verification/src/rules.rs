//! The placement rules, stated over mathematical grids and masks.
//!
//! A grid is a sequence of rows, each a sequence of cells that are either
//! free (`None`) or owned (`Some(player)`). A mask is a sequence of rows of
//! booleans, `true` marking an occupied cell. A piece is placed by its
//! anchor: the grid cell on which the mask's top-left cell lands.

use vstd::prelude::*;
use crate::player::Player;
use crate::verdict::{IllegalReason, LegalityVerdict};

verus! {

/// Cell ownership, row by row.
pub type Grid = Seq<Seq<Option<Player>>>;

/// Occupancy of a piece, row by row.
pub type Mask = Seq<Seq<bool>>;

/// A grid has at least one row and one column, and all its rows are equally
/// long.
pub open spec fn grid_wf(grid: Grid) -> bool {
    &&& grid.len() > 0
    &&& grid[0].len() > 0
    &&& forall|row: int| 0 <= row < grid.len() ==> (#[trigger] grid[row]).len() == grid[0].len()
}

/// The grid of the given size on which nobody owns anything.
pub open spec fn empty_grid(rows: nat, cols: nat) -> Grid {
    Seq::new(rows, |row: int| Seq::new(cols, |col: int| None::<Player>))
}

/// Whether `(row, col)` names a cell of the grid.
pub open spec fn in_bounds(grid: Grid, row: int, col: int) -> bool {
    0 <= row < grid.len() && 0 <= col < grid[row].len()
}

/// The owner of a cell; nobody owns what lies outside the grid.
pub open spec fn owner_at(grid: Grid, row: int, col: int) -> Option<Player> {
    if in_bounds(grid, row, col) {
        grid[row][col]
    } else {
        None
    }
}

/// Whether the mask is occupied at the given offset from its top-left cell.
pub open spec fn occupies(mask: Mask, row_offset: int, col_offset: int) -> bool {
    &&& 0 <= row_offset < mask.len()
    &&& 0 <= col_offset < mask[row_offset].len()
    &&& mask[row_offset][col_offset]
}

/// Whether the piece, placed at the anchor, occupies the grid position
/// `(row, col)`.
pub open spec fn covers(mask: Mask, anchor_row: int, anchor_col: int, row: int, col: int) -> bool {
    occupies(mask, row - anchor_row, col - anchor_col)
}

/// Whether `player` owns a cell sharing a side with `(row, col)`.
pub open spec fn side_neighbour(grid: Grid, row: int, col: int, player: Player) -> bool {
    ||| owner_at(grid, row - 1, col) == Some(player)
    ||| owner_at(grid, row, col - 1) == Some(player)
    ||| owner_at(grid, row, col + 1) == Some(player)
    ||| owner_at(grid, row + 1, col) == Some(player)
}

/// Whether `player` owns a cell diagonally next to `(row, col)`.
pub open spec fn corner_neighbour(grid: Grid, row: int, col: int, player: Player) -> bool {
    ||| owner_at(grid, row - 1, col - 1) == Some(player)
    ||| owner_at(grid, row - 1, col + 1) == Some(player)
    ||| owner_at(grid, row + 1, col - 1) == Some(player)
    ||| owner_at(grid, row + 1, col + 1) == Some(player)
}

/// Some occupied cell of the placed piece falls outside the grid.
pub open spec fn out_of_bounds(grid: Grid, mask: Mask, anchor_row: int, anchor_col: int) -> bool {
    exists|dr: int, dc: int| #[trigger]
        occupies(mask, dr, dc) && !in_bounds(grid, anchor_row + dr, anchor_col + dc)
}

/// Some occupied cell of the placed piece lands on an owned cell, whoever
/// owns it.
pub open spec fn overlaps(grid: Grid, mask: Mask, anchor_row: int, anchor_col: int) -> bool {
    exists|dr: int, dc: int| #[trigger]
        occupies(mask, dr, dc) && owner_at(grid, anchor_row + dr, anchor_col + dc) is Some
}

/// Some occupied cell of the placed piece shares a side with a cell of
/// `player`.
pub open spec fn touches_side(
    grid: Grid,
    mask: Mask,
    anchor_row: int,
    anchor_col: int,
    player: Player,
) -> bool {
    exists|dr: int, dc: int| #[trigger]
        occupies(mask, dr, dc) && side_neighbour(grid, anchor_row + dr, anchor_col + dc, player)
}

/// Some occupied cell of the placed piece is diagonally next to a cell of
/// `player`.
pub open spec fn touches_corner(
    grid: Grid,
    mask: Mask,
    anchor_row: int,
    anchor_col: int,
    player: Player,
) -> bool {
    exists|dr: int, dc: int| #[trigger]
        occupies(mask, dr, dc) && corner_neighbour(grid, anchor_row + dr, anchor_col + dc, player)
}

/// The player owns no cell yet, so their next placement is their first.
pub open spec fn first_move(grid: Grid, player: Player) -> bool {
    forall|row: int, col: int| #[trigger] owner_at(grid, row, col) != Some(player)
}

/// The cell a player's first piece must cover: the top-left cell for the
/// first player, the bottom-right cell for the second.
pub open spec fn start_corner(grid: Grid, player: Player) -> (int, int) {
    match player {
        Player::Player1 => (0, 0),
        Player::Player2 => (grid.len() - 1, grid[0].len() - 1),
    }
}

/// Whether the placed piece occupies the player's starting corner.
pub open spec fn covers_start_corner(
    grid: Grid,
    mask: Mask,
    anchor_row: int,
    anchor_col: int,
    player: Player,
) -> bool {
    covers(mask, anchor_row, anchor_col, start_corner(grid, player).0, start_corner(grid, player).1)
}

/// What holds of every legal placement after a player's first: it stays on
/// the grid and on free cells, shares no side with the player's own cells and
/// touches one of them diagonally.
pub open spec fn placeable(
    grid: Grid,
    mask: Mask,
    anchor_row: int,
    anchor_col: int,
    player: Player,
) -> bool {
    &&& !out_of_bounds(grid, mask, anchor_row, anchor_col)
    &&& !overlaps(grid, mask, anchor_row, anchor_col)
    &&& !touches_side(grid, mask, anchor_row, anchor_col, player)
    &&& touches_corner(grid, mask, anchor_row, anchor_col, player)
}

/// The verdict on placing the piece at the anchor for `player`.
///
/// Leaving the grid is reported before anything else, then landing on an
/// owned cell. A first placement must cover the player's starting corner and
/// is held to nothing more. A later placement must not share a side with the
/// player's own cells, and must touch one of them diagonally.
pub open spec fn evaluate(
    grid: Grid,
    mask: Mask,
    anchor_row: int,
    anchor_col: int,
    player: Player,
) -> LegalityVerdict {
    if out_of_bounds(grid, mask, anchor_row, anchor_col) {
        LegalityVerdict::Illegal(IllegalReason::OutOfBounds)
    } else if overlaps(grid, mask, anchor_row, anchor_col) {
        LegalityVerdict::Illegal(IllegalReason::Overlap)
    } else if first_move(grid, player) {
        if covers_start_corner(grid, mask, anchor_row, anchor_col, player) {
            LegalityVerdict::Legal
        } else {
            LegalityVerdict::Illegal(IllegalReason::MissingCornerStart)
        }
    } else if touches_side(grid, mask, anchor_row, anchor_col, player) {
        LegalityVerdict::Illegal(IllegalReason::EdgeAdjacencyToOwnColor)
    } else if !touches_corner(grid, mask, anchor_row, anchor_col, player) {
        LegalityVerdict::Illegal(IllegalReason::NoCornerAdjacencyToOwnColor)
    } else {
        LegalityVerdict::Legal
    }
}

/// The grid after the piece has been placed: every cell it occupies belongs
/// to `player`, every other cell is as before.
pub open spec fn apply(
    grid: Grid,
    mask: Mask,
    anchor_row: int,
    anchor_col: int,
    player: Player,
) -> Grid {
    Seq::new(
        grid.len(),
        |row: int|
            Seq::new(
                grid[row].len(),
                |col: int|
                    if covers(mask, anchor_row, anchor_col, row, col) {
                        Some(player)
                    } else {
                        grid[row][col]
                    },
            ),
    )
}

} // verus!
