//! Theorems about the placement rules.
//!
//! Each is stated over the definitions of [`crate::rules`] and
//! [`crate::inventory`], which are the very terms in which the executable
//! functions are specified: what is proved here of `evaluate` and `apply`
//! holds of every answer of `is_valid_move` and every effect of `make_move`.

use vstd::prelude::*;
use crate::inventory::{Stock, is_game_over};
use crate::player::Player;
use crate::rules::{
    Grid, Mask, apply, covers, evaluate, first_move, grid_wf, in_bounds, occupies,
    out_of_bounds, overlaps, owner_at, side_neighbour, corner_neighbour, touches_corner,
    touches_side,
};
use crate::verdict::{IllegalReason, LegalityVerdict};

verus! {

/// A placement with an occupied cell outside the grid is refused as out of
/// bounds, whoever plays it and whatever else is wrong with it.
pub proof fn law_off_grid_is_out_of_bounds(
    grid: Grid,
    mask: Mask,
    anchor_row: int,
    anchor_col: int,
    player: Player,
    row_offset: int,
    col_offset: int,
)
    requires
        occupies(mask, row_offset, col_offset),
        !in_bounds(grid, anchor_row + row_offset, anchor_col + col_offset),
    ensures
        evaluate(grid, mask, anchor_row, anchor_col, player) == LegalityVerdict::Illegal(
            IllegalReason::OutOfBounds,
        ),
{
}

/// A placement that stays on the grid and has an occupied cell on an owned
/// cell is refused as an overlap, whether the cell is the player's own or the
/// opponent's.
pub proof fn law_owned_cell_is_overlap(
    grid: Grid,
    mask: Mask,
    anchor_row: int,
    anchor_col: int,
    player: Player,
    row_offset: int,
    col_offset: int,
)
    requires
        !out_of_bounds(grid, mask, anchor_row, anchor_col),
        occupies(mask, row_offset, col_offset),
        owner_at(grid, anchor_row + row_offset, anchor_col + col_offset) is Some,
    ensures
        evaluate(grid, mask, anchor_row, anchor_col, player) == LegalityVerdict::Illegal(
            IllegalReason::Overlap,
        ),
{
}

/// The first placement of the first player, on the grid and on free cells,
/// is legal exactly when it covers the top-left cell; otherwise it is
/// refused for missing the starting corner.
pub proof fn law_first_move_of_player1(grid: Grid, mask: Mask, anchor_row: int, anchor_col: int)
    requires
        first_move(grid, Player::Player1),
        !out_of_bounds(grid, mask, anchor_row, anchor_col),
        !overlaps(grid, mask, anchor_row, anchor_col),
    ensures
        covers(mask, anchor_row, anchor_col, 0, 0) ==> evaluate(
            grid,
            mask,
            anchor_row,
            anchor_col,
            Player::Player1,
        ) == LegalityVerdict::Legal,
        !covers(mask, anchor_row, anchor_col, 0, 0) ==> evaluate(
            grid,
            mask,
            anchor_row,
            anchor_col,
            Player::Player1,
        ) == LegalityVerdict::Illegal(IllegalReason::MissingCornerStart),
{
}

/// The first placement of the second player, on the grid and on free cells,
/// is legal exactly when it covers the bottom-right cell; otherwise it is
/// refused for missing the starting corner.
pub proof fn law_first_move_of_player2(grid: Grid, mask: Mask, anchor_row: int, anchor_col: int)
    requires
        first_move(grid, Player::Player2),
        !out_of_bounds(grid, mask, anchor_row, anchor_col),
        !overlaps(grid, mask, anchor_row, anchor_col),
    ensures
        covers(mask, anchor_row, anchor_col, grid.len() - 1, grid[0].len() - 1) ==> evaluate(
            grid,
            mask,
            anchor_row,
            anchor_col,
            Player::Player2,
        ) == LegalityVerdict::Legal,
        !covers(mask, anchor_row, anchor_col, grid.len() - 1, grid[0].len() - 1) ==> evaluate(
            grid,
            mask,
            anchor_row,
            anchor_col,
            Player::Player2,
        ) == LegalityVerdict::Illegal(IllegalReason::MissingCornerStart),
{
}

/// Once a player owns a cell, a placement on the grid and on free cells that
/// shares a side with one of the player's cells is refused for edge
/// adjacency, even where it also touches the player's cells diagonally.
pub proof fn law_side_contact_is_refused(
    grid: Grid,
    mask: Mask,
    anchor_row: int,
    anchor_col: int,
    player: Player,
    row_offset: int,
    col_offset: int,
)
    requires
        !first_move(grid, player),
        !out_of_bounds(grid, mask, anchor_row, anchor_col),
        !overlaps(grid, mask, anchor_row, anchor_col),
        occupies(mask, row_offset, col_offset),
        side_neighbour(grid, anchor_row + row_offset, anchor_col + col_offset, player),
    ensures
        evaluate(grid, mask, anchor_row, anchor_col, player) == LegalityVerdict::Illegal(
            IllegalReason::EdgeAdjacencyToOwnColor,
        ),
{
}

/// Once a player owns a cell, a placement on the grid and on free cells that
/// touches the player's cells diagonally and shares no side with any of them
/// is legal.
pub proof fn law_corner_contact_is_legal(
    grid: Grid,
    mask: Mask,
    anchor_row: int,
    anchor_col: int,
    player: Player,
    row_offset: int,
    col_offset: int,
)
    requires
        !first_move(grid, player),
        !out_of_bounds(grid, mask, anchor_row, anchor_col),
        !overlaps(grid, mask, anchor_row, anchor_col),
        !touches_side(grid, mask, anchor_row, anchor_col, player),
        occupies(mask, row_offset, col_offset),
        corner_neighbour(grid, anchor_row + row_offset, anchor_col + col_offset, player),
    ensures
        evaluate(grid, mask, anchor_row, anchor_col, player) == LegalityVerdict::Legal,
{
}

/// Once a player owns a cell, a placement on the grid and on free cells that
/// touches none of the player's cells, by a side or diagonally, is refused
/// for want of corner adjacency.
pub proof fn law_floating_is_refused(
    grid: Grid,
    mask: Mask,
    anchor_row: int,
    anchor_col: int,
    player: Player,
)
    requires
        !first_move(grid, player),
        !out_of_bounds(grid, mask, anchor_row, anchor_col),
        !overlaps(grid, mask, anchor_row, anchor_col),
        !touches_side(grid, mask, anchor_row, anchor_col, player),
        !touches_corner(grid, mask, anchor_row, anchor_col, player),
    ensures
        evaluate(grid, mask, anchor_row, anchor_col, player) == LegalityVerdict::Illegal(
            IllegalReason::NoCornerAdjacencyToOwnColor,
        ),
{
}

/// A piece with no occupied cell can never be placed.
pub proof fn law_empty_piece_is_refused(
    grid: Grid,
    mask: Mask,
    anchor_row: int,
    anchor_col: int,
    player: Player,
)
    requires
        forall|dr: int, dc: int| !occupies(mask, dr, dc),
    ensures
        evaluate(grid, mask, anchor_row, anchor_col, player) != LegalityVerdict::Legal,
{
}

/// A legal placement occupies at least one cell.
pub proof fn lemma_legal_occupies_a_cell(
    grid: Grid,
    mask: Mask,
    anchor_row: int,
    anchor_col: int,
    player: Player,
) -> (cell: (int, int))
    requires
        evaluate(grid, mask, anchor_row, anchor_col, player) == LegalityVerdict::Legal,
    ensures
        occupies(mask, cell.0, cell.1),
{
    if first_move(grid, player) {
        let corner = crate::rules::start_corner(grid, player);
        (corner.0 - anchor_row, corner.1 - anchor_col)
    } else {
        choose|dr: int, dc: int| #[trigger]
            occupies(mask, dr, dc) && corner_neighbour(
                grid,
                anchor_row + dr,
                anchor_col + dc,
                player,
            )
    }
}

/// Placing a piece changes neither the number of rows of the grid nor the
/// length of any row.
pub proof fn law_apply_keeps_size(
    grid: Grid,
    mask: Mask,
    anchor_row: int,
    anchor_col: int,
    player: Player,
)
    ensures
        apply(grid, mask, anchor_row, anchor_col, player).len() == grid.len(),
        forall|row: int|
            0 <= row < grid.len() ==> (#[trigger] apply(
                grid,
                mask,
                anchor_row,
                anchor_col,
                player,
            )[row]).len() == grid[row].len(),
        forall|row: int, col: int|
            in_bounds(apply(grid, mask, anchor_row, anchor_col, player), row, col) == in_bounds(
                grid,
                row,
                col,
            ),
        grid_wf(grid) ==> grid_wf(apply(grid, mask, anchor_row, anchor_col, player)),
{
}

/// Placing a piece gives the player exactly the cells it occupies on the
/// grid and leaves every other cell as it was.
pub proof fn law_apply_owner(
    grid: Grid,
    mask: Mask,
    anchor_row: int,
    anchor_col: int,
    player: Player,
    row: int,
    col: int,
)
    ensures
        owner_at(apply(grid, mask, anchor_row, anchor_col, player), row, col) == (if in_bounds(
            grid,
            row,
            col,
        ) && covers(mask, anchor_row, anchor_col, row, col) {
            Some(player)
        } else {
            owner_at(grid, row, col)
        }),
{
}

/// A legal move never takes a cell from its owner: every cell that was owned
/// before the move has the same owner after it, and every cell the move
/// fills was free.
pub proof fn law_owned_cells_stay_owned(
    grid: Grid,
    mask: Mask,
    anchor_row: int,
    anchor_col: int,
    player: Player,
    row: int,
    col: int,
)
    requires
        evaluate(grid, mask, anchor_row, anchor_col, player) == LegalityVerdict::Legal,
    ensures
        owner_at(grid, row, col) is Some ==> owner_at(
            apply(grid, mask, anchor_row, anchor_col, player),
            row,
            col,
        ) == owner_at(grid, row, col),
        covers(mask, anchor_row, anchor_col, row, col) ==> owner_at(grid, row, col) is None,
{
    law_apply_owner(grid, mask, anchor_row, anchor_col, player, row, col);
    if covers(mask, anchor_row, anchor_col, row, col) {
        assert(occupies(mask, row - anchor_row, col - anchor_col));
        assert(anchor_row + (row - anchor_row) == row);
        assert(anchor_col + (col - anchor_col) == col);
    }
}

/// A move that was legal is not legal a second time: once it has been
/// applied, the same piece at the same place for the same player is refused
/// as an overlap.
pub proof fn law_replay_is_overlap(
    grid: Grid,
    mask: Mask,
    anchor_row: int,
    anchor_col: int,
    player: Player,
)
    requires
        evaluate(grid, mask, anchor_row, anchor_col, player) == LegalityVerdict::Legal,
    ensures
        evaluate(
            apply(grid, mask, anchor_row, anchor_col, player),
            mask,
            anchor_row,
            anchor_col,
            player,
        ) == LegalityVerdict::Illegal(IllegalReason::Overlap),
{
    let after = apply(grid, mask, anchor_row, anchor_col, player);
    law_apply_keeps_size(grid, mask, anchor_row, anchor_col, player);
    let cell = lemma_legal_occupies_a_cell(grid, mask, anchor_row, anchor_col, player);
    law_apply_owner(
        grid,
        mask,
        anchor_row,
        anchor_col,
        player,
        anchor_row + cell.0,
        anchor_col + cell.1,
    );
    assert(covers(mask, anchor_row, anchor_col, anchor_row + cell.0, anchor_col + cell.1));
    assert(owner_at(after, anchor_row + cell.0, anchor_col + cell.1) is Some);
    assert(overlaps(after, mask, anchor_row, anchor_col));
    assert(!out_of_bounds(after, mask, anchor_row, anchor_col));
}

/// Taking a shape out of an inventory that holds it leaves the inventory one
/// piece shorter; taking one that it does not hold leaves it unchanged.
pub proof fn law_inventory_shrinks_by_one(pieces: Seq<Mask>, shape: Mask)
    ensures
        pieces.contains(shape) ==> pieces.remove_value(shape).len() == pieces.len() - 1,
        !pieces.contains(shape) ==> pieces.remove_value(shape) == pieces,
{
    pieces.index_of_first_ensures(shape);
    if pieces.contains(shape) {
        pieces.remove_ensures(pieces.index_of_first(shape).unwrap());
    }
}

/// The game is over exactly when both inventories are empty.
pub proof fn law_game_over_when_both_empty(stock: Stock)
    ensures
        is_game_over(stock) <==> stock.player1.len() == 0 && stock.player2.len() == 0,
{
    if stock.player1.len() == 0 && stock.player2.len() == 0 {
        assert forall|player: Player| (#[trigger] stock.of(player)).len() == 0 by {
            match player {
                Player::Player1 => {},
                Player::Player2 => {},
            }
        }
    }
    if is_game_over(stock) {
        assert(stock.of(Player::Player1).len() == 0);
        assert(stock.of(Player::Player2).len() == 0);
    }
}

} // verus!
