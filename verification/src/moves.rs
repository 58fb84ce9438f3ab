//! Committing a move that the engine has found legal.

use vstd::prelude::*;
use crate::board::{Board, Position};
use crate::inventory::Inventories;
use crate::piece::Piece;
use crate::player::{Player, opponent};
use crate::rules::{Grid, Mask, apply, covers, evaluate, grid_wf, in_bounds, occupies};
use crate::verdict::LegalityVerdict;

verus! {

/// The grid on which the occupied cells that come before the offset
/// `(i, j)`, reading the mask row after row, belong to `player`.
spec fn applied_before(
    grid: Grid,
    mask: Mask,
    anchor_row: int,
    anchor_col: int,
    player: Player,
    i: int,
    j: int,
) -> Grid {
    Seq::new(
        grid.len(),
        |row: int|
            Seq::new(
                grid[row].len(),
                |col: int|
                    if covers(mask, anchor_row, anchor_col, row, col) && (row - anchor_row < i || (
                    row - anchor_row == i && col - anchor_col < j)) {
                        Some(player)
                    } else {
                        grid[row][col]
                    },
            ),
    )
}

/// Places `selected_piece` at `position` for `current_player`: every cell
/// the piece occupies becomes the player's, and the player's inventory loses
/// one piece of that shape, the first where it holds several.
///
/// The move must have been found legal on this very board; it is not checked
/// again. Where the player holds no piece of that shape the inventory stays
/// as it is. The other player's inventory is never touched.
pub fn make_move(
    board: &mut Board,
    players: &mut Inventories,
    selected_piece: &Piece,
    position: &Position,
    current_player: &Player,
)
    requires
        evaluate(
            old(board)@,
            selected_piece@,
            position.0 as int,
            position.1 as int,
            *current_player,
        ) == LegalityVerdict::Legal,
    ensures
        final(board)@ == apply(
            old(board)@,
            selected_piece@,
            position.0 as int,
            position.1 as int,
            *current_player,
        ),
        final(players)@.of(*current_player) == old(players)@.of(*current_player).remove_value(
            selected_piece@,
        ),
        final(players)@.of(opponent(*current_player)) == old(players)@.of(
            opponent(*current_player),
        ),
{
    proof {
        use_type_invariant(&*board);
        board.lemma_well_formed();
    }
    let height = selected_piece.height();
    let ghost grid = board@;
    let ghost mask = selected_piece@;
    let ghost ar = position.0 as int;
    let ghost ac = position.1 as int;
    assert(board@ =~~= applied_before(grid, mask, ar, ac, *current_player, 0, 0));
    let mut i: usize = 0;
    while i < height
        invariant
            grid == old(board)@,
            mask == selected_piece@,
            ar == position.0,
            ac == position.1,
            grid_wf(grid),
            grid.len() <= usize::MAX,
            grid[0].len() <= usize::MAX,
            height == mask.len(),
            i <= height,
            forall|dr: int, dc: int| #[trigger]
                occupies(mask, dr, dc) ==> in_bounds(grid, ar + dr, ac + dc),
            board@ == applied_before(grid, mask, ar, ac, *current_player, i as int, 0),
        decreases height - i,
    {
        let width = selected_piece.width(i);
        let mut j: usize = 0;
        while j < width
            invariant
                grid == old(board)@,
                mask == selected_piece@,
                ar == position.0,
                ac == position.1,
                grid_wf(grid),
                grid.len() <= usize::MAX,
                grid[0].len() <= usize::MAX,
                height == mask.len(),
                i < height,
                width == mask[i as int].len(),
                j <= width,
                forall|dr: int, dc: int| #[trigger]
                    occupies(mask, dr, dc) ==> in_bounds(grid, ar + dr, ac + dc),
                board@ == applied_before(grid, mask, ar, ac, *current_player, i as int, j as int),
            decreases width - j,
        {
            if selected_piece.is_occupied(i, j) {
                assert(in_bounds(grid, ar + i, ac + j));
                board.set_owner(position.0 + i, position.1 + j, *current_player);
                assert(board@ =~~= applied_before(
                    grid,
                    mask,
                    ar,
                    ac,
                    *current_player,
                    i as int,
                    j + 1,
                ));
            } else {
                assert(board@ =~~= applied_before(
                    grid,
                    mask,
                    ar,
                    ac,
                    *current_player,
                    i as int,
                    j + 1,
                ));
            }
            j += 1;
        }
        assert(board@ =~~= applied_before(grid, mask, ar, ac, *current_player, i + 1, 0));
        i += 1;
    }
    assert(board@ =~~= apply(grid, mask, ar, ac, *current_player));
    players.take(current_player, selected_piece);
}

} // verus!
