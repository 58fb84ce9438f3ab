//! The two players of a game.

use vstd::prelude::*;

verus! {

/// One of the two players. A player tags the cells they own and selects the
/// inventory they draw pieces from.
#[derive(Clone, Copy, PartialEq, Eq, Structural, Debug)]
pub enum Player {
    Player1,
    Player2,
}

/// The other player.
pub open spec fn opponent(player: Player) -> Player {
    match player {
        Player::Player1 => Player::Player2,
        Player::Player2 => Player::Player1,
    }
}

/// Hands the turn to the other player.
pub fn switch_player(current_player: Player) -> (next: Player)
    ensures
        next == opponent(current_player),
{
    match current_player {
        Player::Player1 => Player::Player2,
        Player::Player2 => Player::Player1,
    }
}

} // verus!
