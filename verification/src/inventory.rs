//! The pieces each player still holds, and how a game ends.

use vstd::prelude::*;
use crate::piece::Piece;
use crate::player::Player;
use crate::rules::Mask;

verus! {

/// The shapes of a list of pieces, in order.
pub open spec fn shapes(pieces: Seq<Piece>) -> Seq<Mask> {
    Seq::new(pieces.len(), |i: int| pieces[i]@)
}

/// What both players hold, as lists of shapes: the mathematical content of
/// [`Inventories`].
pub struct Stock {
    pub player1: Seq<Mask>,
    pub player2: Seq<Mask>,
}

impl Stock {
    /// The shapes that `player` still holds, in order.
    pub open spec fn of(self, player: Player) -> Seq<Mask> {
        match player {
            Player::Player1 => self.player1,
            Player::Player2 => self.player2,
        }
    }
}

/// The shapes each player starts a game with: an L of three cells and a bar
/// of three cells.
pub open spec fn starting_shapes() -> Seq<Mask> {
    seq![seq![seq![true, true], seq![true, false]], seq![seq![true, true, true]]]
}

/// The game is over when no player holds a piece.
pub open spec fn is_game_over(stock: Stock) -> bool {
    forall|player: Player| (#[trigger] stock.of(player)).len() == 0
}

/// How a game ended.
#[derive(Clone, Copy, PartialEq, Eq, Structural, Debug)]
pub enum Outcome {
    /// The given player holds fewer pieces than the other.
    Winner(Player),
    /// Both players hold equally many pieces.
    Draw,
}

/// The player left with fewer pieces wins, whatever the size of the pieces;
/// equal counts are a draw.
pub open spec fn outcome_of(stock: Stock) -> Outcome {
    if stock.player1.len() < stock.player2.len() {
        Outcome::Winner(Player::Player1)
    } else if stock.player1.len() > stock.player2.len() {
        Outcome::Winner(Player::Player2)
    } else {
        Outcome::Draw
    }
}

/// The pieces that each of the two players has not placed yet, in the order
/// they were given. An inventory only ever shrinks: placing a piece removes
/// one entry, and nothing adds one.
#[derive(Debug)]
pub struct Inventories {
    player1: Vec<Piece>,
    player2: Vec<Piece>,
}

impl View for Inventories {
    type V = Stock;

    closed spec fn view(&self) -> Stock {
        Stock { player1: shapes(self.player1@), player2: shapes(self.player2@) }
    }
}

/// Removing the element at `at` from a list of pieces removes the shape at
/// `at` from the list of their shapes.
proof fn lemma_shapes_remove(pieces: Seq<Piece>, at: int)
    requires
        0 <= at < pieces.len(),
    ensures
        shapes(pieces.remove(at)) == shapes(pieces).remove(at),
{
    assert(shapes(pieces.remove(at)) =~= shapes(pieces).remove(at));
}

/// Takes the first piece of the given shape out of the list, if there is one.
fn remove_first_match(pieces: &mut Vec<Piece>, piece: &Piece)
    ensures
        shapes(final(pieces)@) == shapes(old(pieces)@).remove_value(piece@),
{
    let ghost before = shapes(pieces@);
    let mut at: usize = 0;
    while at < pieces.len()
        invariant
            pieces@ == old(pieces)@,
            before == shapes(pieces@),
            at <= pieces@.len(),
            forall|k: int| 0 <= k < at ==> #[trigger] before[k] != piece@,
        decreases pieces@.len() - at,
    {
        if pieces[at] == *piece {
            proof {
                assert(before[at as int] == piece@);
                before.index_of_first_ensures(piece@);
                assert(before.index_of_first(piece@) == Some(at as int));
                lemma_shapes_remove(pieces@, at as int);
            }
            pieces.remove(at);
            return ;
        }
        assert(before[at as int] != piece@);
        at += 1;
    }
    proof {
        before.index_of_first_ensures(piece@);
    }
}

impl Inventories {
    /// The inventories of a game in which the players hold the given pieces.
    pub fn new(player1: Vec<Piece>, player2: Vec<Piece>) -> (players: Inventories)
        ensures
            players@ == (Stock { player1: shapes(player1@), player2: shapes(player2@) }),
    {
        Inventories { player1, player2 }
    }

    /// Takes one piece of the shape of `piece` out of the inventory of
    /// `player`: the first of that shape, where there are several. Where the
    /// player holds no such piece, nothing changes.
    pub(crate) fn take(&mut self, player: &Player, piece: &Piece)
        ensures
            final(self)@.of(*player) == old(self)@.of(*player).remove_value(piece@),
            forall|other: Player|
                other != *player ==> final(self)@.of(other) == old(self)@.of(other),
    {
        match player {
            Player::Player1 => remove_first_match(&mut self.player1, piece),
            Player::Player2 => remove_first_match(&mut self.player2, piece),
        }
    }
}

/// The inventories a game starts with: each player holds the two starting
/// shapes.
pub fn initialize_players() -> (players: Inventories)
    ensures
        players@ == (Stock { player1: starting_shapes(), player2: starting_shapes() }),
{
    let piece1 = Piece::new(vec![vec![true, true], vec![true, false]]);
    let piece2 = Piece::new(vec![vec![true, true, true]]);
    let mut player1: Vec<Piece> = Vec::new();
    player1.push(piece1.clone());
    player1.push(piece2.clone());
    let mut player2: Vec<Piece> = Vec::new();
    player2.push(piece1);
    player2.push(piece2);
    let players = Inventories::new(player1, player2);
    assert(players@.player1 =~~= starting_shapes());
    assert(players@.player2 =~~= starting_shapes());
    players
}

/// The pieces that `current_player` may still place, in order.
pub fn get_available_pieces<'a>(players: &'a Inventories, current_player: &Player) -> (pieces: &'a Vec<Piece>)
    ensures
        shapes(pieces@) == players@.of(*current_player),
{
    match current_player {
        Player::Player1 => &players.player1,
        Player::Player2 => &players.player2,
    }
}

/// Whether the game is over: every player has placed all their pieces.
pub fn check_game_over(players: &Inventories) -> (over: bool)
    ensures
        over == is_game_over(players@),
{
    let over = players.player1.len() == 0 && players.player2.len() == 0;
    proof {
        if !over {
            let holder = if players.player1.len() != 0 {
                Player::Player1
            } else {
                Player::Player2
            };
            assert(players@.of(holder).len() != 0);
        }
    }
    over
}

/// Who won: the player with fewer pieces left, or nobody where both hold
/// equally many.
pub fn determine_outcome(players: &Inventories) -> (outcome: Outcome)
    ensures
        outcome == outcome_of(players@),
{
    let left1 = players.player1.len();
    let left2 = players.player2.len();
    if left1 < left2 {
        Outcome::Winner(Player::Player1)
    } else if left1 > left2 {
        Outcome::Winner(Player::Player2)
    } else {
        Outcome::Draw
    }
}

} // verus!
