//! Move-legality engine for a two-player territory placement game.
//!
//! Two players take turns placing polyomino pieces on a shared grid. A
//! placement must stay on the board and on free cells; a player's first piece
//! must cover that player's starting corner, and every later piece must touch
//! the player's own territory at a corner and never along an edge.

pub mod player;
pub mod verdict;
pub mod rules;
pub mod board;
pub mod piece;
pub mod legality;
pub mod inventory;
pub mod moves;
pub mod laws;
pub mod console;
pub mod input;
