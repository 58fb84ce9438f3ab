//! What the engine answers when asked about a candidate move.

use vstd::prelude::*;

verus! {

/// Why a candidate move is refused.
#[derive(Clone, Copy, PartialEq, Eq, Structural, Debug)]
pub enum IllegalReason {
    /// An occupied cell of the piece falls outside the grid.
    OutOfBounds,
    /// An occupied cell of the piece lands on a cell that already has an owner.
    Overlap,
    /// The player's first piece does not cover the player's starting corner.
    MissingCornerStart,
    /// An occupied cell shares a side with a cell of the same player.
    EdgeAdjacencyToOwnColor,
    /// No occupied cell touches a cell of the same player diagonally.
    NoCornerAdjacencyToOwnColor,
}

/// The engine's answer for one candidate move.
#[derive(Clone, Copy, PartialEq, Eq, Structural, Debug)]
pub enum LegalityVerdict {
    Legal,
    Illegal(IllegalReason),
}

/// The text shown to a player for each reason. Leaving the grid and landing
/// on an owned cell share one text.
pub open spec fn reason_text(reason: IllegalReason) -> Seq<char> {
    match reason {
        IllegalReason::OutOfBounds => "out of bounds or overlap"@,
        IllegalReason::Overlap => "out of bounds or overlap"@,
        IllegalReason::MissingCornerStart => "first move must occupy corner"@,
        IllegalReason::EdgeAdjacencyToOwnColor => "touches own color edge-to-edge"@,
        IllegalReason::NoCornerAdjacencyToOwnColor => "must touch own color at a corner"@,
    }
}

impl IllegalReason {
    /// A human-readable explanation, for display only: callers decide on the
    /// reason itself, never on its text.
    pub fn message(&self) -> (text: &'static str)
        ensures
            text@ == reason_text(*self),
    {
        match self {
            IllegalReason::OutOfBounds => "out of bounds or overlap",
            IllegalReason::Overlap => "out of bounds or overlap",
            IllegalReason::MissingCornerStart => "first move must occupy corner",
            IllegalReason::EdgeAdjacencyToOwnColor => "touches own color edge-to-edge",
            IllegalReason::NoCornerAdjacencyToOwnColor => "must touch own color at a corner",
        }
    }
}

} // verus!
