//! Pieces: occupancy masks placed by their top-left cell.

use vstd::prelude::*;
use crate::rules::{Mask, occupies};

verus! {

/// A polyomino, given as rows of booleans in which `true` marks an occupied
/// cell. Rows need not be equally long: what lies past the end of a row is
/// unoccupied. The shape of a piece never changes.
#[derive(Debug)]
pub struct Piece {
    mask: Vec<Vec<bool>>,
}

impl View for Piece {
    type V = Mask;

    closed spec fn view(&self) -> Mask {
        self.mask.deep_view()
    }
}

impl Piece {
    /// The piece with the given occupancy mask.
    pub fn new(mask: Vec<Vec<bool>>) -> (piece: Piece)
        ensures
            piece@ == mask.deep_view(),
    {
        Piece { mask }
    }

    /// Number of rows of the mask.
    pub fn height(&self) -> (n: usize)
        ensures
            n == self@.len(),
    {
        self.mask.len()
    }

    /// Length of the given row of the mask; rows past the last have none.
    pub fn width(&self, row_offset: usize) -> (n: usize)
        ensures
            row_offset < self@.len() ==> n == self@[row_offset as int].len(),
            row_offset >= self@.len() ==> n == 0,
    {
        if row_offset < self.mask.len() {
            self.mask[row_offset].len()
        } else {
            0
        }
    }

    /// Whether the piece occupies the cell at the given offset from its
    /// top-left cell.
    pub fn is_occupied(&self, row_offset: usize, col_offset: usize) -> (occupied: bool)
        ensures
            occupied == occupies(self@, row_offset as int, col_offset as int),
    {
        if row_offset < self.mask.len() {
            if col_offset < self.mask[row_offset].len() {
                return self.mask[row_offset][col_offset];
            }
        }
        false
    }
}

impl Clone for Piece {
    /// A second piece of the same shape.
    fn clone(&self) -> (copy: Piece)
        ensures
            copy@ == self@,
    {
        let mut mask: Vec<Vec<bool>> = Vec::new();
        let mut row: usize = 0;
        while row < self.mask.len()
            invariant
                row <= self.mask@.len(),
                mask@.len() == row,
                forall|r: int| 0 <= r < row ==> (#[trigger] mask@[r])@ == self.mask@[r]@,
            decreases self.mask@.len() - row,
        {
            let mut line: Vec<bool> = Vec::new();
            let mut col: usize = 0;
            while col < self.mask[row].len()
                invariant
                    row < self.mask@.len(),
                    col <= self.mask@[row as int]@.len(),
                    line@.len() == col,
                    forall|c: int| 0 <= c < col ==> #[trigger] line@[c] == self.mask@[row as int]@[c],
                decreases self.mask@[row as int]@.len() - col,
            {
                line.push(self.mask[row][col]);
                col += 1;
            }
            assert(line@ =~= self.mask@[row as int]@);
            mask.push(line);
            row += 1;
        }
        let copy = Piece { mask };
        assert(copy@ =~~= self@);
        copy
    }
}

impl PartialEq for Piece {
    /// Two pieces are equal when they have the same shape.
    fn eq(&self, other: &Piece) -> (same: bool) {
        if self.mask.len() != other.mask.len() {
            assert(self@.len() != other@.len());
            return false;
        }
        let mut row: usize = 0;
        while row < self.mask.len()
            invariant
                self.mask@.len() == other.mask@.len(),
                row <= self.mask@.len(),
                forall|r: int| 0 <= r < row ==> (#[trigger] self.mask@[r])@ == other.mask@[r]@,
            decreases self.mask@.len() - row,
        {
            if self.mask[row].len() != other.mask[row].len() {
                assert(self@[row as int].len() != other@[row as int].len());
                return false;
            }
            let mut col: usize = 0;
            while col < self.mask[row].len()
                invariant
                    row < self.mask@.len(),
                    self.mask@.len() == other.mask@.len(),
                    self.mask@[row as int]@.len() == other.mask@[row as int]@.len(),
                    col <= self.mask@[row as int]@.len(),
                    forall|c: int|
                        0 <= c < col ==> #[trigger] self.mask@[row as int]@[c] == other.mask@[row as int]@[c],
                decreases self.mask@[row as int]@.len() - col,
            {
                if self.mask[row][col] != other.mask[row][col] {
                    assert(self@[row as int][col as int] != other@[row as int][col as int]);
                    return false;
                }
                col += 1;
            }
            assert(self.mask@[row as int]@ =~= other.mask@[row as int]@);
            row += 1;
        }
        assert(self@ =~~= other@);
        true
    }
}

impl vstd::std_specs::cmp::PartialEqSpecImpl for Piece {
    open spec fn obeys_eq_spec() -> bool {
        true
    }

    open spec fn eq_spec(&self, other: &Piece) -> bool {
        self@ == other@
    }
}

} // verus!
