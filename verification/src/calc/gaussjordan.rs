//! Solving systems of equations by Gauss-Jordan elimination.
//!
//! A matrix is a list of rows, and an entry is the bit pattern of a 64-bit
//! binary floating-point number. So far the elimination is set up and not yet
//! run: the matrix is required to be square, and the unit matrix of its size,
//! which the elimination is to turn into the inverse, is handed back.

use vstd::prelude::*;
use crate::binary64::ONE;

verus! {

/// Every row is as long as the matrix has rows.
pub open spec fn is_square(matrix: Seq<Vec<u64>>) -> bool {
    forall|i: int| 0 <= i < matrix.len() ==> (#[trigger] matrix[i])@.len() == matrix.len()
}

/// The entry of a unit matrix in row `i` and column `j`: the pattern of one on
/// the diagonal and the pattern of zero elsewhere.
pub open spec fn unit_entry(i: int, j: int) -> u64 {
    if i == j {
        ONE
    } else {
        0
    }
}

/// The row of a unit matrix of the given width with index `i`.
pub open spec fn unit_row(i: int, width: nat) -> Seq<u64> {
    Seq::new(width, |j: int| unit_entry(i, j))
}

/// The matrix is the unit matrix of the given width.
pub open spec fn is_unit_matrix(matrix: Seq<Vec<u64>>, width: nat) -> bool {
    &&& matrix.len() == width
    &&& forall|i: int| 0 <= i < width ==> (#[trigger] matrix[i])@ == unit_row(i, width)
}

/// Says whether every row of `matrix` is as long as the matrix has rows.
pub fn square(matrix: &Vec<Vec<u64>>) -> (answer: bool)
    ensures
        answer == is_square(matrix@),
{
    let width: usize = matrix.len();
    let mut row: usize = 0;
    while row < width
        invariant
            row <= width,
            width == matrix@.len(),
            forall|i: int| 0 <= i < row ==> (#[trigger] matrix@[i])@.len() == width,
        decreases width - row,
    {
        if matrix[row].len() != width {
            return false;
        }
        row += 1;
    }
    true
}

/// Builds the unit matrix that goes with a square matrix.
pub fn gauss_jordan_elimination(matrix: Vec<Vec<u64>>) -> (unit_matrix: Vec<Vec<u64>>)
    requires
        is_square(matrix@),
    ensures
        is_unit_matrix(unit_matrix@, matrix@.len()),
{
    let width: usize = matrix.len();
    let mut unit_matrix: Vec<Vec<u64>> = Vec::new();
    let mut i: usize = 0;
    while i < width
        invariant
            i <= width,
            unit_matrix@.len() == i,
            forall|r: int| 0 <= r < i ==> (#[trigger] unit_matrix@[r])@ == unit_row(r, width as nat),
        decreases width - i,
    {
        let mut row: Vec<u64> = Vec::new();
        let mut j: usize = 0;
        while j < width
            invariant
                j <= width,
                row@.len() == j,
                forall|c: int| 0 <= c < j ==> row@[c] == unit_entry(i as int, c),
            decreases width - j,
        {
            row.push(if i == j { ONE } else { 0 });
            j += 1;
        }
        assert(row@ =~= unit_row(i as int, width as nat));
        unit_matrix.push(row);
        i += 1;
    }
    unit_matrix
}

} // verus!
