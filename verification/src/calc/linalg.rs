//! Shape rules of the matrix routines, and the error they report.
//!
//! A matrix is stored row by row in one flat run of entries; its `stride` is
//! the number of entries in a row.

use vstd::prelude::*;

verus! {

/// A failed matrix operation, with a message that says why.
#[derive(Debug)]
pub struct MatrixError {
    details: String,
}

impl View for MatrixError {
    type V = Seq<char>;

    closed spec fn view(&self) -> Seq<char> {
        self.details@
    }
}

impl MatrixError {
    /// An error that carries `msg`.
    pub fn new(msg: &str) -> (error: MatrixError)
        ensures
            error@ == msg@,
    {
        MatrixError { details: msg.to_string() }
    }

    /// The message that the error was made with.
    pub fn description(&self) -> (text: &str)
        ensures
            text@ == self@,
    {
        self.details.as_str()
    }
}

/// The message of the error that [`check_product`] reports.
pub open spec fn incompatible_size() -> Seq<char> {
    "Matrices are of incompatible size!"@
}

/// Decides whether a matrix with rows of `stride` entries can be multiplied
/// by a matrix that has `other_len` entries in rows of `other_stride`: the
/// second must hold exactly `other_stride * stride` entries.
pub fn check_product(stride: usize, other_stride: usize, other_len: usize) -> (outcome: Result<
    (),
    MatrixError,
>)
    ensures
        outcome is Ok <==> other_stride * stride == other_len,
        outcome matches Err(error) ==> error@ == incompatible_size(),
{
    match other_stride.checked_mul(stride) {
        Some(entries) if entries == other_len => Ok(()),
        _ => Err(MatrixError::new("Matrices are of incompatible size!")),
    }
}

} // verus!
