use vstd::prelude::*;

verus! {

/// The two ways a fit can fail.
///
/// Both are terminal for the call that raised them: the fitter's
/// coefficient state is reset to zero before the error is returned, so a
/// caller never observes a partially updated coefficient set.
#[derive(Clone, Copy, Debug, PartialEq, Eq, Structural)]
pub enum CustomError {
    /// The backend could not produce a least-squares solution within the
    /// caller's singular-value tolerance.
    SvdFailed,
    /// The design matrix's row count does not equal the target vector's
    /// length; no solve is attempted for such inputs.
    MatrixSizeNotMatch,
}

impl CustomError {
    /// A short description of the error, matching its meaning above.
    pub fn message(&self) -> (r: &'static str)
        ensures
            *self == CustomError::SvdFailed ==> r@ == "SVD solve failed"@,
            *self == CustomError::MatrixSizeNotMatch ==> r@ == "Matrix size not match"@,
    {
        match self {
            CustomError::SvdFailed => "SVD solve failed",
            CustomError::MatrixSizeNotMatch => "Matrix size not match",
        }
    }
}

} // verus!
