//! Closed-form least-squares fitting of a 2D line `f(x) = k*x + b` and a 3D
//! plane `f(x, y) = a*x + b*y + c` from exactly eight sample points.
//!
//! Sample values and coefficients cross this library's boundary as `u32`
//! words holding the IEEE 754 single-precision bit patterns of the values.
//! The library states and checks everything structural about a fit: how the
//! design matrix is laid out, when a size mismatch is rejected, how a solve
//! outcome is mapped onto named coefficients, and that any failure resets
//! the coefficient state to zero. The numerical SVD solve itself is
//! floating-point work performed by the embedding application, which hands
//! its outcome back in for the verified bookkeeping.

pub mod error;
pub mod linear_curve_fit;

pub use error::CustomError;
pub use linear_curve_fit::{LinearCoefficents2D, LinearCoefficents3D};
