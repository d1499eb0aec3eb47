use vstd::prelude::*;

use crate::error::CustomError;

verus! {

/// Number of sample points a fit always works on.
pub const POINT_NUM: usize = 8;

/// IEEE 754 single-precision bit pattern of `1.0`, the entry of the design
/// matrix's constant column.
pub const ONE_BITS: u32 = 0x3F80_0000;

/// IEEE 754 single-precision bit pattern of `+0.0`, the value every
/// coefficient is reset to on failure and starts from before any fit.
pub const ZERO_BITS: u32 = 0;

/// The 2D design matrix of the sample column `x`: row `i` is
/// `[1, x[i]]`, laid out row-major. The samples themselves are embedded
/// unchanged — no centering, scaling, or any other transformation.
pub open spec fn design_matrix_2d(x: Seq<u32>) -> Seq<u32> {
    Seq::new(2 * x.len(), |j: int| if j % 2 == 0 { ONE_BITS } else { x[j / 2] })
}

/// The 3D design matrix of the sample columns `x` and `y`: row `i` is
/// `[1, x[i], y[i]]`, laid out row-major, with the samples embedded
/// unchanged.
pub open spec fn design_matrix_3d(x: Seq<u32>, y: Seq<u32>) -> Seq<u32> {
    Seq::new(
        3 * x.len(),
        |j: int|
            if j % 3 == 0 {
                ONE_BITS
            } else if j % 3 == 1 {
                x[j / 3]
            } else {
                y[j / 3]
            },
    )
}

/// What a 2D fit returns, as a function of the call's own inputs alone:
/// the design matrix `a`, the target vector `b`, and the outcome the
/// least-squares backend reported for them (`None` when it found no stable
/// solution within the caller's tolerance).
///
/// A size mismatch is rejected before anything else; otherwise a missing
/// solution is the backend's failure, and a solution's components are
/// mapped in fixed order: component 0 is the intercept `b`, component 1
/// the slope `k`.
pub open spec fn fit_outcome_2d(a: Seq<u32>, b: Seq<u32>, solution: Option<Seq<u32>>) -> Result<
    (u32, u32),
    CustomError,
> {
    if a.len() != 2 * b.len() {
        Err(CustomError::MatrixSizeNotMatch)
    } else {
        match solution {
            Some(s) => Ok((s[1], s[0])),
            None => Err(CustomError::SvdFailed),
        }
    }
}

/// The coefficient pair `(k, b)` a 2D fitter holds after a fit with these
/// inputs: the solved coefficients on success, and the all-zero reset
/// state on any failure.
pub open spec fn coefficients_after_2d(
    a: Seq<u32>,
    b: Seq<u32>,
    solution: Option<Seq<u32>>,
) -> (u32, u32) {
    match fit_outcome_2d(a, b, solution) {
        Ok(kb) => kb,
        Err(_) => (ZERO_BITS, ZERO_BITS),
    }
}

/// What a 3D fit returns, as `fit_outcome_2d` but for a three-column
/// matrix; a solution's components are mapped in fixed order: component 0
/// is the offset `c`, component 1 is `a`, component 2 is `b`, and the
/// result triple is ordered `(a, b, c)`.
pub open spec fn fit_outcome_3d(a: Seq<u32>, b: Seq<u32>, solution: Option<Seq<u32>>) -> Result<
    (u32, u32, u32),
    CustomError,
> {
    if a.len() != 3 * b.len() {
        Err(CustomError::MatrixSizeNotMatch)
    } else {
        match solution {
            Some(s) => Ok((s[1], s[2], s[0])),
            None => Err(CustomError::SvdFailed),
        }
    }
}

/// The coefficient triple `(a, b, c)` a 3D fitter holds after a fit with
/// these inputs.
pub open spec fn coefficients_after_3d(
    a: Seq<u32>,
    b: Seq<u32>,
    solution: Option<Seq<u32>>,
) -> (u32, u32, u32) {
    match fit_outcome_3d(a, b, solution) {
        Ok(abc) => abc,
        Err(_) => (ZERO_BITS, ZERO_BITS, ZERO_BITS),
    }
}

/// The design matrix embeds its samples unchanged: row `i` of the 2D
/// matrix is exactly `[1, x[i]]`.
pub proof fn lemma_design_matrix_2d_embeds(x: Seq<u32>, i: int)
    requires
        0 <= i < x.len(),
    ensures
        design_matrix_2d(x)[2 * i] == ONE_BITS,
        design_matrix_2d(x)[2 * i + 1] == x[i],
{
}

/// The design matrix embeds its samples unchanged: row `i` of the 3D
/// matrix is exactly `[1, x[i], y[i]]`.
pub proof fn lemma_design_matrix_3d_embeds(x: Seq<u32>, y: Seq<u32>, i: int)
    requires
        0 <= i < x.len(),
    ensures
        design_matrix_3d(x, y)[3 * i] == ONE_BITS,
        design_matrix_3d(x, y)[3 * i + 1] == x[i],
        design_matrix_3d(x, y)[3 * i + 2] == y[i],
{
}

/// Mismatched sizes are always rejected: whenever the design matrix's row
/// count differs from the target vector's length, a fit yields
/// `MatrixSizeNotMatch` and leaves the coefficients at zero, whatever
/// solve outcome is on offer.
pub proof fn lemma_size_mismatch_rejected_2d(a: Seq<u32>, b: Seq<u32>, solution: Option<Seq<u32>>)
    requires
        a.len() != 2 * b.len(),
    ensures
        fit_outcome_2d(a, b, solution) == Err::<(u32, u32), CustomError>(
            CustomError::MatrixSizeNotMatch,
        ),
        coefficients_after_2d(a, b, solution) == (ZERO_BITS, ZERO_BITS),
{
}

/// Mismatched sizes are always rejected in the 3D fit as well.
pub proof fn lemma_size_mismatch_rejected_3d(a: Seq<u32>, b: Seq<u32>, solution: Option<Seq<u32>>)
    requires
        a.len() != 3 * b.len(),
    ensures
        fit_outcome_3d(a, b, solution) == Err::<(u32, u32, u32), CustomError>(
            CustomError::MatrixSizeNotMatch,
        ),
        coefficients_after_3d(a, b, solution) == (ZERO_BITS, ZERO_BITS, ZERO_BITS),
{
}

/// Every failed 2D fit — size mismatch or a backend that found no stable
/// solution — leaves the coefficient state fully reset to zero: no
/// partial update survives.
pub proof fn lemma_failure_resets_2d(a: Seq<u32>, b: Seq<u32>, solution: Option<Seq<u32>>)
    ensures
        fit_outcome_2d(a, b, solution) is Err ==> coefficients_after_2d(a, b, solution) == (
            ZERO_BITS,
            ZERO_BITS,
        ),
{
}

/// Every failed 3D fit leaves the coefficient state fully reset to zero.
pub proof fn lemma_failure_resets_3d(a: Seq<u32>, b: Seq<u32>, solution: Option<Seq<u32>>)
    ensures
        fit_outcome_3d(a, b, solution) is Err ==> coefficients_after_3d(a, b, solution) == (
            ZERO_BITS,
            ZERO_BITS,
            ZERO_BITS,
        ),
{
}

/// Matrix data built from equally long sample columns always passes the
/// size check: a fit on the built pair can fail only for numerical
/// reasons, and when the backend solves it, the solution's components
/// come back as the coefficients, unchanged — component 0 as the
/// intercept `b`, component 1 as the slope `k`.
pub proof fn lemma_built_data_fits_2d(x: Seq<u32>, y: Seq<u32>, solution: Option<Seq<u32>>)
    requires
        x.len() == y.len(),
    ensures
        fit_outcome_2d(design_matrix_2d(x), y, solution) == match solution {
            Some(s) => Ok::<(u32, u32), CustomError>((s[1], s[0])),
            None => Err::<(u32, u32), CustomError>(CustomError::SvdFailed),
        },
{
}

/// Matrix data built from equally long sample columns always passes the
/// 3D size check, and a solved system's components come back as the
/// coefficients unchanged — component 0 as the offset `c`, component 1 as
/// `a`, component 2 as `b`.
pub proof fn lemma_built_data_fits_3d(
    x: Seq<u32>,
    y: Seq<u32>,
    z: Seq<u32>,
    solution: Option<Seq<u32>>,
)
    requires
        x.len() == z.len(),
    ensures
        fit_outcome_3d(design_matrix_3d(x, y), z, solution) == match solution {
            Some(s) => Ok::<(u32, u32, u32), CustomError>((s[1], s[2], s[0])),
            None => Err::<(u32, u32, u32), CustomError>(CustomError::SvdFailed),
        },
{
}

/// Coefficients `k` and `b` of the fitted line `f(x) = k*x + b`, held as
/// single-precision bit patterns.
#[derive(Debug)]
pub struct LinearCoefficents2D {
    k: u32,
    b: u32,
}

impl LinearCoefficents2D {
    /// Bit pattern of the slope `k`.
    pub closed spec fn k_bits(&self) -> u32 {
        self.k
    }

    /// Bit pattern of the intercept `b`.
    pub closed spec fn b_bits(&self) -> u32 {
        self.b
    }

    /// The "unfit" state: both coefficients hold the bit pattern of zero,
    /// so the model evaluates to zero everywhere.
    pub open spec fn is_reset(&self) -> bool {
        self.k_bits() == ZERO_BITS && self.b_bits() == ZERO_BITS
    }

    /// Returns the coefficient bit patterns `(k, b)` currently stored.
    pub fn coefficents(&self) -> (r: (u32, u32))
        ensures
            r == (self.k_bits(), self.b_bits()),
    {
        (self.k, self.b)
    }

    /// Builds the row-major 8x2 design matrix and the length-8 target
    /// vector from the sample columns, embedding every sample unchanged.
    pub fn get_matrix_data_from_8_points(x: &[u32; 8], y: &[u32; 8]) -> (r: ([u32; 16], [u32; 8]))
        ensures
            r.0@ == design_matrix_2d(x@),
            r.1@ == y@,
    {
        let mut tmp_x: [u32; 16] = [ZERO_BITS; 16];
        let mut tmp_y: [u32; 8] = [ZERO_BITS; 8];
        for i in 0..POINT_NUM
            invariant
                forall|j: int|
                    0 <= j < 2 * i ==> #[trigger] tmp_x@[j] == (if j % 2 == 0 {
                        ONE_BITS
                    } else {
                        x@[j / 2]
                    }),
                forall|j: int| 0 <= j < i ==> #[trigger] tmp_y@[j] == y@[j],
        {
            tmp_x[2 * i] = ONE_BITS;
            tmp_x[2 * i + 1] = x[i];
            tmp_y[i] = y[i];
        }
        proof {
            assert(tmp_x@ =~= design_matrix_2d(x@));
            assert(tmp_y@ =~= y@);
        }
        (tmp_x, tmp_y)
    }

    /// Completes a fit of the line to `a` (design matrix, row-major) and
    /// `b` (target vector), given the outcome the least-squares backend
    /// produced for this system — `None` when it found no stable solution
    /// within the caller's tolerance.
    ///
    /// On a size mismatch between `a` and `b`, and on a missing solution,
    /// the stored coefficients are reset to zero and the matching error is
    /// returned; a backend that was never consulted because of a mismatch
    /// is reported as the mismatch. On success the solution's components
    /// are committed — component 0 as the intercept `b`, component 1 as
    /// the slope `k` — and a snapshot of the new state is returned. The
    /// prior state never influences the result: each call fully overwrites
    /// it.
    pub fn get_coefficients_from_8_matrix_data(
        &mut self,
        a: &[u32],
        b: &[u32],
        solution: Option<&[u32; 2]>,
    ) -> (r: Result<LinearCoefficents2D, CustomError>)
        ensures
            ({
                let sol = match solution {
                    Some(s) => Some(s@),
                    None => None::<Seq<u32>>,
                };
                &&& (final(self).k_bits(), final(self).b_bits()) == coefficients_after_2d(
                    a@,
                    b@,
                    sol,
                )
                &&& match fit_outcome_2d(a@, b@, sol) {
                    Ok(kb) => {
                        &&& r is Ok
                        &&& r->Ok_0.k_bits() == kb.0
                        &&& r->Ok_0.b_bits() == kb.1
                    },
                    Err(e) => r == Err::<LinearCoefficents2D, CustomError>(e),
                }
            }),
    {
        let alen = a.len();
        let rows_match = alen % 2 == 0 && alen / 2 == b.len();
        proof {
            assert(rows_match == (a@.len() == 2 * b@.len()));
        }
        if rows_match {
            match solution {
                Some(sol) => {
                    self.b = sol[0];
                    self.k = sol[1];
                    Ok(LinearCoefficents2D { k: self.k, b: self.b })
                },
                None => {
                    self.b = ZERO_BITS;
                    self.k = ZERO_BITS;
                    Err(CustomError::SvdFailed)
                },
            }
        } else {
            self.b = ZERO_BITS;
            self.k = ZERO_BITS;
            Err(CustomError::MatrixSizeNotMatch)
        }
    }
}

impl Default for LinearCoefficents2D {
    /// A fresh fitter starts in the all-zero "unfit" state.
    fn default() -> (r: Self)
        ensures
            r.is_reset(),
    {
        LinearCoefficents2D { k: ZERO_BITS, b: ZERO_BITS }
    }
}

/// Coefficients `a`, `b` and `c` of the fitted plane
/// `f(x, y) = a*x + b*y + c`, held as single-precision bit patterns.
#[derive(Debug)]
pub struct LinearCoefficents3D {
    a: u32,
    b: u32,
    c: u32,
}

impl LinearCoefficents3D {
    /// Bit pattern of the coefficient `a`.
    pub closed spec fn a_bits(&self) -> u32 {
        self.a
    }

    /// Bit pattern of the coefficient `b`.
    pub closed spec fn b_bits(&self) -> u32 {
        self.b
    }

    /// Bit pattern of the offset `c`.
    pub closed spec fn c_bits(&self) -> u32 {
        self.c
    }

    /// The "unfit" state: all three coefficients hold the bit pattern of
    /// zero.
    pub open spec fn is_reset(&self) -> bool {
        self.a_bits() == ZERO_BITS && self.b_bits() == ZERO_BITS && self.c_bits() == ZERO_BITS
    }

    /// Returns the coefficient bit patterns `(a, b, c)` currently stored.
    pub fn coefficents(&self) -> (r: (u32, u32, u32))
        ensures
            r == (self.a_bits(), self.b_bits(), self.c_bits()),
    {
        (self.a, self.b, self.c)
    }

    /// Builds the row-major 8x3 design matrix and the length-8 target
    /// vector from the sample columns, embedding every sample unchanged.
    pub fn get_matrix_data_from_8_points(x: &[u32; 8], y: &[u32; 8], z: &[u32; 8]) -> (r: (
        [u32; 24],
        [u32; 8],
    ))
        ensures
            r.0@ == design_matrix_3d(x@, y@),
            r.1@ == z@,
    {
        let mut tmp_x_y: [u32; 24] = [ZERO_BITS; 24];
        let mut tmp_z: [u32; 8] = [ZERO_BITS; 8];
        for i in 0..POINT_NUM
            invariant
                forall|j: int|
                    0 <= j < 3 * i ==> #[trigger] tmp_x_y@[j] == (if j % 3 == 0 {
                        ONE_BITS
                    } else if j % 3 == 1 {
                        x@[j / 3]
                    } else {
                        y@[j / 3]
                    }),
                forall|j: int| 0 <= j < i ==> #[trigger] tmp_z@[j] == z@[j],
        {
            tmp_x_y[3 * i] = ONE_BITS;
            tmp_x_y[3 * i + 1] = x[i];
            tmp_x_y[3 * i + 2] = y[i];
            tmp_z[i] = z[i];
        }
        proof {
            assert(tmp_x_y@ =~= design_matrix_3d(x@, y@));
            assert(tmp_z@ =~= z@);
        }
        (tmp_x_y, tmp_z)
    }

    /// Completes a fit of the plane to `a` (design matrix, row-major) and
    /// `b` (target vector), given the outcome the least-squares backend
    /// produced for this system — `None` when it found no stable solution
    /// within the caller's tolerance.
    ///
    /// Failure handling is as for the 2D fitter; on success the solution's
    /// components are committed in fixed order — component 0 as the offset
    /// `c`, component 1 as `a`, component 2 as `b` — and a snapshot of the
    /// new state is returned. The prior state never influences the result.
    pub fn get_coefficients_from_8_matrix_data(
        &mut self,
        a: &[u32],
        b: &[u32],
        solution: Option<&[u32; 3]>,
    ) -> (r: Result<LinearCoefficents3D, CustomError>)
        ensures
            ({
                let sol = match solution {
                    Some(s) => Some(s@),
                    None => None::<Seq<u32>>,
                };
                &&& (final(self).a_bits(), final(self).b_bits(), final(self).c_bits())
                    == coefficients_after_3d(a@, b@, sol)
                &&& match fit_outcome_3d(a@, b@, sol) {
                    Ok(abc) => {
                        &&& r is Ok
                        &&& r->Ok_0.a_bits() == abc.0
                        &&& r->Ok_0.b_bits() == abc.1
                        &&& r->Ok_0.c_bits() == abc.2
                    },
                    Err(e) => r == Err::<LinearCoefficents3D, CustomError>(e),
                }
            }),
    {
        let alen = a.len();
        let rows_match = alen % 3 == 0 && alen / 3 == b.len();
        proof {
            assert(rows_match == (a@.len() == 3 * b@.len()));
        }
        if rows_match {
            match solution {
                Some(sol) => {
                    self.c = sol[0];
                    self.a = sol[1];
                    self.b = sol[2];
                    Ok(LinearCoefficents3D { a: self.a, b: self.b, c: self.c })
                },
                None => {
                    self.c = ZERO_BITS;
                    self.a = ZERO_BITS;
                    self.b = ZERO_BITS;
                    Err(CustomError::SvdFailed)
                },
            }
        } else {
            self.c = ZERO_BITS;
            self.a = ZERO_BITS;
            self.b = ZERO_BITS;
            Err(CustomError::MatrixSizeNotMatch)
        }
    }
}

impl Default for LinearCoefficents3D {
    /// A fresh fitter starts in the all-zero "unfit" state.
    fn default() -> (r: Self)
        ensures
            r.is_reset(),
    {
        LinearCoefficents3D { a: ZERO_BITS, b: ZERO_BITS, c: ZERO_BITS }
    }
}

} // verus!
