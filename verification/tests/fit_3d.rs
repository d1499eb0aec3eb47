use linear_curve_fit::{CustomError, LinearCoefficents3D};

/// Least-squares solve of the 8x3 system through nalgebra's SVD, handing
/// back the solution's bit patterns, or `None` when every singular value
/// lies at or below `eps`.
fn solve_3d(a: &[u32; 24], b: &[u32; 8], eps: f32) -> Option<[u32; 3]> {
    let af: Vec<f32> = a.iter().map(|w| f32::from_bits(*w)).collect();
    let bf: Vec<f32> = b.iter().map(|w| f32::from_bits(*w)).collect();
    let ma = nalgebra::SMatrix::<f32, 8, 3>::from_row_slice(&af);
    let mb = nalgebra::SMatrix::<f32, 8, 1>::from_row_slice(&bf);
    let decomp = ma.svd(true, true);
    if decomp.rank(eps) == 0 {
        return None;
    }
    match decomp.solve(&mb, eps) {
        Ok(r) => Some([r[0].to_bits(), r[1].to_bits(), r[2].to_bits()]),
        Err(_) => None,
    }
}

fn bits8_3d(v: [f32; 8]) -> [u32; 8] {
    let mut out = [0u32; 8];
    for i in 0..8 {
        out[i] = v[i].to_bits();
    }
    out
}

fn coefficients_3d(f: &LinearCoefficents3D) -> (f32, f32, f32) {
    let (ab, bb, cb) = f.coefficents();
    (f32::from_bits(ab), f32::from_bits(bb), f32::from_bits(cb))
}

fn fit_3d(
    f: &mut LinearCoefficents3D,
    x: [f32; 8],
    y: [f32; 8],
    z: [f32; 8],
    eps: f32,
) -> Result<LinearCoefficents3D, CustomError> {
    let (a, b) =
        LinearCoefficents3D::get_matrix_data_from_8_points(&bits8_3d(x), &bits8_3d(y), &bits8_3d(z));
    let solution = solve_3d(&a, &b, eps);
    f.get_coefficients_from_8_matrix_data(&a, &b, solution.as_ref())
}

#[test]
fn exact_plane_recovers_coefficients() {
    let a0 = 0.5f32;
    let b0 = -2.0f32;
    let c0 = 3.0f32;
    let x = [0.0f32, 1.0, 0.0, 1.0, 2.0, 0.0, 2.0, 1.0];
    let y = [0.0f32, 0.0, 1.0, 1.0, 0.0, 2.0, 1.0, 2.0];
    let mut z = [0.0f32; 8];
    for i in 0..8 {
        z[i] = a0 * x[i] + b0 * y[i] + c0;
    }
    let mut f = LinearCoefficents3D::default();
    let r = fit_3d(&mut f, x, y, z, 1e-4f32);
    assert!(r.is_ok());
    let (a, b, c) = coefficients_3d(&f);
    assert!((a - a0).abs() < 1e-3f32);
    assert!((b - b0).abs() < 1e-3f32);
    assert!((c - c0).abs() < 1e-3f32);
    let snap = r.unwrap();
    assert_eq!(snap.coefficents(), f.coefficents());
}

#[test]
fn mismatched_sizes_rejected_3d() {
    let mut f = LinearCoefficents3D::default();
    // Put the fitter into a non-zero state first, so the reset is visible.
    let x = [0.0f32, 1.0, 0.0, 1.0, 2.0, 0.0, 2.0, 1.0];
    let y = [0.0f32, 0.0, 1.0, 1.0, 0.0, 2.0, 1.0, 2.0];
    let mut z = [0.0f32; 8];
    for i in 0..8 {
        z[i] = x[i] + y[i] + 1.0;
    }
    assert!(fit_3d(&mut f, x, y, z, 1e-4f32).is_ok());
    assert_ne!(f.coefficents(), (0u32, 0u32, 0u32));

    // 23 matrix entries against 8 target entries: not 3 rows per target.
    let a_short = [1u32; 23];
    let b_full = [2u32; 8];
    let sol = [3u32; 3];
    let r = f.get_coefficients_from_8_matrix_data(&a_short, &b_full, Some(&sol));
    assert_eq!(r.unwrap_err(), CustomError::MatrixSizeNotMatch);
    assert_eq!(f.coefficents(), (0u32, 0u32, 0u32));
}

#[test]
fn degenerate_matrix_large_eps_fails_3d() {
    let mut f = LinearCoefficents3D::default();
    // All-zero variable columns, and a tolerance far above every singular
    // value of the design matrix.
    let x0 = [0.0f32; 8];
    let y0 = [0.0f32; 8];
    let z = [1.0f32, 2.0, 3.0, 4.0, 5.0, 6.0, 7.0, 8.0];
    let r = fit_3d(&mut f, x0, y0, z, 100.0f32);
    assert_eq!(r.unwrap_err(), CustomError::SvdFailed);
    assert_eq!(f.coefficents(), (0u32, 0u32, 0u32));
}

#[test]
fn evaluate_before_fit_is_zero_3d() {
    let f = LinearCoefficents3D::default();
    let (a, b, c) = coefficients_3d(&f);
    assert_eq!(a, 0.0f32);
    assert_eq!(b, 0.0f32);
    assert_eq!(c, 0.0f32);
    for (x, y) in [(-1000.0f32, 4.0f32), (0.0, 0.0), (0.25, -7.5), (1e6, 1e6)] {
        assert_eq!(a * x + b * y + c, 0.0f32);
    }
}

#[test]
fn builder_embeds_samples_unchanged_3d() {
    let x = [-2.8f32, -1.6, -0.5, 5.0, 5.4, 6.7, 10.3, 13.8];
    let y = [0.5f32, 1.5, -2.5, 3.5, -4.5, 5.5, -6.5, 7.5];
    let z = [33.1f32, 21.1, 9.9, -45.2, -49.1, -61.9, -98.1, -132.99];
    let (a, b) =
        LinearCoefficents3D::get_matrix_data_from_8_points(&bits8_3d(x), &bits8_3d(y), &bits8_3d(z));
    for i in 0..8 {
        assert_eq!(a[3 * i], 1.0f32.to_bits());
        assert_eq!(a[3 * i + 1], x[i].to_bits());
        assert_eq!(a[3 * i + 2], y[i].to_bits());
        assert_eq!(b[i], z[i].to_bits());
    }
}
