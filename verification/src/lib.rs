//! Core logic of a bicubic spline interpolator over a rectangular,
//! non-uniform 2D grid.
//!
//! The surface is built from function values and partial derivatives
//! (f, f_x, f_y, f_xy) sampled at the nodes of a grid with strictly
//! ascending axes.  This crate verifies the discrete heart of the
//! interpolator:
//!
//! - validation of the sample-array dimensions ([`check_dims`]),
//! - the row-major node and cell index arithmetic ([`grid`]),
//! - cell location by binary search over the axes ([`grid::Grid`]),
//! - the bicubic Hermite-to-power-basis transform together with its
//!   corner-exactness and continuity laws ([`hermite`]).
//!
//! The floating-point evaluation of the per-cell polynomials is left to
//! the caller; the [`hermite`] module states and proves, over exact
//! integer arithmetic, the algebraic identities that make the transform
//! correct.

use vstd::prelude::*;

pub mod grid;
pub mod hermite;

verus! {

/// Which of the four sample arrays a dimension error refers to.
#[derive(Clone, Copy, Debug, PartialEq, Eq, Structural)]
pub enum DataArray {
    /// The function-value array `f`.
    F,
    /// The x-derivative array `fx`.
    Fx,
    /// The y-derivative array `fy`.
    Fy,
    /// The mixed-derivative array `fxy`.
    Fxy,
}

/// Construction-time fatal error: a sample array does not have length
/// `nx * ny`.  Names the offending array and the expected and actual
/// lengths.
#[derive(Clone, Copy, Debug, PartialEq, Eq, Structural)]
pub struct DimensionMismatch {
    /// The first array, in the order f, fx, fy, fxy, with a bad length.
    pub array: DataArray,
    /// The required length, `nx * ny`.
    pub expected: usize,
    /// The length the array actually has.
    pub actual: usize,
}

/// Validates the lengths of the four sample arrays against the axis
/// lengths `nx` and `ny`: every array must hold exactly one entry per
/// grid node, `nx * ny` in all.
///
/// Succeeds exactly when all four lengths equal `nx * ny`; otherwise
/// reports the first offending array, in the order f, fx, fy, fxy.
pub fn check_dims(
    nx: usize,
    ny: usize,
    f_len: usize,
    fx_len: usize,
    fy_len: usize,
    fxy_len: usize,
) -> (r: Result<(), DimensionMismatch>)
    requires
        nx * ny <= usize::MAX,
    ensures
        r is Ok <==> (f_len == nx * ny && fx_len == nx * ny && fy_len == nx * ny
            && fxy_len == nx * ny),
        f_len != nx * ny ==> r == Err::<(), DimensionMismatch>(DimensionMismatch {
            array: DataArray::F,
            expected: (nx * ny) as usize,
            actual: f_len,
        }),
        f_len == nx * ny && fx_len != nx * ny ==> r == Err::<(), DimensionMismatch>(
            DimensionMismatch { array: DataArray::Fx, expected: (nx * ny) as usize, actual: fx_len },
        ),
        f_len == nx * ny && fx_len == nx * ny && fy_len != nx * ny ==> r == Err::<
            (),
            DimensionMismatch,
        >(DimensionMismatch { array: DataArray::Fy, expected: (nx * ny) as usize, actual: fy_len }),
        f_len == nx * ny && fx_len == nx * ny && fy_len == nx * ny && fxy_len != nx * ny ==> r
            == Err::<(), DimensionMismatch>(DimensionMismatch {
            array: DataArray::Fxy,
            expected: (nx * ny) as usize,
            actual: fxy_len,
        }),
{
    let expected: usize = nx * ny;
    if f_len != expected {
        Err(DimensionMismatch { array: DataArray::F, expected, actual: f_len })
    } else if fx_len != expected {
        Err(DimensionMismatch { array: DataArray::Fx, expected, actual: fx_len })
    } else if fy_len != expected {
        Err(DimensionMismatch { array: DataArray::Fy, expected, actual: fy_len })
    } else if fxy_len != expected {
        Err(DimensionMismatch { array: DataArray::Fxy, expected, actual: fxy_len })
    } else {
        Ok(())
    }
}

} // verus!
