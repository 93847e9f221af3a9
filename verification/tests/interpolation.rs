use bicubic::grid::{cell_index, corner_indices, is_strictly_ascending, Cell, Grid};
use bicubic::{check_dims, DataArray, DimensionMismatch};

/// Order code of a finite f64: an unsigned integer whose `<` order
/// agrees with the floating-point order (with -0.0 and 0.0 collapsed).
fn key(v: f64) -> u64 {
    let v = if v == 0.0 { 0.0 } else { v };
    let b = v.to_bits();
    if b & 0x8000_0000_0000_0000 != 0 {
        !b
    } else {
        b | 0x8000_0000_0000_0000
    }
}

fn keys(vs: &[f64]) -> Vec<u64> {
    vs.iter().map(|v| key(*v)).collect()
}

#[test]
fn key_order_matches_float_order() {
    let vals = [-1.0e30, -2.5, -0.3, 0.0, 1.5e-5, 1.0, 3.2, 6.0e12];
    for i in 0..vals.len() {
        for j in 0..vals.len() {
            assert_eq!(vals[i] < vals[j], key(vals[i]) < key(vals[j]));
        }
    }
}

#[test]
fn check_dims_accepts_matching_lengths() {
    assert_eq!(check_dims(3, 2, 6, 6, 6, 6), Ok(()));
    assert_eq!(check_dims(2, 2, 4, 4, 4, 4), Ok(()));
}

#[test]
fn check_dims_accepts_regardless_of_grid_shape() {
    // Any correctly sized arrays pass, even for degenerate axes.
    assert_eq!(check_dims(1, 5, 5, 5, 5, 5), Ok(()));
    assert_eq!(check_dims(0, 7, 0, 0, 0, 0), Ok(()));
}

#[test]
fn check_dims_reports_f() {
    assert_eq!(
        check_dims(3, 2, 5, 6, 6, 6),
        Err(DimensionMismatch { array: DataArray::F, expected: 6, actual: 5 })
    );
}

#[test]
fn check_dims_reports_fx() {
    assert_eq!(
        check_dims(3, 2, 6, 7, 6, 6),
        Err(DimensionMismatch { array: DataArray::Fx, expected: 6, actual: 7 })
    );
}

#[test]
fn check_dims_reports_fy() {
    assert_eq!(
        check_dims(3, 2, 6, 6, 0, 6),
        Err(DimensionMismatch { array: DataArray::Fy, expected: 6, actual: 0 })
    );
}

#[test]
fn check_dims_reports_fxy() {
    assert_eq!(
        check_dims(3, 2, 6, 6, 6, 12),
        Err(DimensionMismatch { array: DataArray::Fxy, expected: 6, actual: 12 })
    );
}

#[test]
fn check_dims_reports_first_offender() {
    // f is checked first, then fx, fy, fxy.
    assert_eq!(
        check_dims(2, 2, 3, 5, 4, 4),
        Err(DimensionMismatch { array: DataArray::F, expected: 4, actual: 3 })
    );
}

#[test]
fn ascending_check() {
    assert!(is_strictly_ascending(&vec![]));
    assert!(is_strictly_ascending(&vec![7]));
    assert!(is_strictly_ascending(&vec![1, 2, 9]));
    assert!(!is_strictly_ascending(&vec![1, 2, 2]));
    assert!(!is_strictly_ascending(&vec![3, 2, 1]));
}

#[test]
fn grid_rejects_short_axis() {
    assert!(Grid::new(vec![1], vec![1, 2]).is_none());
    assert!(Grid::new(vec![1, 2], vec![]).is_none());
}

#[test]
fn grid_rejects_unsorted_axis() {
    assert!(Grid::new(vec![1, 2, 2], vec![1, 2]).is_none());
    assert!(Grid::new(vec![1, 2], vec![5, 4]).is_none());
}

#[test]
fn grid_accepts_ascending_axes() {
    assert!(Grid::new(vec![1, 2, 3], vec![1, 2]).is_some());
    let g = Grid::new(vec![10, 20, 30, 40], vec![5, 15, 25]).unwrap();
    assert_eq!(g.nx(), 4);
    assert_eq!(g.ny(), 3);
}

#[test]
fn locate_boundary_is_outside() {
    // Queries on the outermost grid lines are treated as outside.
    let g = Grid::new(vec![10, 20, 30, 40], vec![5, 15, 25]).unwrap();
    assert_eq!(g.locate(10, 12), None);
    assert_eq!(g.locate(40, 12), None);
    assert_eq!(g.locate(25, 5), None);
    assert_eq!(g.locate(25, 25), None);
    assert_eq!(g.locate(9, 12), None);
    assert_eq!(g.locate(41, 12), None);
    assert_eq!(g.locate(25, 4), None);
    assert_eq!(g.locate(25, 26), None);
    assert_eq!(g.locate(11, 6), Some(Cell { xi: 0, yi: 0, index: 0 }));
    assert_eq!(g.locate(39, 24), Some(Cell { xi: 2, yi: 1, index: 5 }));
}

#[test]
fn locate_brackets_the_query() {
    let g = Grid::new(vec![10, 20, 30, 40], vec![5, 15, 25]).unwrap();
    // Upper bracket values belong to the lower cell.
    assert_eq!(g.locate(20, 15), Some(Cell { xi: 0, yi: 0, index: 0 }));
    assert_eq!(g.locate(21, 16), Some(Cell { xi: 1, yi: 1, index: 4 }));
    assert_eq!(g.locate(30, 25), None);
    assert_eq!(g.locate(30, 24), Some(Cell { xi: 1, yi: 1, index: 4 }));
    assert_eq!(g.locate(31, 7), Some(Cell { xi: 2, yi: 0, index: 2 }));
}

#[test]
fn locate_agrees_with_linear_scan() {
    // Non-uniform axes of several sizes, checked at every query code.
    for nx in 2..8usize {
        for ny in 2..6usize {
            let x: Vec<u64> = (0..nx).map(|i| (i * i + 3 * i + 2) as u64).collect();
            let y: Vec<u64> = (0..ny).map(|j| (5 * j + 1) as u64).collect();
            let g = Grid::new(x.clone(), y.clone()).unwrap();
            for xq in 0..(x[nx - 1] + 2) {
                for yq in 0..(y[ny - 1] + 2) {
                    let inside = x[0] < xq && xq < x[nx - 1] && y[0] < yq && yq < y[ny - 1];
                    let got = g.locate(xq, yq);
                    if !inside {
                        assert_eq!(got, None);
                    } else {
                        let xi = (0..nx - 1).find(|&i| x[i] < xq && xq <= x[i + 1]).unwrap();
                        let yi = (0..ny - 1).find(|&j| y[j] < yq && yq <= y[j + 1]).unwrap();
                        let index = yi * (nx - 1) + xi;
                        assert_eq!(got, Some(Cell { xi, yi, index }));
                    }
                }
            }
        }
    }
}

#[test]
fn corner_and_cell_indices() {
    // 3 x 2 grid of nodes: two cells side by side.
    assert_eq!(corner_indices(3, 2, 0, 0), (0, 1, 3, 4));
    assert_eq!(corner_indices(3, 2, 1, 0), (1, 2, 4, 5));
    assert_eq!(cell_index(3, 2, 0, 0), 0);
    assert_eq!(cell_index(3, 2, 1, 0), 1);
    // 3 x 3 grid of nodes: four cells.
    assert_eq!(corner_indices(3, 3, 1, 1), (4, 5, 7, 8));
    assert_eq!(cell_index(3, 3, 1, 1), 3);
}

#[test]
fn single_cell_grid_sample_path() {
    // A 2 x 2 grid has one cell; every interior query resolves to it,
    // and all-zero sample data trivially interpolates to zero there.
    assert_eq!(check_dims(2, 2, 4, 4, 4, 4), Ok(()));
    let g = Grid::new(keys(&[0.0, 6.0]), keys(&[0.0, 5.0])).unwrap();
    assert_eq!(g.locate(key(5.6), key(3.5)), Some(Cell { xi: 0, yi: 0, index: 0 }));
    assert_eq!(g.locate(key(0.0), key(3.5)), None);
    assert_eq!(g.locate(key(6.0), key(3.5)), None);
}

#[test]
fn two_cell_grid_boundary_and_location() {
    // Grid of the end-to-end example: x has three nodes, y two.
    assert_eq!(check_dims(3, 2, 6, 6, 6, 6), Ok(()));
    let g = Grid::new(keys(&[-2.5, 0.0, 1.5]), keys(&[-4.5, 3.2])).unwrap();
    // The corner node itself lies on the boundary: no patch.
    assert_eq!(g.locate(key(-2.5), key(-4.5)), None);
    // Outside the grid on x: no patch.
    assert_eq!(g.locate(key(-2.6), key(-4.5)), None);
    // Strictly inside: the bracketing cell.
    assert_eq!(g.locate(key(-2.4), key(-4.4)), Some(Cell { xi: 0, yi: 0, index: 0 }));
    assert_eq!(g.locate(key(0.5), key(3.1)), Some(Cell { xi: 1, yi: 0, index: 1 }));
    // The interior grid line belongs to the cell below it.
    assert_eq!(g.locate(key(0.0), key(0.0)), Some(Cell { xi: 0, yi: 0, index: 0 }));
}
