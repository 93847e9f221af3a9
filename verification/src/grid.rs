//! Row-major grid index arithmetic and cell location.
//!
//! A surface over an `nx * ny` grid of nodes has `(nx-1) * (ny-1)`
//! cells, one polynomial patch per cell, stored in row-major cell
//! order.  This module verifies the index arithmetic that ties nodes
//! and cells together, and the binary-search location of the cell that
//! brackets a query point.
//!
//! Coordinates are handled as order codes: unsigned integers whose `<`
//! order agrees with the order of the physical axis coordinates.  Any
//! order-preserving encoding serves; location depends on nothing but
//! the order of the codes.

use vstd::prelude::*;

verus! {

/// Flat row-major index of the grid node `(xi, yi)` on an `nx`-wide
/// grid: `xi + yi * nx`.
pub open spec fn node_index(nx: int, xi: int, yi: int) -> int {
    xi + yi * nx
}

/// Flat row-major index of the grid cell `(xi, yi)` on a grid with
/// `nx` nodes per row, hence `nx - 1` cells per row.
pub open spec fn cell_flat_index(nx: int, xi: int, yi: int) -> int {
    xi + yi * (nx - 1)
}

/// The node index of the top-right corner of cell `(xi, yi)` stays
/// inside the `nx * ny` node array.
proof fn lemma_corner_bound(nx: int, ny: int, xi: int, yi: int)
    by (nonlinear_arith)
    requires
        0 <= xi < nx - 1,
        0 <= yi < ny - 1,
    ensures
        0 <= xi + yi * nx,
        xi + yi * nx + nx + 1 < nx * ny,
{
}

/// The flat cell index of cell `(xi, yi)` stays inside the
/// `(nx-1) * (ny-1)` cell array.
proof fn lemma_cell_bound(nx: int, ny: int, xi: int, yi: int)
    by (nonlinear_arith)
    requires
        0 <= xi < nx - 1,
        0 <= yi < ny - 1,
    ensures
        0 <= xi + yi * (nx - 1) < (nx - 1) * (ny - 1),
{
}

/// Flat node indices of the four corners of cell `(xi, yi)`, in the
/// order bottom-left, bottom-right, top-left, top-right.  The four
/// sample arrays are read at these indices when the cell's patch is
/// built.
pub fn corner_indices(nx: usize, ny: usize, xi: usize, yi: usize) -> (r: (
    usize,
    usize,
    usize,
    usize,
))
    requires
        xi + 1 < nx,
        yi + 1 < ny,
        nx * ny <= usize::MAX,
    ensures
        r.0 == node_index(nx as int, xi as int, yi as int),
        r.1 == r.0 + 1,
        r.2 == r.0 + nx,
        r.3 == r.0 + nx + 1,
        r.3 < nx * ny,
{
    proof {
        lemma_corner_bound(nx as int, ny as int, xi as int, yi as int);
    }
    let base: usize = xi + yi * nx;
    (base, base + 1, base + nx, base + nx + 1)
}

/// Flat row-major index of cell `(xi, yi)`; it is always a valid index
/// into the `(nx-1) * (ny-1)` patch array.
pub fn cell_index(nx: usize, ny: usize, xi: usize, yi: usize) -> (r: usize)
    requires
        xi + 1 < nx,
        yi + 1 < ny,
        (nx - 1) * (ny - 1) <= usize::MAX,
    ensures
        r == cell_flat_index(nx as int, xi as int, yi as int),
        r < (nx - 1) * (ny - 1),
{
    proof {
        lemma_cell_bound(nx as int, ny as int, xi as int, yi as int);
    }
    xi + yi * (nx - 1)
}

/// Adjacent cells read the same nodes along their shared edge: the
/// corners of the cell to the right (or above) start at the current
/// cell's bottom-right (or top-left) corner node.  Patches built from
/// these slots therefore share their edge data, which is what makes
/// the interpolated surface continuous across cells.
pub proof fn lemma_shared_corner_nodes(nx: int, xi: int, yi: int)
    ensures
        node_index(nx, xi + 1, yi) == node_index(nx, xi, yi) + 1,
        node_index(nx, xi, yi + 1) == node_index(nx, xi, yi) + nx,
{
    assert((yi + 1) * nx == yi * nx + nx) by (nonlinear_arith);
}

/// A sequence of order codes is strictly ascending.
pub open spec fn strictly_ascending(s: Seq<u64>) -> bool {
    forall|i: int, j: int| 0 <= i < j < s.len() ==> s[i] < s[j]
}

/// `q` lies strictly inside the open range of the axis: above the
/// first code and below the last.  Queries on or outside the outermost
/// grid lines are treated as outside the grid.
pub open spec fn inside_axis(s: Seq<u64>, q: u64) -> bool {
    s.len() >= 2 && s[0] < q && q < s[s.len() - 1]
}

/// Runtime check for [`strictly_ascending`].
pub fn is_strictly_ascending(v: &Vec<u64>) -> (r: bool)
    ensures
        r == strictly_ascending(v@),
{
    let n = v.len();
    let mut k: usize = 1;
    while k < n
        invariant
            1 <= k,
            n == v@.len(),
            k <= n || n == 0,
            forall|i: int, j: int| 0 <= i < j < k ==> v@[i] < v@[j],
        decreases n - k,
    {
        if v[k - 1] >= v[k] {
            assert(!strictly_ascending(v@));
            return false;
        }
        k = k + 1;
    }
    true
}

/// The located cell for a query point: the per-axis lower node indices
/// and the flat row-major index of the cell's patch.
#[derive(Clone, Copy, Debug, PartialEq, Eq, Structural)]
pub struct Cell {
    /// Lower bracketing node index on the x axis.
    pub xi: usize,
    /// Lower bracketing node index on the y axis.
    pub yi: usize,
    /// Flat row-major patch index, `xi + yi * (nx - 1)`.
    pub index: usize,
}

/// The two axes of a surface, as strictly ascending order codes, with
/// at least two nodes per axis (so at least one cell) and a cell count
/// that fits in `usize`.
pub struct Grid {
    x: Vec<u64>,
    y: Vec<u64>,
}

impl Grid {
    /// The x-axis order codes.
    pub closed spec fn x_axis(&self) -> Seq<u64> {
        self.x@
    }

    /// The y-axis order codes.
    pub closed spec fn y_axis(&self) -> Seq<u64> {
        self.y@
    }

    /// Well-formedness: both axes strictly ascending with at least two
    /// nodes, and the cell count representable.
    pub open spec fn wf(&self) -> bool {
        &&& self.x_axis().len() >= 2
        &&& self.y_axis().len() >= 2
        &&& strictly_ascending(self.x_axis())
        &&& strictly_ascending(self.y_axis())
        &&& (self.x_axis().len() - 1) * (self.y_axis().len() - 1) <= usize::MAX
    }

    /// Builds a grid from the two axes.  Returns `None` when an axis
    /// is shorter than two nodes or not strictly ascending, or when
    /// the grid's cell count would overflow `usize`; the axes are an
    /// unchecked precondition upstream, so a caller decides what a
    /// rejected grid means.
    pub fn new(x: Vec<u64>, y: Vec<u64>) -> (r: Option<Grid>)
        ensures
            r is Some <==> (x@.len() >= 2 && y@.len() >= 2 && strictly_ascending(x@)
                && strictly_ascending(y@) && (x@.len() - 1) * (y@.len() - 1) <= usize::MAX),
            match r {
                Some(g) => g.wf() && g.x_axis() == x@ && g.y_axis() == y@,
                None => true,
            },
    {
        if x.len() < 2 || y.len() < 2 {
            return None;
        }
        if !is_strictly_ascending(&x) || !is_strictly_ascending(&y) {
            return None;
        }
        let cells_x: usize = x.len() - 1;
        let cells_y: usize = y.len() - 1;
        if cells_x.checked_mul(cells_y).is_none() {
            return None;
        }
        Some(Grid { x, y })
    }

    /// Number of nodes on the x axis.
    pub fn nx(&self) -> (r: usize)
        ensures
            r == self.x_axis().len(),
    {
        self.x.len()
    }

    /// Number of nodes on the y axis.
    pub fn ny(&self) -> (r: usize)
        ensures
            r == self.y_axis().len(),
    {
        self.y.len()
    }

    /// Locates the cell whose half-open bracket contains the query
    /// point, by one binary search per axis.
    ///
    /// Returns `None` exactly when the query lies on or outside an
    /// outermost grid line on either axis.  Otherwise the returned
    /// per-axis node indices `xi`, `yi` are the unique ones with
    /// `x_axis[xi] < xq <= x_axis[xi+1]` and
    /// `y_axis[yi] < yq <= y_axis[yi+1]`, and `index` is the flat
    /// row-major index of that cell's patch.
    pub fn locate(&self, xq: u64, yq: u64) -> (r: Option<Cell>)
        requires
            self.wf(),
        ensures
            r is Some <==> (inside_axis(self.x_axis(), xq) && inside_axis(self.y_axis(), yq)),
            match r {
                Some(c) => {
                    &&& c.xi + 1 < self.x_axis().len()
                    &&& c.yi + 1 < self.y_axis().len()
                    &&& self.x_axis()[c.xi as int] < xq
                    &&& xq <= self.x_axis()[c.xi + 1]
                    &&& self.y_axis()[c.yi as int] < yq
                    &&& yq <= self.y_axis()[c.yi + 1]
                    &&& c.index == cell_flat_index(
                        self.x_axis().len() as int,
                        c.xi as int,
                        c.yi as int,
                    )
                    &&& c.index < (self.x_axis().len() - 1) * (self.y_axis().len() - 1)
                },
                None => true,
            },
    {
        let nx = self.x.len();
        let ny = self.y.len();
        if xq <= self.x[0] || xq >= self.x[nx - 1] {
            return None;
        }
        if yq <= self.y[0] || yq >= self.y[ny - 1] {
            return None;
        }
        let yi = bracket(&self.y, yq);
        let xi = bracket(&self.x, xq);
        let index = cell_index(nx, ny, xi, yi);
        Some(Cell { xi, yi, index })
    }
}

/// Binary search for the unique lower bracketing index of `q` on a
/// strictly ascending axis: narrows `[lower, upper]` while it is wider
/// than one step, exactly as the query loop of the interpolator does.
fn bracket(axis: &Vec<u64>, q: u64) -> (r: usize)
    requires
        strictly_ascending(axis@),
        axis@.len() >= 2,
        axis@[0] < q,
        q < axis@[axis@.len() - 1],
    ensures
        r + 1 < axis@.len(),
        axis@[r as int] < q,
        q <= axis@[r + 1],
{
    let mut lower: usize = 0;
    let mut upper: usize = axis.len() - 1;
    while upper - lower > 1
        invariant
            strictly_ascending(axis@),
            lower < upper < axis@.len(),
            axis@[lower as int] < q,
            q <= axis@[upper as int],
        decreases upper - lower,
    {
        let center = lower + (upper - lower) / 2;
        if q > axis[center] {
            lower = center;
        } else {
            upper = center;
        }
    }
    lower
}

/// A query exactly on an interior grid line is bracketed by the cell
/// below (or to the left of) that line: the bracket's upper node is
/// the node queried.  Together with the patches' corner exactness this
/// pins down what sampling at an interior node evaluates.
pub proof fn lemma_node_bracket(axis: Seq<u64>, i: int, r: int)
    requires
        strictly_ascending(axis),
        0 < i < axis.len() - 1,
        0 <= r,
        r + 1 < axis.len(),
        axis[r] < axis[i],
        axis[i] <= axis[r + 1],
    ensures
        r == i - 1,
        axis[i] == axis[r + 1],
{
    lemma_bracket_unique(axis, axis[i], r, i - 1);
}

/// The bracketing index of a query on a strictly ascending axis is
/// unique: two indices whose brackets both contain `q` are equal.
pub proof fn lemma_bracket_unique(axis: Seq<u64>, q: u64, i: int, j: int)
    requires
        strictly_ascending(axis),
        0 <= i,
        i + 1 < axis.len(),
        0 <= j,
        j + 1 < axis.len(),
        axis[i] < q <= axis[i + 1],
        axis[j] < q <= axis[j + 1],
    ensures
        i == j,
{
    if i < j {
        assert(axis[i + 1] <= axis[j]);
    }
    if j < i {
        assert(axis[j + 1] <= axis[i]);
    }
}

} // verus!
