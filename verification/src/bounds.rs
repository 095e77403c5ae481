//! Padded axis-aligned bounding box of a point cloud.

use vstd::prelude::*;

use crate::BOUND_LIMIT;
use crate::COORD_LIMIT;
use crate::MeshError;
use crate::PAD_LIMIT;
use crate::points_wf;

verus! {

/// An axis-aligned box, already padded outward, that encloses every input
/// point with a margin of at least the padding on each side.
#[derive(Clone, Copy, Debug, PartialEq, Eq, Structural)]
pub struct BoundingBox {
    pub min_x: i64,
    pub min_y: i64,
    pub min_z: i64,
    pub max_x: i64,
    pub max_y: i64,
    pub max_z: i64,
}

impl BoundingBox {
    /// Corners ordered and small enough for the grid arithmetic.
    pub open spec fn wf(&self) -> bool {
        &&& -BOUND_LIMIT <= self.min_x <= self.max_x <= BOUND_LIMIT
        &&& -BOUND_LIMIT <= self.min_y <= self.max_y <= BOUND_LIMIT
        &&& -BOUND_LIMIT <= self.min_z <= self.max_z <= BOUND_LIMIT
    }
}

/// Smallest coordinate on the given axis among the first `n` points.
pub open spec fn axis_min(points: Seq<i64>, axis: int, n: int) -> int
    decreases n,
{
    if n <= 1 {
        points[axis] as int
    } else {
        let rest = axis_min(points, axis, n - 1);
        let c = points[3 * (n - 1) + axis] as int;
        if c < rest {
            c
        } else {
            rest
        }
    }
}

/// Largest coordinate on the given axis among the first `n` points.
pub open spec fn axis_max(points: Seq<i64>, axis: int, n: int) -> int
    decreases n,
{
    if n <= 1 {
        points[axis] as int
    } else {
        let rest = axis_max(points, axis, n - 1);
        let c = points[3 * (n - 1) + axis] as int;
        if c > rest {
            c
        } else {
            rest
        }
    }
}

/// Scans a flat point buffer and returns its axis-aligned extremes, each
/// corner pushed outward by `padding` so the surface never touches the grid
/// boundary. An empty buffer has no bounds and is reported as such; every
/// non-empty buffer yields a box that contains each input point with a
/// margin of at least `padding`, hence a span of at least `2 * padding`
/// on every axis even for a single point.
pub fn get_bounds(positions: &Vec<i64>, padding: i64) -> (r: Result<BoundingBox, MeshError>)
    requires
        points_wf(positions@),
        1 <= padding <= PAD_LIMIT,
    ensures
        match r {
            Ok(b) => {
                let np = positions@.len() as int / 3;
                &&& positions@.len() > 0
                &&& b.wf()
                &&& b.min_x == axis_min(positions@, 0, np) - padding
                &&& b.min_y == axis_min(positions@, 1, np) - padding
                &&& b.min_z == axis_min(positions@, 2, np) - padding
                &&& b.max_x == axis_max(positions@, 0, np) + padding
                &&& b.max_y == axis_max(positions@, 1, np) + padding
                &&& b.max_z == axis_max(positions@, 2, np) + padding
                &&& forall|p: int|
                    0 <= p < np ==> b.min_x + padding <= #[trigger] positions@[3 * p] <= b.max_x
                        - padding
                &&& forall|p: int|
                    0 <= p < np ==> b.min_y + padding <= #[trigger] positions@[3 * p + 1]
                        <= b.max_y - padding
                &&& forall|p: int|
                    0 <= p < np ==> b.min_z + padding <= #[trigger] positions@[3 * p + 2]
                        <= b.max_z - padding
                &&& b.max_x - b.min_x >= 2 * padding
                &&& b.max_y - b.min_y >= 2 * padding
                &&& b.max_z - b.min_z >= 2 * padding
            },
            Err(e) => e == MeshError::EmptyInput && positions@.len() == 0,
        },
{
    if positions.len() == 0 {
        return Err(MeshError::EmptyInput);
    }
    let np: usize = positions.len() / 3;
    let mut min_x: i64 = positions[0];
    let mut min_y: i64 = positions[1];
    let mut min_z: i64 = positions[2];
    let mut max_x: i64 = positions[0];
    let mut max_y: i64 = positions[1];
    let mut max_z: i64 = positions[2];
    let mut p: usize = 1;
    while p < np
        invariant
            points_wf(positions@),
            3 * np == positions@.len(),
            1 <= p <= np,
            min_x == axis_min(positions@, 0, p as int),
            min_y == axis_min(positions@, 1, p as int),
            min_z == axis_min(positions@, 2, p as int),
            max_x == axis_max(positions@, 0, p as int),
            max_y == axis_max(positions@, 1, p as int),
            max_z == axis_max(positions@, 2, p as int),
            forall|q: int| 0 <= q < p ==> min_x <= #[trigger] positions@[3 * q] <= max_x,
            forall|q: int| 0 <= q < p ==> min_y <= #[trigger] positions@[3 * q + 1] <= max_y,
            forall|q: int| 0 <= q < p ==> min_z <= #[trigger] positions@[3 * q + 2] <= max_z,
            -COORD_LIMIT <= min_x <= max_x <= COORD_LIMIT,
            -COORD_LIMIT <= min_y <= max_y <= COORD_LIMIT,
            -COORD_LIMIT <= min_z <= max_z <= COORD_LIMIT,
        decreases np - p,
    {
        let x = positions[3 * p];
        let y = positions[3 * p + 1];
        let z = positions[3 * p + 2];
        if x < min_x {
            min_x = x;
        }
        if y < min_y {
            min_y = y;
        }
        if z < min_z {
            min_z = z;
        }
        if x > max_x {
            max_x = x;
        }
        if y > max_y {
            max_y = y;
        }
        if z > max_z {
            max_z = z;
        }
        p = p + 1;
    }
    Ok(
        BoundingBox {
            min_x: min_x - padding,
            min_y: min_y - padding,
            min_z: min_z - padding,
            max_x: max_x + padding,
            max_y: max_y + padding,
            max_z: max_z + padding,
        },
    )
}

} // verus!
