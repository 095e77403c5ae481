//! The binary proximity field sampled by the engine: density one within the
//! influence radius of the point cloud, zero elsewhere.

use vstd::prelude::*;

use crate::DENSITY_ONE;
use crate::MULT_LIMIT;
use crate::RES_LIMIT;
use crate::STRIDE_LIMIT;
use crate::bounds::BoundingBox;
use crate::points_wf;

verus! {

/// Distance reported when no point of the cloud was sampled; larger than
/// any squared point-to-grid distance and than any squared influence
/// radius the admissible parameters can produce.
pub const FAR_DIST_SQ: i128 = 100_000_000_000_000_000_000_000_000_000_000;

/// The voxel grid: a scalar density over grid indices, evaluated from the
/// distance between the grid vertex and the nearest sampled point of the
/// cloud.
pub struct MeshDistanceField {
    /// Flat point buffer, three coordinates per point.
    pub positions: Vec<i64>,
    /// Padded bounding box the grid spans.
    pub bounds: BoundingBox,
    /// Grid cells per axis.
    pub resolution: usize,
    /// Scan every `stride_scalars`-th scalar of the buffer; a multiple of
    /// three, so whole points are sampled.
    pub stride_scalars: usize,
    /// Influence radius as a multiple of the x-axis grid step.
    pub radius_multiplier: i64,
}

/// The mathematical content of a grid: everything its densities and its
/// triangle soup depend on.
#[verifier::ext_equal]
pub ghost struct FieldModel {
    pub positions: Seq<i64>,
    pub bounds: BoundingBox,
    pub resolution: int,
    pub stride_scalars: int,
    pub radius_multiplier: int,
}

impl View for MeshDistanceField {
    type V = FieldModel;

    open spec fn view(&self) -> FieldModel {
        FieldModel {
            positions: self.positions@,
            bounds: self.bounds,
            resolution: self.resolution as int,
            stride_scalars: self.stride_scalars as int,
            radius_multiplier: self.radius_multiplier as int,
        }
    }
}

/// Squared Euclidean distance between a cloud point and a grid vertex.
pub open spec fn point_dist_sq(px: int, py: int, pz: int, wx: int, wy: int, wz: int) -> int {
    (px - wx) * (px - wx) + (py - wy) * (py - wy) + (pz - wz) * (pz - wz)
}

/// Minimum squared distance from the grid vertex at `(wx, wy, wz)` to the
/// points sampled at every `stride`-th scalar from scalar index `i` on;
/// [`FAR_DIST_SQ`] when no point is sampled.
pub open spec fn min_dist_sq_from(
    points: Seq<i64>,
    stride: int,
    i: int,
    wx: int,
    wy: int,
    wz: int,
) -> int
    decreases points.len() - i,
{
    if 0 <= i && i + 3 <= points.len() && 3 <= stride {
        let d = point_dist_sq(
            points[i] as int,
            points[i + 1] as int,
            points[i + 2] as int,
            wx,
            wy,
            wz,
        );
        let next = if i + stride <= points.len() {
            i + stride
        } else {
            points.len() as int
        };
        let rest = min_dist_sq_from(points, stride, next, wx, wy, wz);
        if d < rest {
            d
        } else {
            rest
        }
    } else {
        FAR_DIST_SQ as int
    }
}

/// The sampled minimum distance never exceeds the far marker and is never
/// negative.
pub proof fn lemma_min_dist_sq_bounds(
    points: Seq<i64>,
    stride: int,
    i: int,
    wx: int,
    wy: int,
    wz: int,
)
    ensures
        0 <= min_dist_sq_from(points, stride, i, wx, wy, wz) <= FAR_DIST_SQ,
    decreases points.len() - i,
{
    if 0 <= i && i + 3 <= points.len() && 3 <= stride {
        let next = if i + stride <= points.len() {
            i + stride
        } else {
            points.len() as int
        };
        lemma_min_dist_sq_bounds(points, stride, next, wx, wy, wz);
        assert(point_dist_sq(
            points[i] as int,
            points[i + 1] as int,
            points[i + 2] as int,
            wx,
            wy,
            wz,
        ) >= 0) by (nonlinear_arith);
    }
}

impl FieldModel {
    /// The shape every grid the engine walks must have: bounded, ordered
    /// corners and parameters the fixed-point arithmetic supports.
    pub open spec fn wf(&self) -> bool {
        &&& points_wf(self.positions)
        &&& self.bounds.wf()
        &&& 0 <= self.resolution <= RES_LIMIT
        &&& 3 <= self.stride_scalars <= 3 * STRIDE_LIMIT
        &&& self.stride_scalars % 3 == 0
        &&& 0 <= self.radius_multiplier <= MULT_LIMIT
    }

    /// Grid step along the x axis: the box span divided by the resolution,
    /// rounded down to whole coordinate units.
    pub open spec fn step_x(&self) -> int {
        (self.bounds.max_x - self.bounds.min_x) / self.resolution
    }

    /// Grid step along the y axis.
    pub open spec fn step_y(&self) -> int {
        (self.bounds.max_y - self.bounds.min_y) / self.resolution
    }

    /// Grid step along the z axis.
    pub open spec fn step_z(&self) -> int {
        (self.bounds.max_z - self.bounds.min_z) / self.resolution
    }

    /// World x coordinate of grid index `gx`.
    pub open spec fn world_x(&self, gx: int) -> int {
        self.bounds.min_x + gx * self.step_x()
    }

    /// World y coordinate of grid index `gy`.
    pub open spec fn world_y(&self, gy: int) -> int {
        self.bounds.min_y + gy * self.step_y()
    }

    /// World z coordinate of grid index `gz`.
    pub open spec fn world_z(&self, gz: int) -> int {
        self.bounds.min_z + gz * self.step_z()
    }

    /// Squared influence radius: the x-axis step scaled by the configured
    /// multiplier, squared.
    pub open spec fn influence_sq(&self) -> int {
        (self.step_x() * self.radius_multiplier) * (self.step_x() * self.radius_multiplier)
    }

    /// Density at a grid vertex: one when the nearest sampled point lies
    /// strictly within the influence radius, zero otherwise.
    #[verifier::opaque]
    pub open spec fn density(&self, gx: int, gy: int, gz: int) -> int {
        if min_dist_sq_from(
            self.positions,
            self.stride_scalars,
            0,
            self.world_x(gx),
            self.world_y(gy),
            self.world_z(gz),
        ) < self.influence_sq() {
            DENSITY_ONE as int
        } else {
            0
        }
    }
}

impl MeshDistanceField {
    /// Builds the field; the caller supplies a box from
    /// [`crate::bounds::get_bounds`] and admissible parameters.
    pub fn new(
        positions: Vec<i64>,
        bounds: BoundingBox,
        resolution: usize,
        stride_scalars: usize,
        radius_multiplier: i64,
    ) -> (f: MeshDistanceField)
        requires
            points_wf(positions@),
            bounds.wf(),
            resolution <= RES_LIMIT,
            3 <= stride_scalars <= 3 * STRIDE_LIMIT,
            stride_scalars % 3 == 0,
            0 <= radius_multiplier <= MULT_LIMIT,
        ensures
            f == (MeshDistanceField { positions, bounds, resolution, stride_scalars, radius_multiplier }),
            f@.wf(),
    {
        MeshDistanceField { positions, bounds, resolution, stride_scalars, radius_multiplier }
    }

    /// The grid has the same number of cells along each axis.
    pub fn dimensions(&self) -> (r: [usize; 3])
        ensures
            r@ == seq![self.resolution, self.resolution, self.resolution],
    {
        let r = [self.resolution, self.resolution, self.resolution];
        proof {
            assert(r@ =~= seq![self.resolution, self.resolution, self.resolution]);
        }
        r
    }

    /// World position of the grid vertex at `(gx, gy, gz)`; always inside
    /// the padded bounding box.
    pub fn world_vertex(&self, gx: usize, gy: usize, gz: usize) -> (w: (i64, i64, i64))
        requires
            self@.wf(),
            1 <= self.resolution,
            gx <= self.resolution,
            gy <= self.resolution,
            gz <= self.resolution,
        ensures
            w.0 as int == self@.world_x(gx as int),
            w.1 as int == self@.world_y(gy as int),
            w.2 as int == self@.world_z(gz as int),
            self.bounds.min_x <= w.0 <= self.bounds.max_x,
            self.bounds.min_y <= w.1 <= self.bounds.max_y,
            self.bounds.min_z <= w.2 <= self.bounds.max_z,
    {
        let res_u: u64 = self.resolution as u64;
        let span_x: u64 = (self.bounds.max_x - self.bounds.min_x) as u64;
        let span_y: u64 = (self.bounds.max_y - self.bounds.min_y) as u64;
        let span_z: u64 = (self.bounds.max_z - self.bounds.min_z) as u64;
        let step_x: u64 = span_x / res_u;
        let step_y: u64 = span_y / res_u;
        let step_z: u64 = span_z / res_u;
        proof {
            lemma_grid_offset(gx as int, step_x as int, res_u as int, span_x as int);
            lemma_grid_offset(gy as int, step_y as int, res_u as int, span_y as int);
            lemma_grid_offset(gz as int, step_z as int, res_u as int, span_z as int);
        }
        let wx: i64 = self.bounds.min_x + ((gx as u64) * step_x) as i64;
        let wy: i64 = self.bounds.min_y + ((gy as u64) * step_y) as i64;
        let wz: i64 = self.bounds.min_z + ((gz as u64) * step_z) as i64;
        (wx, wy, wz)
    }

    /// Samples the density at grid vertex `(x, y, z)`: maps the grid index
    /// to world coordinates, scans every `stride_scalars`-th scalar of the
    /// buffer for the nearest sampled point, and thresholds the squared
    /// distance against the squared influence radius.
    pub fn z(&self, x: usize, y: usize, z: usize) -> (d: i64)
        requires
            self@.wf(),
            1 <= self.resolution,
            x <= self.resolution,
            y <= self.resolution,
            z <= self.resolution,
        ensures
            d == self@.density(x as int, y as int, z as int),
            d == 0 || d == DENSITY_ONE,
    {
        proof {
            reveal(FieldModel::density);
        }
        let res_u: u64 = self.resolution as u64;
        let span_x: u64 = (self.bounds.max_x - self.bounds.min_x) as u64;
        let span_y: u64 = (self.bounds.max_y - self.bounds.min_y) as u64;
        let span_z: u64 = (self.bounds.max_z - self.bounds.min_z) as u64;
        let step_x: u64 = span_x / res_u;
        let step_y: u64 = span_y / res_u;
        let step_z: u64 = span_z / res_u;
        proof {
            assert(step_x as int == self@.step_x());
            assert(step_y as int == self@.step_y());
            assert(step_z as int == self@.step_z());
            lemma_grid_offset(x as int, step_x as int, res_u as int, span_x as int);
            lemma_grid_offset(y as int, step_y as int, res_u as int, span_y as int);
            lemma_grid_offset(z as int, step_z as int, res_u as int, span_z as int);
        }
        proof {
            assert(step_x as int * self.radius_multiplier as int <= 4_000_000_000_000_000int
                && step_x as int * self.radius_multiplier as int >= 0) by (nonlinear_arith)
                requires
                    0 <= step_x as int <= 4_000_000_000_000int,
                    0 <= self.radius_multiplier as int <= 1000int,
            ;
        }
        let wx: i64 = self.bounds.min_x + ((x as u64) * step_x) as i64;
        let wy: i64 = self.bounds.min_y + ((y as u64) * step_y) as i64;
        let wz: i64 = self.bounds.min_z + ((z as u64) * step_z) as i64;
        let infl: i64 = (step_x as i64) * self.radius_multiplier;
        proof {
            assert(infl as i128 * (infl as i128) <= 16_000_000_000_000_000_000_000_000_000_000i128
                && infl as i128 * (infl as i128) >= 0) by (nonlinear_arith)
                requires
                    0 <= infl as i128 <= 4_000_000_000_000_000i128,
            ;
        }
        let infl_sq: i128 = (infl as i128) * (infl as i128);
        let n: usize = self.positions.len();
        let stride: usize = self.stride_scalars;
        let mut best: i128 = FAR_DIST_SQ;
        let mut i: usize = 0;
        proof {
            lemma_min_dist_sq_bounds(
                self.positions@,
                stride as int,
                0,
                wx as int,
                wy as int,
                wz as int,
            );
        }
        while i + 3 <= n
            invariant
                i <= n,
                0 <= best <= FAR_DIST_SQ,
                vstd::math::min(
                    best as int,
                    min_dist_sq_from(
                        self.positions@,
                        stride as int,
                        i as int,
                        wx as int,
                        wy as int,
                        wz as int,
                    ),
                ) == min_dist_sq_from(
                    self.positions@,
                    stride as int,
                    0,
                    wx as int,
                    wy as int,
                    wz as int,
                ),
            decreases n - i,
        {
            let px = self.positions[i];
            let py = self.positions[i + 1];
            let pz = self.positions[i + 2];
            let dx: i128 = px as i128 - wx as i128;
            let dy: i128 = py as i128 - wy as i128;
            let dz: i128 = pz as i128 - wz as i128;
            proof {
                assert(dx * dx <= 10_000_000_000_000_000_000_000_000i128 && dx * dx >= 0)
                    by (nonlinear_arith)
                    requires
                        -3_100_000_000_000i128 <= dx <= 3_100_000_000_000i128,
                ;
                assert(dy * dy <= 10_000_000_000_000_000_000_000_000i128 && dy * dy >= 0)
                    by (nonlinear_arith)
                    requires
                        -3_100_000_000_000i128 <= dy <= 3_100_000_000_000i128,
                ;
                assert(dz * dz <= 10_000_000_000_000_000_000_000_000i128 && dz * dz >= 0)
                    by (nonlinear_arith)
                    requires
                        -3_100_000_000_000i128 <= dz <= 3_100_000_000_000i128,
                ;
            }
            let dist: i128 = dx * dx + dy * dy + dz * dz;
            if dist < best {
                best = dist;
            }
            i = if i + stride <= n {
                i + stride
            } else {
                n
            };
        }
        if best < infl_sq {
            DENSITY_ONE
        } else {
            0
        }
    }
}

/// A grid index times the rounded-down step stays within the box span, so
/// every grid vertex lies inside the padded bounding box.
proof fn lemma_grid_offset(gi: int, step: int, res: int, span: int)
    requires
        0 <= gi <= res,
        1 <= res,
        0 <= span,
        step == span / res,
    ensures
        0 <= gi * step <= span,
        0 <= step <= span,
{
    assert(res * step <= span) by {
        vstd::arithmetic::div_mod::lemma_fundamental_div_mod(span, res);
        vstd::arithmetic::div_mod::lemma_mod_bound(span, res);
    }
    assert(step >= 0) by {
        vstd::arithmetic::div_mod::lemma_div_pos_is_pos(span, res);
    }
    assert(0 <= gi * step <= res * step && step <= res * step) by (nonlinear_arith)
        requires
            0 <= gi <= res,
            1 <= res,
            step >= 0,
    ;
}

} // verus!
