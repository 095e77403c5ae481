//! Surface reconstruction from an unstructured 3D point set.
//!
//! The pipeline samples a binary proximity field over a regular grid spanning
//! the padded bounding box of the input points and extracts the iso-surface
//! with the marching-cubes table, emitting a flat triangle soup.
//!
//! All geometry is carried in fixed-point integers: a coordinate is a whole
//! number of millionths of a world unit ([`COORD_SCALE`] per unit), and a
//! density is a whole number of thousandths ([`DENSITY_ONE`] is a density of
//! one). This keeps every computation exact and lets each stage state
//! precisely what it returns.
#![verifier::loop_isolation(false)]

use vstd::prelude::*;

pub mod bounds;
pub mod engine;
pub mod field;
pub mod tables;

use bounds::get_bounds;

verus! {

/// Fixed-point coordinate units per world unit.
pub const COORD_SCALE: i64 = 1_000_000;

/// Largest magnitude accepted for an input point coordinate.
pub const COORD_LIMIT: i64 = 1_000_000_000_000;

/// Largest accepted bounding-box padding.
pub const PAD_LIMIT: i64 = 1_000_000_000_000;

/// Largest magnitude a padded bounding-box corner can reach.
pub const BOUND_LIMIT: i64 = 2_000_000_000_000;

/// Largest accepted grid resolution (cells per axis).
pub const RES_LIMIT: usize = 1024;

/// Fixed-point density value standing for 1.0.
pub const DENSITY_ONE: i64 = 1000;

/// Largest accepted influence-radius multiplier.
pub const MULT_LIMIT: i64 = 1000;

/// Largest accepted point-sampling stride.
pub const STRIDE_LIMIT: usize = 1_000_000;

/// Default grid resolution.
pub const DEFAULT_RESOLUTION: usize = 50;

/// Default iso-surface threshold (0.5 in density units).
pub const DEFAULT_ISO_THRESHOLD: i64 = 500;

/// Default bounding-box padding (0.2 world units in coordinate units).
pub const DEFAULT_PADDING: i64 = 200_000;

/// Default sampling stride: every tenth point of the cloud.
pub const DEFAULT_SAMPLE_STRIDE: usize = 10;

/// Default influence-radius multiplier: three x-axis grid steps.
pub const DEFAULT_RADIUS_MULTIPLIER: i64 = 3;

/// Why the pipeline refused its input.
#[derive(Clone, Copy, Debug, PartialEq, Eq, Structural)]
pub enum MeshError {
    /// The point buffer was empty, so no bounding box exists.
    EmptyInput,
    /// The configured resolution exceeds what the engine supports.
    InvalidResolution,
}

/// The tunable parameters of the reconstruction pipeline.
#[derive(Clone, Copy, Debug, PartialEq, Eq, Structural)]
pub struct Config {
    /// Grid subdivisions per axis.
    pub resolution: usize,
    /// Density threshold of the extracted iso-surface, in thousandths.
    pub iso_threshold: i64,
    /// Outward bounding-box padding, in coordinate units.
    pub padding: i64,
    /// Evaluate every `sample_stride`-th point of the cloud.
    pub sample_stride: usize,
    /// Influence radius as a multiple of the x-axis grid step.
    pub influence_radius_multiplier: i64,
}

impl Config {
    /// The parameter ranges the fixed-point arithmetic supports; the
    /// resolution is checked separately so that an oversized one is
    /// reported as an error rather than excluded.
    pub open spec fn admissible(&self) -> bool {
        &&& 0 <= self.iso_threshold <= DENSITY_ONE
        &&& 1 <= self.padding <= PAD_LIMIT
        &&& 1 <= self.sample_stride <= STRIDE_LIMIT
        &&& 0 <= self.influence_radius_multiplier <= MULT_LIMIT
    }
}

impl Default for Config {
    /// The reference configuration: resolution 50, threshold 0.5,
    /// padding 0.2 units, every tenth point, radius of three steps.
    fn default() -> (c: Self)
        ensures
            c == (Config {
                resolution: DEFAULT_RESOLUTION,
                iso_threshold: DEFAULT_ISO_THRESHOLD,
                padding: DEFAULT_PADDING,
                sample_stride: DEFAULT_SAMPLE_STRIDE,
                influence_radius_multiplier: DEFAULT_RADIUS_MULTIPLIER,
            }),
            c.admissible(),
            c.resolution <= RES_LIMIT,
    {
        Config {
            resolution: DEFAULT_RESOLUTION,
            iso_threshold: DEFAULT_ISO_THRESHOLD,
            padding: DEFAULT_PADDING,
            sample_stride: DEFAULT_SAMPLE_STRIDE,
            influence_radius_multiplier: DEFAULT_RADIUS_MULTIPLIER,
        }
    }
}

/// Well-formed input: a flat buffer of whole points whose coordinates the
/// fixed-point arithmetic can square and sum without overflow.
pub open spec fn points_wf(points: Seq<i64>) -> bool {
    &&& points.len() % 3 == 0
    &&& points.len() < 0x4000_0000
    &&& forall|i: int| 0 <= i < points.len() ==> -COORD_LIMIT <= #[trigger] points[i] <= COORD_LIMIT
}

/// Reads point `index` of a flat buffer as its three coordinates.
pub fn get_vertex(positions: &Vec<i64>, index: usize) -> (r: (i64, i64, i64))
    requires
        3 * index + 2 < positions@.len(),
    ensures
        r.0 == positions@[3 * index],
        r.1 == positions@[3 * index + 1],
        r.2 == positions@[3 * index + 2],
{
    // Pins the buffer length, and with it `3 * index`, into machine range.
    let _n: usize = positions.len();
    let x = positions[3 * index];
    let y = positions[3 * index + 1];
    let z = positions[3 * index + 2];
    (x, y, z)
}

/// `f` is the grid that the pipeline builds for this cloud and
/// configuration: it owns the cloud, spans its padded bounding box and
/// carries the configured parameters.
pub open spec fn grid_of(f: field::FieldModel, points: Seq<i64>, cfg: Config) -> bool {
    let np = points.len() as int / 3;
    &&& f.positions == points
    &&& f.resolution == cfg.resolution as int
    &&& f.stride_scalars == 3 * cfg.sample_stride
    &&& f.radius_multiplier == cfg.influence_radius_multiplier as int
    &&& f.bounds.min_x == bounds::axis_min(points, 0, np) - cfg.padding
    &&& f.bounds.min_y == bounds::axis_min(points, 1, np) - cfg.padding
    &&& f.bounds.min_z == bounds::axis_min(points, 2, np) - cfg.padding
    &&& f.bounds.max_x == bounds::axis_max(points, 0, np) + cfg.padding
    &&& f.bounds.max_y == bounds::axis_max(points, 1, np) + cfg.padding
    &&& f.bounds.max_z == bounds::axis_max(points, 2, np) + cfg.padding
}

/// The whole pipeline: pads the cloud's bounding box, builds the density
/// grid and extracts the iso-surface. An oversized resolution is refused;
/// an empty cloud has no bounds and is refused; every other admissible
/// input yields the triangle soup of the grid that `grid_of` describes.
pub fn reconstruct(points: &Vec<i64>, cfg: &Config) -> (r: Result<Vec<i64>, MeshError>)
    requires
        points_wf(points@),
        cfg.admissible(),
    ensures
        match r {
            Ok(tris) => {
                &&& cfg.resolution <= RES_LIMIT
                &&& points@.len() > 0
                &&& exists|f: field::FieldModel| #[trigger] grid_of(f, points@, *cfg)
                &&& forall|f: field::FieldModel|
                    grid_of(f, points@, *cfg) ==> tris@ == engine::spec_march(
                        f,
                        cfg.iso_threshold as int,
                    )
                &&& forall|f: field::FieldModel, i: int|
                    #![trigger grid_of(f, points@, *cfg), tris@[i]]
                    grid_of(f, points@, *cfg) && 0 <= i < tris@.len() ==> engine::in_box(
                        f,
                        tris@[i],
                        i % 3,
                    )
                &&& tris@.len() % 9 == 0
            },
            Err(e) => {
                &&& (e == MeshError::InvalidResolution <==> cfg.resolution > RES_LIMIT)
                &&& (e == MeshError::EmptyInput <==> cfg.resolution <= RES_LIMIT
                    && points@.len() == 0)
            },
        },
{
    if cfg.resolution > RES_LIMIT {
        return Err(MeshError::InvalidResolution);
    }
    let b = match get_bounds(points, cfg.padding) {
        Ok(b) => b,
        Err(e) => {
            return Err(e);
        },
    };
    let cloud = points.clone();
    proof {
        assert(cloud@ =~= points@);
    }
    let grid = field::MeshDistanceField::new(
        cloud,
        b,
        cfg.resolution,
        3 * cfg.sample_stride,
        cfg.influence_radius_multiplier,
    );
    let tris = engine::marching_cubes(&grid, cfg.iso_threshold);
    proof {
        assert(grid_of(grid@, points@, *cfg));
        assert forall|f: field::FieldModel| grid_of(f, points@, *cfg) implies f == grid@ by {
            assert(f =~= grid@);
        }
    }
    Ok(tris)
}

/// Running the pipeline twice on an identical cloud and an identical
/// configuration yields an identical triangle list.
pub proof fn lemma_reconstruct_deterministic(
    points: Seq<i64>,
    cfg: Config,
    r1: Seq<i64>,
    r2: Seq<i64>,
)
    requires
        exists|f: field::FieldModel| #[trigger] grid_of(f, points, cfg),
        forall|f: field::FieldModel|
            grid_of(f, points, cfg) ==> r1 == engine::spec_march(f, cfg.iso_threshold as int),
        forall|f: field::FieldModel|
            grid_of(f, points, cfg) ==> r2 == engine::spec_march(f, cfg.iso_threshold as int),
    ensures
        r1 == r2,
{
    let f = choose|f: field::FieldModel| grid_of(f, points, cfg);
    assert(r1 == engine::spec_march(f, cfg.iso_threshold as int));
}

} // verus!
