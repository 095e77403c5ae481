//! The marching-cubes engine: walks every cell of the grid, classifies its
//! corners against the iso-threshold, interpolates the crossed edges and
//! emits the tabulated triangles as a flat soup of coordinates.

use vstd::prelude::*;

use crate::BOUND_LIMIT;
use crate::DENSITY_ONE;
use crate::field::FAR_DIST_SQ;
use crate::field::FieldModel;
use crate::field::MeshDistanceField;
use crate::tables::corner_offset;
use crate::tables::edge_corners;
use crate::tables::lemma_tri_count_at;
use crate::tables::lemma_tri_count_bounds;
use crate::tables::spec_corner_offset;
use crate::tables::spec_edge_corners;
use crate::tables::tri_count;
use crate::tables::tri_entry;
use crate::tables::tri_entry_at;
use crate::tables::tri_first_edge;

verus! {

/// Interpolation weight along a cut edge, as the fraction
/// `num / den`: how far the iso-threshold sits from the first corner's
/// density on the way to the second's, clamped into `[0, 1]` and with the
/// midpoint chosen when both corners carry the same density.
pub open spec fn spec_interp_params(d0: int, d1: int, iso: int) -> (int, int) {
    if d1 == d0 {
        (1, 2)
    } else if d1 > d0 {
        let den = d1 - d0;
        let num = iso - d0;
        if num < 0 {
            (0, den)
        } else if num > den {
            (den, den)
        } else {
            (num, den)
        }
    } else {
        let den = d0 - d1;
        let num = d0 - iso;
        if num < 0 {
            (0, den)
        } else if num > den {
            (den, den)
        } else {
            (num, den)
        }
    }
}

/// One coordinate of the interpolated point: `p0 + (num / den) * (p1 - p0)`
/// carried out in integers, rounding the offset toward `p0`.
pub open spec fn spec_interp_coord(p0: int, p1: int, num: int, den: int) -> int {
    if p1 >= p0 {
        p0 + (num * (p1 - p0)) / den
    } else {
        p0 - (num * (p0 - p1)) / den
    }
}

/// Density at corner `c` of the cell at `(x, y, z)`.
pub open spec fn corner_density(f: FieldModel, x: int, y: int, z: int, c: int) -> int {
    f.density(
        x + spec_corner_offset(c).0,
        y + spec_corner_offset(c).1,
        z + spec_corner_offset(c).2,
    )
}

/// World position of corner `c` of the cell at `(x, y, z)`.
pub open spec fn corner_world(f: FieldModel, x: int, y: int, z: int, c: int) -> (
    int,
    int,
    int,
) {
    (
        f.world_x(x + spec_corner_offset(c).0),
        f.world_y(y + spec_corner_offset(c).1),
        f.world_z(z + spec_corner_offset(c).2),
    )
}

/// The cell's 8-bit configuration: bit `c` is set when corner `c`'s
/// density reaches the iso-threshold.
pub open spec fn spec_cube_index(f: FieldModel, iso: int, x: int, y: int, z: int) -> int {
    (if corner_density(f, x, y, z, 0) >= iso { 1int } else { 0int })
        + (if corner_density(f, x, y, z, 1) >= iso { 2int } else { 0int })
        + (if corner_density(f, x, y, z, 2) >= iso { 4int } else { 0int })
        + (if corner_density(f, x, y, z, 3) >= iso { 8int } else { 0int })
        + (if corner_density(f, x, y, z, 4) >= iso { 16int } else { 0int })
        + (if corner_density(f, x, y, z, 5) >= iso { 32int } else { 0int })
        + (if corner_density(f, x, y, z, 6) >= iso { 64int } else { 0int })
        + (if corner_density(f, x, y, z, 7) >= iso { 128int } else { 0int })
}

/// The interpolated iso-surface point on edge `e` of the cell at
/// `(x, y, z)`, as its three coordinates.
#[verifier::opaque]
pub open spec fn spec_edge_vertex(
    f: FieldModel,
    iso: int,
    x: int,
    y: int,
    z: int,
    e: int,
) -> Seq<i64> {
    let ca = spec_edge_corners(e).0;
    let cb = spec_edge_corners(e).1;
    let p0 = corner_world(f, x, y, z, ca);
    let p1 = corner_world(f, x, y, z, cb);
    let d0 = corner_density(f, x, y, z, ca);
    let d1 = corner_density(f, x, y, z, cb);
    let nd = spec_interp_params(d0, d1, iso);
    seq![
        spec_interp_coord(p0.0, p1.0, nd.0, nd.1) as i64,
        spec_interp_coord(p0.1, p1.1, nd.0, nd.1) as i64,
        spec_interp_coord(p0.2, p1.2, nd.0, nd.1) as i64,
    ]
}

/// The nine coordinates of tabulated triangle `t` for configuration
/// `case` in the cell at `(x, y, z)`, in the tabulated winding order.
pub open spec fn spec_triangle(
    f: FieldModel,
    iso: int,
    x: int,
    y: int,
    z: int,
    case: int,
    t: int,
) -> Seq<i64> {
    spec_edge_vertex(f, iso, x, y, z, tri_entry(case, 3 * t)) + spec_edge_vertex(
        f,
        iso,
        x,
        y,
        z,
        tri_entry(case, 3 * t + 1),
    ) + spec_edge_vertex(f, iso, x, y, z, tri_entry(case, 3 * t + 2))
}

/// The coordinates of the first `t` tabulated triangles of the cell at
/// `(x, y, z)` under configuration `case`.
pub open spec fn spec_cell_upto(
    f: FieldModel,
    iso: int,
    x: int,
    y: int,
    z: int,
    case: int,
    t: int,
) -> Seq<i64>
    decreases t,
{
    if t <= 0 {
        Seq::empty()
    } else {
        spec_cell_upto(f, iso, x, y, z, case, t - 1) + spec_triangle(f, iso, x, y, z, case, t - 1)
    }
}

/// Everything the cell at `(x, y, z)` contributes to the soup.
pub open spec fn spec_cell(f: FieldModel, iso: int, x: int, y: int, z: int) -> Seq<i64> {
    let case = spec_cube_index(f, iso, x, y, z);
    spec_cell_upto(f, iso, x, y, z, case, tri_count(case))
}

/// The soup of the cells `(x, y, 0..nz)`.
pub open spec fn spec_march_z(f: FieldModel, iso: int, x: int, y: int, nz: int) -> Seq<i64>
    decreases nz,
{
    if nz <= 0 {
        Seq::empty()
    } else {
        spec_march_z(f, iso, x, y, nz - 1) + spec_cell(f, iso, x, y, nz - 1)
    }
}

/// The soup of the cells `(x, 0..ny, 0..resolution)`.
pub open spec fn spec_march_y(f: FieldModel, iso: int, x: int, ny: int) -> Seq<i64>
    decreases ny,
{
    if ny <= 0 {
        Seq::empty()
    } else {
        spec_march_y(f, iso, x, ny - 1) + spec_march_z(f, iso, x, ny - 1, f.resolution)
    }
}

/// The soup of the cells `(0..nx, 0..resolution, 0..resolution)`.
pub open spec fn spec_march_x(f: FieldModel, iso: int, nx: int) -> Seq<i64>
    decreases nx,
{
    if nx <= 0 {
        Seq::empty()
    } else {
        spec_march_x(f, iso, nx - 1) + spec_march_y(f, iso, nx - 1, f.resolution)
    }
}

/// The whole triangle soup of the grid, cells walked in x-major order.
pub open spec fn spec_march(f: FieldModel, iso: int) -> Seq<i64> {
    spec_march_x(f, iso, f.resolution)
}

/// A coordinate lies within the box along its axis: axis 0 is x, 1 is y,
/// and any other residue is z.
pub open spec fn in_box(f: FieldModel, v: i64, axis: int) -> bool {
    if axis == 0 {
        f.bounds.min_x <= v <= f.bounds.max_x
    } else if axis == 1 {
        f.bounds.min_y <= v <= f.bounds.max_y
    } else {
        f.bounds.min_z <= v <= f.bounds.max_z
    }
}

/// Normalized, clamped interpolation parameters of a cut edge.
fn interp_params(d0: i64, d1: i64, iso: i64) -> (r: (i64, i64))
    requires
        0 <= d0 <= DENSITY_ONE,
        0 <= d1 <= DENSITY_ONE,
        0 <= iso <= DENSITY_ONE,
    ensures
        r.0 as int == spec_interp_params(d0 as int, d1 as int, iso as int).0,
        r.1 as int == spec_interp_params(d0 as int, d1 as int, iso as int).1,
        0 <= r.0 <= r.1,
        1 <= r.1 <= DENSITY_ONE,
{
    if d1 == d0 {
        (1, 2)
    } else if d1 > d0 {
        let den = d1 - d0;
        let num = iso - d0;
        if num < 0 {
            (0, den)
        } else if num > den {
            (den, den)
        } else {
            (num, den)
        }
    } else {
        let den = d0 - d1;
        let num = d0 - iso;
        if num < 0 {
            (0, den)
        } else if num > den {
            (den, den)
        } else {
            (num, den)
        }
    }
}

/// One interpolated coordinate; the result always lies between the two
/// corner coordinates.
fn interp_coord(p0: i64, p1: i64, num: i64, den: i64) -> (r: i64)
    requires
        -BOUND_LIMIT <= p0 <= BOUND_LIMIT,
        -BOUND_LIMIT <= p1 <= BOUND_LIMIT,
        0 <= num <= den,
        1 <= den <= DENSITY_ONE,
    ensures
        r as int == spec_interp_coord(p0 as int, p1 as int, num as int, den as int),
        p0 <= p1 ==> p0 <= r <= p1,
        p1 <= p0 ==> p1 <= r <= p0,
{
    if p1 >= p0 {
        let delta: u64 = (p1 - p0) as u64;
        proof {
            lemma_interp_offset(num as int, den as int, delta as int);
        }
        let off: u64 = ((num as u64) * delta) / (den as u64);
        p0 + (off as i64)
    } else {
        let delta: u64 = (p0 - p1) as u64;
        proof {
            lemma_interp_offset(num as int, den as int, delta as int);
        }
        let off: u64 = ((num as u64) * delta) / (den as u64);
        p0 - (off as i64)
    }
}

/// The clamped weight keeps the interpolation offset within the edge:
/// `0 <= (num * delta) / den <= delta`.
proof fn lemma_interp_offset(num: int, den: int, delta: int)
    requires
        0 <= num <= den,
        1 <= den <= 1000,
        0 <= delta <= 4_100_000_000_000,
    ensures
        0 <= (num * delta) / den <= delta,
        num * delta <= den * delta,
        num * delta <= 4_100_000_000_000_000,
{
    assert(0 <= num * delta <= den * delta && num * delta <= 4_100_000_000_000_000int)
        by (nonlinear_arith)
        requires
            0 <= num <= den,
            den <= 1000,
            0 <= delta <= 4_100_000_000_000int,
    ;
    vstd::arithmetic::div_mod::lemma_div_is_ordered(num * delta, den * delta, den);
    vstd::arithmetic::div_mod::lemma_div_multiples_vanish(delta, den);
    vstd::arithmetic::div_mod::lemma_div_pos_is_pos(num * delta, den);
}

/// Appends the interpolated iso-surface point of edge `e` to the soup.
fn push_edge_vertex(
    f: &MeshDistanceField,
    iso: i64,
    x: usize,
    y: usize,
    z: usize,
    e: i8,
    out: &mut Vec<i64>,
)
    requires
        f@.wf(),
        1 <= f.resolution,
        x < f.resolution,
        y < f.resolution,
        z < f.resolution,
        0 <= iso <= DENSITY_ONE,
    ensures
        final(out)@ == old(out)@ + spec_edge_vertex(
            f@,
            iso as int,
            x as int,
            y as int,
            z as int,
            e as int,
        ),
        final(out)@.len() == old(out)@.len() + 3,
        in_box(f@, final(out)@[old(out)@.len() as int], 0),
        in_box(f@, final(out)@[old(out)@.len() as int + 1], 1),
        in_box(f@, final(out)@[old(out)@.len() as int + 2], 2),
{
    let (ca, cb) = edge_corners(e);
    let (oax, oay, oaz) = corner_offset(ca);
    let (obx, oby, obz) = corner_offset(cb);
    let pa = f.world_vertex(x + oax, y + oay, z + oaz);
    let pb = f.world_vertex(x + obx, y + oby, z + obz);
    let da = f.z(x + oax, y + oay, z + oaz);
    let db = f.z(x + obx, y + oby, z + obz);
    let (num, den) = interp_params(da, db, iso);
    let vx = interp_coord(pa.0, pb.0, num, den);
    let vy = interp_coord(pa.1, pb.1, num, den);
    let vz = interp_coord(pa.2, pb.2, num, den);
    out.push(vx);
    out.push(vy);
    out.push(vz);
    proof {
        reveal(spec_edge_vertex);
        assert(final(out)@ =~= old(out)@ + spec_edge_vertex(
            f@,
            iso as int,
            x as int,
            y as int,
            z as int,
            e as int,
        ));
    }
}

/// Classifies the cell's 8 corners against the iso-threshold and packs
/// the result into the cell's configuration index.
fn cube_case(f: &MeshDistanceField, iso: i64, x: usize, y: usize, z: usize) -> (case: usize)
    requires
        f@.wf(),
        1 <= f.resolution,
        x < f.resolution,
        y < f.resolution,
        z < f.resolution,
        0 <= iso <= DENSITY_ONE,
    ensures
        case as int == spec_cube_index(f@, iso as int, x as int, y as int, z as int),
        case < 256,
{
    let d0 = f.z(x, y, z);
    let d1 = f.z(x + 1, y, z);
    let d2 = f.z(x + 1, y + 1, z);
    let d3 = f.z(x, y + 1, z);
    let d4 = f.z(x, y, z + 1);
    let d5 = f.z(x + 1, y, z + 1);
    let d6 = f.z(x + 1, y + 1, z + 1);
    let d7 = f.z(x, y + 1, z + 1);
    let mut case: usize = 0;
    if d0 >= iso {
        case = case + 1;
    }
    if d1 >= iso {
        case = case + 2;
    }
    if d2 >= iso {
        case = case + 4;
    }
    if d3 >= iso {
        case = case + 8;
    }
    if d4 >= iso {
        case = case + 16;
    }
    if d5 >= iso {
        case = case + 32;
    }
    if d6 >= iso {
        case = case + 64;
    }
    if d7 >= iso {
        case = case + 128;
    }
    case
}

/// Scans the triangulation row of `case` up to its end marker.
fn scan_count(case: usize) -> (count: usize)
    requires
        case < 256,
    ensures
        count as int == tri_count(case as int),
        count <= 5,
{
    let mut count: usize = 0;
    let mut scanning: bool = true;
    while count < 5 && scanning
        invariant
            count <= 5,
            forall|k: int| 0 <= k < count ==> #[trigger] tri_first_edge(case as int, k) != -1,
            !scanning ==> count < 5 && tri_first_edge(case as int, count as int) == -1,
        decreases 5 - count, (if scanning { 1int } else { 0int }),
    {
        if tri_entry_at(case, 3 * count) == -1 {
            scanning = false;
        } else {
            count = count + 1;
        }
    }
    proof {
        if scanning {
            lemma_tri_count_at(case as int, 5);
        } else {
            lemma_tri_count_at(case as int, count as int);
        }
    }
    count
}

/// Appends everything the cell at `(x, y, z)` contributes: classifies the
/// 8 corners, looks the configuration up in the triangulation table and
/// emits its triangles in the tabulated order.
#[verifier::rlimit(100)]
fn emit_cell(f: &MeshDistanceField, iso: i64, x: usize, y: usize, z: usize, out: &mut Vec<i64>)
    requires
        f@.wf(),
        1 <= f.resolution,
        x < f.resolution,
        y < f.resolution,
        z < f.resolution,
        0 <= iso <= DENSITY_ONE,
        old(out)@.len() % 3 == 0,
    ensures
        final(out)@ == old(out)@ + spec_cell(f@, iso as int, x as int, y as int, z as int),
        (final(out)@.len() - old(out)@.len()) % 9 == 0,
        final(out)@.len() % 3 == 0,
        forall|i: int|
            old(out)@.len() <= i < final(out)@.len() ==> in_box(f@, #[trigger] final(out)@[i], i % 3),
{
    let case = cube_case(f, iso, x, y, z);
    let count = scan_count(case);
    let mut t: usize = 0;
    while t < count
        invariant
            t <= count,
            out@ == old(out)@ + spec_cell_upto(
                f@,
                iso as int,
                x as int,
                y as int,
                z as int,
                case as int,
                t as int,
            ),
            out@.len() == old(out)@.len() + 9 * t,
            forall|i: int|
                old(out)@.len() <= i < out@.len() ==> in_box(f@, #[trigger] out@[i], i % 3),
        decreases count - t,
    {
        let e0 = tri_entry_at(case, 3 * t);
        let e1 = tri_entry_at(case, 3 * t + 1);
        let e2 = tri_entry_at(case, 3 * t + 2);
        push_edge_vertex(f, iso, x, y, z, e0, out);
        push_edge_vertex(f, iso, x, y, z, e1, out);
        push_edge_vertex(f, iso, x, y, z, e2, out);
        t = t + 1;
        proof {
            assert(out@ =~= old(out)@ + spec_cell_upto(
                f@,
                iso as int,
                x as int,
                y as int,
                z as int,
                case as int,
                t as int,
            ));
        }
    }
}

/// Walks every cell of the grid in x-major order and returns the flat
/// triangle soup: nine coordinates per triangle, each vertex inside the
/// padded bounding box, and an empty soup for an empty cloud.
#[verifier::rlimit(100)]
pub fn marching_cubes(field: &MeshDistanceField, iso_threshold: i64) -> (triangles: Vec<i64>)
    requires
        field@.wf(),
        0 <= iso_threshold <= DENSITY_ONE,
    ensures
        triangles@ == spec_march(field@, iso_threshold as int),
        triangles@.len() % 9 == 0,
        forall|i: int|
            0 <= i < triangles@.len() ==> in_box(field@, #[trigger] triangles@[i], i % 3),
        field@.positions.len() == 0 ==> triangles@.len() == 0,
{
    let res = field.resolution;
    let iso = iso_threshold;
    let mut out: Vec<i64> = Vec::new();
    let mut x: usize = 0;
    while x < res
        invariant
            x <= res,
            out@ == spec_march_x(field@, iso as int, x as int),
            out@.len() % 9 == 0,
            forall|i: int| 0 <= i < out@.len() ==> in_box(field@, #[trigger] out@[i], i % 3),
        decreases res - x,
    {
        let mut y: usize = 0;
        while y < res
            invariant
                y <= res,
                out@ == spec_march_x(field@, iso as int, x as int) + spec_march_y(
                    field@,
                    iso as int,
                    x as int,
                    y as int,
                ),
                out@.len() % 9 == 0,
                forall|i: int| 0 <= i < out@.len() ==> in_box(field@, #[trigger] out@[i], i % 3),
            decreases res - y,
        {
            let mut z: usize = 0;
            while z < res
                invariant
                    z <= res,
                    out@ == spec_march_x(field@, iso as int, x as int) + spec_march_y(
                        field@,
                        iso as int,
                        x as int,
                        y as int,
                    ) + spec_march_z(field@, iso as int, x as int, y as int, z as int),
                    out@.len() % 9 == 0,
                    forall|i: int| 0 <= i < out@.len() ==> in_box(field@, #[trigger] out@[i], i % 3),
                decreases res - z,
            {
                emit_cell(field, iso, x, y, z, &mut out);
                z = z + 1;
            }
            y = y + 1;
        }
        x = x + 1;
    }
    proof {
        if field@.positions.len() == 0 {
            lemma_empty_cloud_empty_soup(field@, iso as int);
        }
    }
    out
}

/// Each of the first `t` tabulated triangles contributes nine coordinates.
#[verifier::rlimit(100)]
proof fn lemma_cell_upto_len(
    f: FieldModel,
    iso: int,
    x: int,
    y: int,
    z: int,
    case: int,
    t: int,
)
    ensures
        t >= 0 ==> spec_cell_upto(f, iso, x, y, z, case, t).len() == 9 * t,
    decreases t,
{
    reveal(spec_edge_vertex);
    if t > 0 {
        lemma_cell_upto_len(f, iso, x, y, z, case, t - 1);
    }
}

/// With no points sampled, every grid vertex has density zero, so every
/// cell is uniform and contributes nothing.
proof fn lemma_empty_cell(f: FieldModel, iso: int, x: int, y: int, z: int)
    requires
        f.wf(),
        1 <= f.resolution,
        f.positions.len() == 0,
        0 <= iso <= DENSITY_ONE,
    ensures
        spec_cell(f, iso, x, y, z).len() == 0,
{
    reveal(FieldModel::density);
    let span = f.bounds.max_x - f.bounds.min_x;
    let res = f.resolution;
    let s = f.step_x();
    let m = f.radius_multiplier;
    assert(res * s <= span && s >= 0) by {
        vstd::arithmetic::div_mod::lemma_fundamental_div_mod(span, res);
        vstd::arithmetic::div_mod::lemma_mod_bound(span, res);
        vstd::arithmetic::div_mod::lemma_div_pos_is_pos(span, res);
    }
    assert(s <= span) by (nonlinear_arith)
        requires
            1 <= res,
            s >= 0,
            res * s <= span,
    ;
    assert((s * m) * (s * m) < 100_000_000_000_000_000_000_000_000_000_000int)
        by (nonlinear_arith)
        requires
            0 <= s <= 4_000_000_000_000int,
            0 <= m <= 1000int,
    ;
    assert(f.influence_sq() <= FAR_DIST_SQ as int);
    let case = spec_cube_index(f, iso, x, y, z);
    assert(case == 0 || case == 255);
    assert(tri_count(0) == 0);
    assert(tri_count(255) == 0);
}

/// With no points sampled, the whole march emits nothing: the z sweep.
proof fn lemma_empty_march_z(f: FieldModel, iso: int, x: int, y: int, nz: int)
    requires
        f.wf(),
        nz <= f.resolution,
        f.positions.len() == 0,
        0 <= iso <= DENSITY_ONE,
    ensures
        spec_march_z(f, iso, x, y, nz).len() == 0,
    decreases nz,
{
    if nz > 0 {
        lemma_empty_march_z(f, iso, x, y, nz - 1);
        lemma_empty_cell(f, iso, x, y, nz - 1);
    }
}

/// With no points sampled, the whole march emits nothing: the y sweep.
proof fn lemma_empty_march_y(f: FieldModel, iso: int, x: int, ny: int)
    requires
        f.wf(),
        f.positions.len() == 0,
        0 <= iso <= DENSITY_ONE,
    ensures
        spec_march_y(f, iso, x, ny).len() == 0,
    decreases ny,
{
    if ny > 0 {
        lemma_empty_march_y(f, iso, x, ny - 1);
        lemma_empty_march_z(f, iso, x, ny - 1, f.resolution);
    }
}

/// An empty point cloud yields an empty triangle soup, with no division
/// by zero and no out-of-bounds access on the way.
pub proof fn lemma_empty_cloud_empty_soup(f: FieldModel, iso: int)
    requires
        f.wf(),
        f.positions.len() == 0,
        0 <= iso <= DENSITY_ONE,
    ensures
        spec_march(f, iso).len() == 0,
    decreases f.resolution,
{
    lemma_empty_march_x(f, iso, f.resolution);
}

proof fn lemma_empty_march_x(f: FieldModel, iso: int, nx: int)
    requires
        f.wf(),
        f.positions.len() == 0,
        0 <= iso <= DENSITY_ONE,
    ensures
        spec_march_x(f, iso, nx).len() == 0,
    decreases nx,
{
    if nx > 0 {
        lemma_empty_march_x(f, iso, nx - 1);
        lemma_empty_march_y(f, iso, nx - 1, f.resolution);
    }
}

/// Between two positive thresholds at most one, the binary field
/// classifies every corner identically, so the cell configuration is the
/// same.
proof fn lemma_cube_index_same(
    f: FieldModel,
    iso1: int,
    iso2: int,
    x: int,
    y: int,
    z: int,
)
    requires
        f.wf(),
        1 <= iso1 <= DENSITY_ONE,
        1 <= iso2 <= DENSITY_ONE,
    ensures
        spec_cube_index(f, iso1, x, y, z) == spec_cube_index(f, iso2, x, y, z),
{
    reveal(FieldModel::density);
}

/// The two thresholds tabulate the same triangles per cell, so the cell
/// contributes the same number of coordinates.
proof fn lemma_cell_len_same(f: FieldModel, iso1: int, iso2: int, x: int, y: int, z: int)
    requires
        f.wf(),
        1 <= iso1 <= DENSITY_ONE,
        1 <= iso2 <= DENSITY_ONE,
    ensures
        spec_cell(f, iso1, x, y, z).len() == spec_cell(f, iso2, x, y, z).len(),
{
    lemma_cube_index_same(f, iso1, iso2, x, y, z);
    let case = spec_cube_index(f, iso1, x, y, z);
    lemma_tri_count_bounds(case);
    lemma_cell_upto_len(f, iso1, x, y, z, case, tri_count(case));
    lemma_cell_upto_len(f, iso2, x, y, z, case, tri_count(case));
}

proof fn lemma_march_z_len_same(
    f: FieldModel,
    iso1: int,
    iso2: int,
    x: int,
    y: int,
    nz: int,
)
    requires
        f.wf(),
        1 <= iso1 <= DENSITY_ONE,
        1 <= iso2 <= DENSITY_ONE,
    ensures
        spec_march_z(f, iso1, x, y, nz).len() == spec_march_z(f, iso2, x, y, nz).len(),
    decreases nz,
{
    if nz > 0 {
        lemma_march_z_len_same(f, iso1, iso2, x, y, nz - 1);
        lemma_cell_len_same(f, iso1, iso2, x, y, nz - 1);
    }
}

proof fn lemma_march_y_len_same(f: FieldModel, iso1: int, iso2: int, x: int, ny: int)
    requires
        f.wf(),
        1 <= iso1 <= DENSITY_ONE,
        1 <= iso2 <= DENSITY_ONE,
    ensures
        spec_march_y(f, iso1, x, ny).len() == spec_march_y(f, iso2, x, ny).len(),
    decreases ny,
{
    if ny > 0 {
        lemma_march_y_len_same(f, iso1, iso2, x, ny - 1);
        lemma_march_z_len_same(f, iso1, iso2, x, ny - 1, f.resolution);
    }
}

proof fn lemma_march_x_len_same(f: FieldModel, iso1: int, iso2: int, nx: int)
    requires
        f.wf(),
        1 <= iso1 <= DENSITY_ONE,
        1 <= iso2 <= DENSITY_ONE,
    ensures
        spec_march_x(f, iso1, nx).len() == spec_march_x(f, iso2, nx).len(),
    decreases nx,
{
    if nx > 0 {
        lemma_march_x_len_same(f, iso1, iso2, nx - 1);
        lemma_march_y_len_same(f, iso1, iso2, nx - 1, f.resolution);
    }
}

/// Raising the iso-threshold toward one over the binary density field
/// never adds triangles: every corner keeps its classification, so each
/// cell tabulates the same triangles and the soup keeps its length.
pub proof fn lemma_threshold_monotone(f: FieldModel, iso1: int, iso2: int)
    requires
        f.wf(),
        1 <= iso1 <= iso2 <= DENSITY_ONE,
    ensures
        spec_march(f, iso2).len() <= spec_march(f, iso1).len(),
        spec_march(f, iso2).len() == spec_march(f, iso1).len(),
{
    lemma_march_x_len_same(f, iso1, iso2, f.resolution);
}

} // verus!
