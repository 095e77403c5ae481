use voxel_remesher::Config;
use voxel_remesher::MeshError;
use voxel_remesher::bounds::BoundingBox;
use voxel_remesher::bounds::get_bounds;
use voxel_remesher::engine::marching_cubes;
use voxel_remesher::field::MeshDistanceField;
use voxel_remesher::get_vertex;
use voxel_remesher::reconstruct;

/// Unit-cube corners in fixed-point coordinates (one world unit = 1_000_000).
fn unit_cube_points() -> Vec<i64> {
    let s: i64 = 1_000_000;
    let corners: [(i64, i64, i64); 8] = [
        (0, 0, 0),
        (s, 0, 0),
        (s, s, 0),
        (0, s, 0),
        (0, 0, s),
        (s, 0, s),
        (s, s, s),
        (0, s, s),
    ];
    let mut v: Vec<i64> = Vec::new();
    for (x, y, z) in corners {
        v.push(x);
        v.push(y);
        v.push(z);
    }
    v
}

fn config(resolution: usize, iso_threshold: i64) -> Config {
    Config {
        resolution,
        iso_threshold,
        padding: 200_000,
        sample_stride: 10,
        influence_radius_multiplier: 3,
    }
}

#[test]
fn bounds_enclose_unit_cube() {
    let pts = unit_cube_points();
    let b = get_bounds(&pts, 200_000).unwrap();
    assert_eq!(b.min_x, -200_000);
    assert_eq!(b.min_y, -200_000);
    assert_eq!(b.min_z, -200_000);
    assert_eq!(b.max_x, 1_200_000);
    assert_eq!(b.max_y, 1_200_000);
    assert_eq!(b.max_z, 1_200_000);
    for p in 0..pts.len() / 3 {
        let (x, y, z) = get_vertex(&pts, p);
        assert!(b.min_x + 200_000 <= x && x <= b.max_x - 200_000);
        assert!(b.min_y + 200_000 <= y && y <= b.max_y - 200_000);
        assert!(b.min_z + 200_000 <= z && z <= b.max_z - 200_000);
    }
    assert!(b.max_x - b.min_x >= 400_000);
    assert!(b.max_y - b.min_y >= 400_000);
    assert!(b.max_z - b.min_z >= 400_000);
}

#[test]
fn bounds_of_single_point_have_positive_span() {
    let pts: Vec<i64> = vec![5_000_000, -2_000_000, 750_000];
    let b = get_bounds(&pts, 200_000).unwrap();
    assert_eq!(b.min_x, 4_800_000);
    assert_eq!(b.max_x, 5_200_000);
    assert_eq!(b.max_x - b.min_x, 400_000);
    assert_eq!(b.max_y - b.min_y, 400_000);
    assert_eq!(b.max_z - b.min_z, 400_000);
}

#[test]
fn bounds_of_empty_cloud_are_refused() {
    let pts: Vec<i64> = Vec::new();
    assert_eq!(get_bounds(&pts, 200_000), Err(MeshError::EmptyInput));
}

#[test]
fn repeated_point_has_full_density_at_its_grid_vertex() {
    // One point at the origin repeated many times; with the reference
    // resolution the grid vertex at the centre coincides with the point,
    // so the minimum distance there is zero and the density is one.
    let mut pts: Vec<i64> = Vec::new();
    for _ in 0..40 {
        pts.push(0);
        pts.push(0);
        pts.push(0);
    }
    let b = get_bounds(&pts, 200_000).unwrap();
    let f = MeshDistanceField::new(pts.clone(), b, 50, 30, 3);
    assert_eq!(f.z(25, 25, 25), 1000);
    let tris = reconstruct(&pts, &config(50, 500)).unwrap();
    assert!(!tris.is_empty());
}

#[test]
fn empty_cloud_marches_to_zero_triangles() {
    let b = BoundingBox {
        min_x: -200_000,
        min_y: -200_000,
        min_z: -200_000,
        max_x: 200_000,
        max_y: 200_000,
        max_z: 200_000,
    };
    let f = MeshDistanceField::new(Vec::new(), b, 8, 30, 3);
    let tris = marching_cubes(&f, 500);
    assert!(tris.is_empty());
}

#[test]
fn empty_cloud_is_refused_by_the_pipeline() {
    let pts: Vec<i64> = Vec::new();
    assert_eq!(reconstruct(&pts, &config(10, 500)), Err(MeshError::EmptyInput));
}

#[test]
fn oversized_resolution_is_refused() {
    let pts = unit_cube_points();
    assert_eq!(
        reconstruct(&pts, &config(100_000, 500)),
        Err(MeshError::InvalidResolution)
    );
}

#[test]
fn zero_resolution_yields_empty_output_without_error() {
    let pts = unit_cube_points();
    let tris = reconstruct(&pts, &config(0, 500)).unwrap();
    assert!(tris.is_empty());
}

#[test]
fn pipeline_is_deterministic() {
    let pts = unit_cube_points();
    let cfg = config(10, 500);
    let a = reconstruct(&pts, &cfg).unwrap();
    let b = reconstruct(&pts, &cfg).unwrap();
    assert_eq!(a, b);
    assert!(!a.is_empty());
}

#[test]
fn raising_the_threshold_never_adds_triangles() {
    let mut pts: Vec<i64> = vec![0, 0, 0];
    pts.extend_from_slice(&[400_000, 0, 0]);
    let low = reconstruct(&pts, &config(10, 500)).unwrap();
    let high = reconstruct(&pts, &config(10, 900)).unwrap();
    assert!(high.len() / 9 <= low.len() / 9);
}

#[test]
fn triangles_of_well_separated_cloud_are_not_degenerate() {
    let pts = unit_cube_points();
    let tris = reconstruct(&pts, &config(10, 500)).unwrap();
    assert_eq!(tris.len() % 9, 0);
    assert!(!tris.is_empty());
    for t in tris.chunks(9) {
        let a = (t[0], t[1], t[2]);
        let b = (t[3], t[4], t[5]);
        let c = (t[6], t[7], t[8]);
        assert_ne!(a, b);
        assert_ne!(b, c);
        assert_ne!(a, c);
    }
}

#[test]
fn unit_cube_surface_stays_inside_the_padded_box() {
    let pts = unit_cube_points();
    let tris = reconstruct(&pts, &config(10, 500)).unwrap();
    assert!(tris.len() / 9 > 0);
    for t in tris.chunks(3) {
        assert!(-200_000 <= t[0] && t[0] <= 1_200_000);
        assert!(-200_000 <= t[1] && t[1] <= 1_200_000);
        assert!(-200_000 <= t[2] && t[2] <= 1_200_000);
    }
}

#[test]
fn single_point_blob_is_small_and_centred() {
    let pts: Vec<i64> = vec![0, 0, 0];
    let tris = reconstruct(&pts, &config(4, 500)).unwrap();
    let count = tris.len() / 9;
    assert!(count > 0);
    assert!(count < 500);
    for &v in tris.iter() {
        assert!(-200_000 <= v && v <= 200_000);
    }
}

#[test]
fn get_vertex_reads_the_flat_buffer() {
    let pts: Vec<i64> = vec![1, 2, 3, 4, 5, 6];
    assert_eq!(get_vertex(&pts, 0), (1, 2, 3));
    assert_eq!(get_vertex(&pts, 1), (4, 5, 6));
}

#[test]
fn dimensions_are_cubic() {
    let b = BoundingBox {
        min_x: 0,
        min_y: 0,
        min_z: 0,
        max_x: 1,
        max_y: 1,
        max_z: 1,
    };
    let f = MeshDistanceField::new(Vec::new(), b, 7, 30, 3);
    assert_eq!(f.dimensions(), [7, 7, 7]);
}

#[test]
fn default_configuration_matches_the_reference() {
    let c = Config::default();
    assert_eq!(c.resolution, 50);
    assert_eq!(c.iso_threshold, 500);
    assert_eq!(c.padding, 200_000);
    assert_eq!(c.sample_stride, 10);
    assert_eq!(c.influence_radius_multiplier, 3);
}
