use voxel_remesher::tables::edge_corners;
use voxel_remesher::tables::tri_entry_at;

#[test]
fn uniform_configurations_tabulate_no_triangles() {
    assert_eq!(tri_entry_at(0, 0), -1);
    assert_eq!(tri_entry_at(255, 0), -1);
}

#[test]
fn every_row_lists_whole_triangles_of_legal_edges() {
    for case in 0..256 {
        let mut n = 0;
        while n < 16 && tri_entry_at(case, n) != -1 {
            n += 1;
        }
        assert_eq!(n % 3, 0, "row {} ends mid-triangle", case);
        for slot in 0..16 {
            let e = tri_entry_at(case, slot);
            if slot < n {
                assert!((0..12).contains(&e), "row {} slot {} holds {}", case, slot, e);
            } else {
                assert_eq!(e, -1, "row {} continues after its end marker", case);
            }
        }
    }
}

#[test]
fn edges_join_adjacent_corners() {
    // Each of the twelve edges joins two corners of the unit cube that
    // differ in exactly one axis.
    let offsets: [(i64, i64, i64); 8] = [
        (0, 0, 0),
        (1, 0, 0),
        (1, 1, 0),
        (0, 1, 0),
        (0, 0, 1),
        (1, 0, 1),
        (1, 1, 1),
        (0, 1, 1),
    ];
    for e in 0..12 {
        let (a, b) = edge_corners(e);
        assert!(a < 8 && b < 8 && a != b);
        let (ax, ay, az) = offsets[a];
        let (bx, by, bz) = offsets[b];
        let diff = (ax - bx).abs() + (ay - by).abs() + (az - bz).abs();
        assert_eq!(diff, 1, "edge {} joins non-adjacent corners", e);
    }
}
