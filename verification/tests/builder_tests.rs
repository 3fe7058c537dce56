use cylinder_mesh::builder::{
    assign_indices, build_capped_cylinder, build_ring, cap_triangles, flat_normals,
    radial_normals, side_wall_triangles, validate_precision, MIN_PRECISION,
};
use cylinder_mesh::mesh::{Face, RingPoint};

fn circle_points(n: u32, radius: f32) -> Vec<(f32, f32)> {
    let step = 2.0 * std::f32::consts::PI / n as f32;
    (0..n)
        .map(|i| {
            let angle = step * i as f32;
            (radius * angle.cos(), radius * angle.sin())
        })
        .collect()
}

fn tokens(points: &[(f32, f32)]) -> Vec<RingPoint> {
    points
        .iter()
        .map(|(x, z)| RingPoint { x: format!("{}", x), z: format!("{}", z) })
        .collect()
}

#[test]
fn invalid_precision_two_rejected() {
    let r = validate_precision(2);
    assert!(r.is_err());
    assert_eq!(r.unwrap_err().given, 2);
}

#[test]
fn invalid_precision_zero_rejected() {
    let r = validate_precision(0);
    assert!(r.is_err());
    assert_eq!(r.unwrap_err().given, 0);
}

#[test]
fn minimal_precision_accepted() {
    assert_eq!(MIN_PRECISION, 3);
    assert!(validate_precision(3).is_ok());
    assert!(validate_precision(1000).is_ok());
}

#[test]
fn builder_rejects_short_rings_before_generating() {
    let two = tokens(&[(1.0, 0.0), (-1.0, 0.0)]);
    let r = build_capped_cylinder(&two, "0", "1");
    assert!(r.is_err());
    assert_eq!(r.unwrap_err().given, 2);
    let none: Vec<RingPoint> = Vec::new();
    let r0 = build_capped_cylinder(&none, "0", "1");
    assert!(r0.is_err());
    assert_eq!(r0.unwrap_err().given, 0);
}

#[test]
fn ring_has_n_vertices_on_the_circle() {
    for n in [3u32, 4, 7, 16, 100] {
        let floats = circle_points(n, 1.0);
        assert_eq!(floats.len(), n as usize);
        for (x, z) in &floats {
            assert!((x * x + z * z - 1.0).abs() < 1e-5);
        }
        let ring = build_ring(&tokens(&floats), "0");
        assert_eq!(ring.len(), n as usize);
        for (i, v) in ring.iter().enumerate() {
            assert_eq!(v.x, format!("{}", floats[i].0));
            assert_eq!(v.y, "0");
            assert_eq!(v.z, format!("{}", floats[i].1));
        }
    }
}

#[test]
fn cap_fan_counts() {
    for n in [3u32, 4, 5, 12] {
        assert_eq!(cap_triangles(0, n, false).len(), (n - 2) as usize);
        assert_eq!(cap_triangles(n, n, true).len(), (n - 2) as usize);
    }
}

#[test]
fn cap_fan_of_three_is_one_triangle() {
    let fan = cap_triangles(0, 3, false);
    assert_eq!(fan.len(), 1);
    assert_eq!(fan[0], Face { a: 0, b: 1, c: 2 });
}

#[test]
fn cap_fan_flip_reverses_winding() {
    let top = cap_triangles(4, 4, true);
    assert_eq!(top, vec![Face { a: 4, b: 6, c: 5 }, Face { a: 4, b: 7, c: 6 }]);
}

#[test]
fn round_trip_square_ring() {
    let floats = circle_points(4, 1.0);
    let expected = [(1.0f32, 0.0f32), (0.0, 1.0), (-1.0, 0.0), (0.0, -1.0)];
    for (got, want) in floats.iter().zip(expected.iter()) {
        assert!((got.0 - want.0).abs() < 1e-6);
        assert!((got.1 - want.1).abs() < 1e-6);
    }
    let ring = build_ring(&tokens(&floats), "0");
    assert_eq!(ring.len(), 4);
    let fan = cap_triangles(0, 4, false);
    assert_eq!(fan, vec![Face { a: 0, b: 1, c: 2 }, Face { a: 0, b: 2, c: 3 }]);
}

#[test]
fn side_wall_emits_two_triangles_per_segment() {
    for n in [3u32, 4, 10] {
        let side = side_wall_triangles(2 * n, 3 * n, n);
        assert_eq!(side.len(), 2 * n as usize);
        for f in &side {
            assert!(f.a < 4 * n);
            assert!(f.b < 4 * n);
            assert!(f.c < 4 * n);
        }
    }
}

#[test]
fn side_wall_seam_closes_the_ring() {
    let side = side_wall_triangles(6, 9, 3);
    // main loop: segments 0 and 1 over side rings at indices 6..9 and 9..12
    assert_eq!(side[0], Face { a: 6, b: 7, c: 9 });
    assert_eq!(side[1], Face { a: 7, b: 10, c: 9 });
    assert_eq!(side[2], Face { a: 7, b: 8, c: 10 });
    assert_eq!(side[3], Face { a: 8, b: 11, c: 10 });
    // seam: last segment wraps back to ring position 0
    assert_eq!(side[4], Face { a: 8, b: 6, c: 11 });
    assert_eq!(side[5], Face { a: 6, b: 9, c: 11 });
}

#[test]
fn index_assignment_follows_insertion_order() {
    let floats = circle_points(3, 1.0);
    let mut vs = build_ring(&tokens(&floats), "-1");
    let mut top = build_ring(&tokens(&floats), "1");
    vs.append(&mut top);
    assign_indices(&mut vs);
    for (i, v) in vs.iter().enumerate() {
        assert_eq!(v.index, i as u32);
    }
    // reordering the concatenation still indexes by position
    let mut vs2 = build_ring(&tokens(&floats), "1");
    let mut bottom = build_ring(&tokens(&floats), "-1");
    vs2.append(&mut bottom);
    assign_indices(&mut vs2);
    for (i, v) in vs2.iter().enumerate() {
        assert_eq!(v.index, i as u32);
    }
    assert_eq!(vs[0].y, "-1");
    assert_eq!(vs2[0].y, "1");
}

#[test]
fn index_assignment_is_idempotent() {
    let floats = circle_points(5, 1.0);
    let mut vs = build_ring(&tokens(&floats), "0");
    assign_indices(&mut vs);
    let first: Vec<(String, String, String, u32)> =
        vs.iter().map(|v| (v.x.clone(), v.y.clone(), v.z.clone(), v.index)).collect();
    assign_indices(&mut vs);
    let second: Vec<(String, String, String, u32)> =
        vs.iter().map(|v| (v.x.clone(), v.y.clone(), v.z.clone(), v.index)).collect();
    assert_eq!(first, second);
}

#[test]
fn normal_batches_match_their_rings() {
    let floats = circle_points(4, 1.0);
    let pts = tokens(&floats);
    let down = flat_normals(4, "-1");
    assert_eq!(down.len(), 4);
    for nm in &down {
        assert_eq!(nm.x, "0");
        assert_eq!(nm.y, "-1");
        assert_eq!(nm.z, "0");
    }
    let radial = radial_normals(&pts);
    assert_eq!(radial.len(), 4);
    for (i, nm) in radial.iter().enumerate() {
        assert_eq!(nm.x, pts[i].x);
        assert_eq!(nm.y, "0");
        assert_eq!(nm.z, pts[i].z);
    }
}

#[test]
fn capped_cylinder_vertex_normal_parity() {
    for n in [3u32, 4, 9, 32] {
        let pts = tokens(&circle_points(n, 1.0));
        let mesh = build_capped_cylinder(&pts, "-1", "1").unwrap();
        assert_eq!(mesh.vertices.len(), 4 * n as usize);
        assert_eq!(mesh.normals.len(), mesh.vertices.len());
        assert_eq!(mesh.faces.len(), 4 * n as usize - 4);
    }
}

#[test]
fn capped_cylinder_structure_for_three_segments() {
    let pts = tokens(&circle_points(3, 1.0));
    let mesh = build_capped_cylinder(&pts, "-1", "1").unwrap();
    assert_eq!(mesh.vertices.len(), 12);
    for (i, v) in mesh.vertices.iter().enumerate() {
        assert_eq!(v.index, i as u32);
    }
    // batches: bottom cap, top cap, side bottom, side top
    assert_eq!(mesh.vertices[0].y, "-1");
    assert_eq!(mesh.vertices[3].y, "1");
    assert_eq!(mesh.vertices[6].y, "-1");
    assert_eq!(mesh.vertices[9].y, "1");
    assert_eq!(mesh.vertices[7].x, mesh.vertices[1].x);
    // normals: flat down, flat up, then radial twice
    assert_eq!(mesh.normals[0].y, "-1");
    assert_eq!(mesh.normals[3].y, "1");
    assert_eq!(mesh.normals[6].y, "0");
    assert_eq!(mesh.normals[6].x, pts[0].x);
    assert_eq!(mesh.normals[9].x, pts[0].x);
    // faces: bottom fan, top fan reversed, then the side wall
    assert_eq!(mesh.faces[0], Face { a: 0, b: 1, c: 2 });
    assert_eq!(mesh.faces[1], Face { a: 3, b: 5, c: 4 });
    assert_eq!(mesh.faces[2], Face { a: 6, b: 7, c: 9 });
    assert_eq!(mesh.faces[7], Face { a: 6, b: 9, c: 11 });
    for f in &mesh.faces {
        assert!(f.a < 12 && f.b < 12 && f.c < 12);
    }
}
