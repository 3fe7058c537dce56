use cylinder_mesh::builder::build_capped_cylinder;
use cylinder_mesh::mesh::{Face, Mesh, Normal, RingPoint, Vertex};
use cylinder_mesh::serialize::u32_to_decimal;

fn vertex(x: &str, y: &str, z: &str) -> Vertex {
    Vertex { x: x.to_string(), y: y.to_string(), z: z.to_string(), index: 0 }
}

#[test]
fn decimal_rendering_exact_values() {
    assert_eq!(u32_to_decimal(0), "0");
    assert_eq!(u32_to_decimal(7), "7");
    assert_eq!(u32_to_decimal(10), "10");
    assert_eq!(u32_to_decimal(305), "305");
    assert_eq!(u32_to_decimal(4001), "4001");
    assert_eq!(u32_to_decimal(u32::MAX), "4294967295");
}

#[test]
fn serializes_plain_triangle() {
    let mesh = Mesh {
        vertices: vec![
            Vertex { index: 0, ..vertex("0", "0", "0") },
            Vertex { index: 1, ..vertex("1", "0", "0") },
            Vertex { index: 2, ..vertex("0", "1", "0") },
        ],
        normals: Vec::new(),
        faces: vec![Face { a: 0, b: 1, c: 2 }],
    };
    assert_eq!(mesh.to_obj(), "v 0 0 0\nv 1 0 0\nv 0 1 0\nf 1 2 3");
}

#[test]
fn serializes_normals_in_slash_pair_form() {
    let mesh = Mesh {
        vertices: vec![
            Vertex { index: 0, ..vertex("0", "0", "0") },
            Vertex { index: 1, ..vertex("1", "0", "0") },
            Vertex { index: 2, ..vertex("0", "1", "0") },
        ],
        normals: vec![
            Normal { x: "0".to_string(), y: "-1".to_string(), z: "0".to_string() },
            Normal { x: "0".to_string(), y: "-1".to_string(), z: "0".to_string() },
            Normal { x: "0".to_string(), y: "-1".to_string(), z: "0".to_string() },
        ],
        faces: vec![Face { a: 0, b: 1, c: 2 }],
    };
    assert_eq!(
        mesh.to_obj(),
        "v 0 0 0\nv 1 0 0\nv 0 1 0\nvn 0 -1 0\nvn 0 -1 0\nvn 0 -1 0\nf 1//1 2//2 3//3"
    );
}

#[test]
fn serializes_empty_mesh_to_empty_text() {
    let mesh = Mesh { vertices: Vec::new(), normals: Vec::new(), faces: Vec::new() };
    assert_eq!(mesh.to_obj(), "");
}

#[test]
fn full_cylinder_serialization_round_trip() {
    // a triangular "circle" with simple tokens, so the expected text is short
    let pts = vec![
        RingPoint { x: "1".to_string(), z: "0".to_string() },
        RingPoint { x: "-0.5".to_string(), z: "0.87".to_string() },
        RingPoint { x: "-0.5".to_string(), z: "-0.87".to_string() },
    ];
    let mesh = build_capped_cylinder(&pts, "-1", "1").unwrap();
    let text = mesh.to_obj();
    let lines: Vec<&str> = text.split('\n').collect();
    assert_eq!(lines.len(), 12 + 12 + 8);
    assert_eq!(lines[0], "v 1 -1 0");
    assert_eq!(lines[1], "v -0.5 -1 0.87");
    assert_eq!(lines[3], "v 1 1 0");
    assert_eq!(lines[6], "v 1 -1 0");
    assert_eq!(lines[9], "v 1 1 0");
    assert_eq!(lines[12], "vn 0 -1 0");
    assert_eq!(lines[15], "vn 0 1 0");
    assert_eq!(lines[18], "vn 1 0 0");
    assert_eq!(lines[19], "vn -0.5 0 0.87");
    assert_eq!(lines[21], "vn 1 0 0");
    assert_eq!(lines[24], "f 1//1 2//2 3//3");
    assert_eq!(lines[25], "f 4//4 6//6 5//5");
    assert_eq!(lines[26], "f 7//7 8//8 10//10");
    assert_eq!(lines[31], "f 7//7 10//10 12//12");
    assert!(!text.ends_with('\n'));
}
