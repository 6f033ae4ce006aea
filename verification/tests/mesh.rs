use ivrigst::attributes::Vec3;
use ivrigst::mesh::{MeshData, MeshError, bounding_box, center_of, centered_vertices,
    diagonal_len};

fn flat(points: &[(i32, i32, i32)]) -> Vec<i32> {
    let mut v = Vec::new();
    for &(x, y, z) in points {
        v.push(x);
        v.push(y);
        v.push(z);
    }
    v
}

#[test]
fn centering_example() {
    // A mesh with bounding box (0,0,0)..(2,4,6) units must center to
    // (-1,-2,-3)..(1,2,3), regardless of the original offset.
    let positions = flat(&[(0, 0, 0), (2000, 4000, 6000), (1000, 1000, 1000)]);
    let normals = flat(&[(0, 0, 1000), (0, 0, 1000), (0, 0, 1000)]);
    let (mn, mx) = bounding_box(&positions);
    assert_eq!(mn, Vec3 { x: 0, y: 0, z: 0 });
    assert_eq!(mx, Vec3 { x: 2000, y: 4000, z: 6000 });
    let c = center_of(&mn, &mx);
    assert_eq!(c, Vec3 { x: 1000, y: 2000, z: 3000 });
    let vs = centered_vertices(&positions, &normals, &c);
    assert_eq!(vs.len(), 3);
    assert_eq!(vs[0].pos, Vec3 { x: -1000, y: -2000, z: -3000 });
    assert_eq!(vs[1].pos, Vec3 { x: 1000, y: 2000, z: 3000 });
    assert_eq!(vs[2].pos, Vec3 { x: 0, y: -1000, z: -2000 });
    assert_eq!(vs[0].normal, Vec3 { x: 0, y: 0, z: 1000 });
}

#[test]
fn centering_offset_invariance() {
    let base = [(100, 200, 300), (900, 400, 800), (500, 300, 400)];
    let shifted: Vec<(i32, i32, i32)> = base
        .iter()
        .map(|&(x, y, z)| (x + 77_000, y - 12_345, z + 1))
        .collect();
    let normals = flat(&[(0, 1000, 0), (0, 1000, 0), (0, 1000, 0)]);

    let p1 = flat(&base);
    let (mn1, mx1) = bounding_box(&p1);
    let c1 = center_of(&mn1, &mx1);
    let v1 = centered_vertices(&p1, &normals, &c1);

    let p2 = flat(&shifted);
    let (mn2, mx2) = bounding_box(&p2);
    let c2 = center_of(&mn2, &mx2);
    let v2 = centered_vertices(&p2, &normals, &c2);

    assert_eq!(v1, v2);
}

#[test]
fn validate_accepts_good_mesh() {
    let m = MeshData {
        positions: flat(&[(0, 0, 0), (1000, 0, 0), (0, 1000, 0)]),
        normals: flat(&[(0, 0, 1000), (0, 0, 1000), (0, 0, 1000)]),
        indices: vec![0, 1, 2],
    };
    assert!(m.validate().is_ok());
}

#[test]
fn validate_rejects_empty() {
    let m = MeshData { positions: vec![], normals: vec![], indices: vec![] };
    assert_eq!(m.validate(), Err(MeshError::Empty));
}

#[test]
fn validate_rejects_mismatched_arrays() {
    let m = MeshData {
        positions: flat(&[(0, 0, 0), (1000, 0, 0), (0, 1000, 0)]),
        normals: flat(&[(0, 0, 1000)]),
        indices: vec![0, 1, 2],
    };
    assert_eq!(m.validate(), Err(MeshError::MismatchedArrays));
    let m = MeshData { positions: vec![1, 2], normals: vec![1, 2], indices: vec![] };
    assert_eq!(m.validate(), Err(MeshError::MismatchedArrays));
}

#[test]
fn validate_rejects_partial_triangle() {
    let m = MeshData {
        positions: flat(&[(0, 0, 0), (1000, 0, 0), (0, 1000, 0)]),
        normals: flat(&[(0, 0, 1000), (0, 0, 1000), (0, 0, 1000)]),
        indices: vec![0, 1],
    };
    assert_eq!(m.validate(), Err(MeshError::PartialTriangle));
}

#[test]
fn validate_rejects_index_out_of_range() {
    let m = MeshData {
        positions: flat(&[(0, 0, 0), (1000, 0, 0), (0, 1000, 0)]),
        normals: flat(&[(0, 0, 1000), (0, 0, 1000), (0, 0, 1000)]),
        indices: vec![0, 1, 3],
    };
    assert_eq!(m.validate(), Err(MeshError::IndexOutOfRange));
}

#[test]
fn validate_rejects_coordinate_out_of_range() {
    let m = MeshData {
        positions: flat(&[(0, 0, 0), (600_000_000, 0, 0), (0, 1000, 0)]),
        normals: flat(&[(0, 0, 1000), (0, 0, 1000), (0, 0, 1000)]),
        indices: vec![0, 1, 2],
    };
    assert_eq!(m.validate(), Err(MeshError::CoordinateOutOfRange));
}

#[test]
fn diagonal_exact() {
    // A 3-4-0 box has a diagonal of exactly 5 units.
    let r = diagonal_len(&Vec3 { x: 3000, y: 4000, z: 0 });
    assert_eq!(r, 5000);
    // The unit cube's diagonal is the square root of three, rounded down.
    let r = diagonal_len(&Vec3 { x: 1000, y: 1000, z: 1000 });
    assert_eq!(r, 1732);
    let r = diagonal_len(&Vec3 { x: 0, y: 0, z: 0 });
    assert_eq!(r, 0);
}
