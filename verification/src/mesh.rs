//! Mesh intake: validation of the loaded position / normal / index arrays,
//! the axis-aligned bounding box, centering of the vertices about the box
//! midpoint, and the bounding-diagonal magnitude.
//!
//! Coordinates are fixed-point: thousandths of a world unit.

use vstd::prelude::*;
use vstd::arithmetic::div_mod::lemma_fundamental_div_mod;
use crate::attributes::Vec3;

verus! {

/// Largest coordinate magnitude a mesh may carry, so that the centering and
/// diagonal arithmetic stays within machine bounds.
pub const COORD_LIMIT: i32 = 500_000_000;

/// One interleaved vertex as it is uploaded to the GPU: a centered position
/// and its normal.
#[derive(Debug, Clone, Copy, PartialEq, Eq, Structural)]
pub struct Vertex {
    pub pos: Vec3,
    pub normal: Vec3,
}

/// The plain arrays a mesh file parses to: flat triples of positions, flat
/// triples of normals with the same vertex count, and a flat triangle index
/// list referring to those vertices.
#[derive(Debug, Clone, PartialEq, Eq)]
pub struct MeshData {
    pub positions: Vec<i32>,
    pub normals: Vec<i32>,
    pub indices: Vec<u32>,
}

/// Why a mesh was rejected.
#[derive(Debug, Clone, Copy, PartialEq, Eq, Structural)]
pub enum MeshError {
    /// The mesh holds no vertices at all.
    Empty,
    /// The position array is not whole triples, or the normal array does not
    /// match it in length.
    MismatchedArrays,
    /// The index list is not whole triangles.
    PartialTriangle,
    /// An index refers past the last vertex.
    IndexOutOfRange,
    /// A coordinate lies outside [-COORD_LIMIT, COORD_LIMIT].
    CoordinateOutOfRange,
}

impl MeshData {
    /// The number of vertices the position array holds.
    pub open spec fn spec_vertex_count(self) -> int {
        self.positions@.len() as int / 3
    }

    /// Every index refers to a vertex that exists.
    pub open spec fn spec_indices_in_range(self) -> bool {
        forall|i: int|
            0 <= i < self.indices@.len() ==> (self.indices@[i] as int) < self.spec_vertex_count()
    }

    /// Every coordinate is within the machine bound.
    pub open spec fn spec_coords_bounded(self) -> bool {
        (forall|i: int|
            0 <= i < self.positions@.len() ==> -COORD_LIMIT <= #[trigger] self.positions@[i] <= COORD_LIMIT)
            && (forall|i: int|
            0 <= i < self.normals@.len() ==> -COORD_LIMIT <= #[trigger] self.normals@[i] <= COORD_LIMIT)
    }

    /// A mesh the model can be built from.
    pub open spec fn spec_valid(self) -> bool {
        &&& self.positions@.len() > 0
        &&& self.positions@.len() % 3 == 0
        &&& self.normals@.len() == self.positions@.len()
        &&& self.indices@.len() % 3 == 0
        &&& self.spec_indices_in_range()
        &&& self.spec_coords_bounded()
    }

    /// The error a mesh is rejected with, checks in order; `None` when it is
    /// accepted.
    pub open spec fn spec_rejection(self) -> Option<MeshError> {
        if self.positions@.len() == 0 {
            Option::Some(MeshError::Empty)
        } else if self.positions@.len() % 3 != 0 || self.normals@.len() != self.positions@.len() {
            Option::Some(MeshError::MismatchedArrays)
        } else if self.indices@.len() % 3 != 0 {
            Option::Some(MeshError::PartialTriangle)
        } else if !self.spec_indices_in_range() {
            Option::Some(MeshError::IndexOutOfRange)
        } else if !self.spec_coords_bounded() {
            Option::Some(MeshError::CoordinateOutOfRange)
        } else {
            Option::None
        }
    }

    /// Check the mesh, reporting the first failure in checking order, and
    /// succeeding exactly on valid meshes.
    pub fn validate(&self) -> (r: Result<(), MeshError>)
        ensures
            r is Ok <==> self.spec_valid(),
            r is Err ==> Option::Some(r->Err_0) == self.spec_rejection(),
    {
        if self.positions.len() == 0 {
            return Err(MeshError::Empty);
        }
        if self.positions.len() % 3 != 0 || self.normals.len() != self.positions.len() {
            return Err(MeshError::MismatchedArrays);
        }
        if self.indices.len() % 3 != 0 {
            return Err(MeshError::PartialTriangle);
        }
        let vertex_count = self.positions.len() / 3;
        let mut i: usize = 0;
        while i < self.indices.len()
            invariant
                0 <= i <= self.indices@.len(),
                vertex_count == self.spec_vertex_count(),
                self.positions@.len() > 0,
                self.positions@.len() % 3 == 0,
                self.normals@.len() == self.positions@.len(),
                self.indices@.len() % 3 == 0,
                forall|k: int| 0 <= k < i ==> (self.indices@[k] as int) < self.spec_vertex_count(),
            decreases self.indices@.len() - i,
        {
            if self.indices[i] as usize >= vertex_count {
                proof {
                    assert(!self.spec_indices_in_range());
                }
                return Err(MeshError::IndexOutOfRange);
            }
            i += 1;
        }
        let mut i: usize = 0;
        while i < self.positions.len()
            invariant
                0 <= i <= self.positions@.len(),
                self.positions@.len() > 0,
                self.positions@.len() % 3 == 0,
                self.normals@.len() == self.positions@.len(),
                self.indices@.len() % 3 == 0,
                self.spec_indices_in_range(),
                forall|k: int| 0 <= k < i ==> -COORD_LIMIT <= #[trigger] self.positions@[k] <= COORD_LIMIT,
            decreases self.positions@.len() - i,
        {
            if self.positions[i] < -COORD_LIMIT || self.positions[i] > COORD_LIMIT {
                proof {
                    assert(!self.spec_coords_bounded());
                }
                return Err(MeshError::CoordinateOutOfRange);
            }
            i += 1;
        }
        let mut i: usize = 0;
        while i < self.normals.len()
            invariant
                0 <= i <= self.normals@.len(),
                self.positions@.len() > 0,
                self.positions@.len() % 3 == 0,
                self.normals@.len() == self.positions@.len(),
                self.indices@.len() % 3 == 0,
                self.spec_indices_in_range(),
                forall|k: int|
                    0 <= k < self.positions@.len() ==> -COORD_LIMIT <= #[trigger] self.positions@[k]
                        <= COORD_LIMIT,
                forall|k: int| 0 <= k < i ==> -COORD_LIMIT <= #[trigger] self.normals@[k] <= COORD_LIMIT,
            decreases self.normals@.len() - i,
        {
            if self.normals[i] < -COORD_LIMIT || self.normals[i] > COORD_LIMIT {
                proof {
                    assert(!self.spec_coords_bounded());
                }
                return Err(MeshError::CoordinateOutOfRange);
            }
            i += 1;
        }
        Ok(())
    }
}

/// The smaller of two integers.
pub open spec fn spec_min2(a: int, b: int) -> int {
    if a <= b {
        a
    } else {
        b
    }
}

/// The larger of two integers.
pub open spec fn spec_max2(a: int, b: int) -> int {
    if a >= b {
        a
    } else {
        b
    }
}

/// Coordinate `axis` of vertex `j` in a flat position array.
pub open spec fn spec_coord(p: Seq<i32>, j: int, axis: int) -> int {
    p[3 * j + axis] as int
}

/// The least coordinate on `axis` among the first `n` vertices.
pub open spec fn spec_axis_min(p: Seq<i32>, axis: int, n: int) -> int
    decreases n,
{
    if n <= 1 {
        spec_coord(p, 0, axis)
    } else {
        spec_min2(spec_axis_min(p, axis, n - 1), spec_coord(p, n - 1, axis))
    }
}

/// The greatest coordinate on `axis` among the first `n` vertices.
pub open spec fn spec_axis_max(p: Seq<i32>, axis: int, n: int) -> int
    decreases n,
{
    if n <= 1 {
        spec_coord(p, 0, axis)
    } else {
        spec_max2(spec_axis_max(p, axis, n - 1), spec_coord(p, n - 1, axis))
    }
}

/// The axis-aligned bounding box over all vertices of a flat position array.
pub fn bounding_box(positions: &Vec<i32>) -> (b: (Vec3, Vec3))
    requires
        positions@.len() > 0,
        positions@.len() % 3 == 0,
        forall|i: int| 0 <= i < positions@.len() ==> -COORD_LIMIT <= #[trigger] positions@[i] <= COORD_LIMIT,
    ensures
        b.0.x == spec_axis_min(positions@, 0, positions@.len() as int / 3),
        b.0.y == spec_axis_min(positions@, 1, positions@.len() as int / 3),
        b.0.z == spec_axis_min(positions@, 2, positions@.len() as int / 3),
        b.1.x == spec_axis_max(positions@, 0, positions@.len() as int / 3),
        b.1.y == spec_axis_max(positions@, 1, positions@.len() as int / 3),
        b.1.z == spec_axis_max(positions@, 2, positions@.len() as int / 3),
{
    let n = positions.len() / 3;
    proof {
        lemma_fundamental_div_mod(positions@.len() as int, 3);
    }
    let mut mn = Vec3 { x: positions[0], y: positions[1], z: positions[2] };
    let mut mx = mn;
    let mut j: usize = 1;
    while j < n
        invariant
            1 <= j <= n,
            n == positions@.len() as int / 3,
            3 * (n as int) == positions@.len(),
            positions@.len() <= usize::MAX,
            positions@.len() % 3 == 0,
            positions@.len() > 0,
            mn.x == spec_axis_min(positions@, 0, j as int),
            mn.y == spec_axis_min(positions@, 1, j as int),
            mn.z == spec_axis_min(positions@, 2, j as int),
            mx.x == spec_axis_max(positions@, 0, j as int),
            mx.y == spec_axis_max(positions@, 1, j as int),
            mx.z == spec_axis_max(positions@, 2, j as int),
        decreases n - j,
    {
        let px = positions[3 * j];
        let py = positions[3 * j + 1];
        let pz = positions[3 * j + 2];
        if px < mn.x {
            mn.x = px;
        }
        if py < mn.y {
            mn.y = py;
        }
        if pz < mn.z {
            mn.z = pz;
        }
        if px > mx.x {
            mx.x = px;
        }
        if py > mx.y {
            mx.y = py;
        }
        if pz > mx.z {
            mx.z = pz;
        }
        j += 1;
    }
    (mn, mx)
}

/// The midpoint of a bounding box along one axis, rounded down.
pub open spec fn spec_center_of(mn: int, mx: int) -> int {
    mn + (mx - mn) / 2
}

/// The bounding-box midpoint: the point the vertices are centered about.
pub fn center_of(mn: &Vec3, mx: &Vec3) -> (c: Vec3)
    requires
        -COORD_LIMIT <= mn.x <= mx.x <= COORD_LIMIT,
        -COORD_LIMIT <= mn.y <= mx.y <= COORD_LIMIT,
        -COORD_LIMIT <= mn.z <= mx.z <= COORD_LIMIT,
    ensures
        c.x == spec_center_of(mn.x as int, mx.x as int),
        c.y == spec_center_of(mn.y as int, mx.y as int),
        c.z == spec_center_of(mn.z as int, mx.z as int),
    {
    Vec3 {
        x: mn.x + (mx.x - mn.x) / 2,
        y: mn.y + (mx.y - mn.y) / 2,
        z: mn.z + (mx.z - mn.z) / 2,
    }
}

/// Interleave positions and normals into vertices, shifting every position by
/// `-center` so the model geometry is centered about the origin.
pub fn centered_vertices(positions: &Vec<i32>, normals: &Vec<i32>, center: &Vec3) -> (vs: Vec<
    Vertex,
>)
    requires
        positions@.len() % 3 == 0,
        normals@.len() == positions@.len(),
        forall|i: int| 0 <= i < positions@.len() ==> -COORD_LIMIT <= #[trigger] positions@[i] <= COORD_LIMIT,
        -COORD_LIMIT <= center.x <= COORD_LIMIT,
        -COORD_LIMIT <= center.y <= COORD_LIMIT,
        -COORD_LIMIT <= center.z <= COORD_LIMIT,
    ensures
        vs@.len() == positions@.len() as int / 3,
        forall|j: int|
            #![trigger vs@[j]]
            0 <= j < vs@.len() ==> {
                &&& vs@[j].pos.x == spec_coord(positions@, j, 0) - center.x
                &&& vs@[j].pos.y == spec_coord(positions@, j, 1) - center.y
                &&& vs@[j].pos.z == spec_coord(positions@, j, 2) - center.z
                &&& vs@[j].normal.x == spec_coord(normals@, j, 0)
                &&& vs@[j].normal.y == spec_coord(normals@, j, 1)
                &&& vs@[j].normal.z == spec_coord(normals@, j, 2)
            },
{
    let n = positions.len() / 3;
    proof {
        lemma_fundamental_div_mod(positions@.len() as int, 3);
    }
    let mut vs: Vec<Vertex> = Vec::new();
    let mut j: usize = 0;
    while j < n
        invariant
            0 <= j <= n,
            n == positions@.len() as int / 3,
            3 * (n as int) == positions@.len(),
            positions@.len() <= usize::MAX,
            positions@.len() % 3 == 0,
            normals@.len() == positions@.len(),
            forall|i: int|
                0 <= i < positions@.len() ==> -COORD_LIMIT <= #[trigger] positions@[i] <= COORD_LIMIT,
            -COORD_LIMIT <= center.x <= COORD_LIMIT,
            -COORD_LIMIT <= center.y <= COORD_LIMIT,
            -COORD_LIMIT <= center.z <= COORD_LIMIT,
            vs@.len() == j,
            forall|k: int|
                #![trigger vs@[k]]
                0 <= k < j ==> {
                    &&& vs@[k].pos.x == spec_coord(positions@, k, 0) - center.x
                    &&& vs@[k].pos.y == spec_coord(positions@, k, 1) - center.y
                    &&& vs@[k].pos.z == spec_coord(positions@, k, 2) - center.z
                    &&& vs@[k].normal.x == spec_coord(normals@, k, 0)
                    &&& vs@[k].normal.y == spec_coord(normals@, k, 1)
                    &&& vs@[k].normal.z == spec_coord(normals@, k, 2)
                },
        decreases n - j,
    {
        let v = Vertex {
            pos: Vec3 {
                x: positions[3 * j] - center.x,
                y: positions[3 * j + 1] - center.y,
                z: positions[3 * j + 2] - center.z,
            },
            normal: Vec3 {
                x: normals[3 * j],
                y: normals[3 * j + 1],
                z: normals[3 * j + 2],
            },
        };
        let ghost prev = vs@;
        vs.push(v);
        proof {
            assert(vs@[j as int] == v);
            assert(forall|k: int| 0 <= k < j ==> vs@[k] == prev[k]);
            assert(vs@[j as int].pos.x == spec_coord(positions@, j as int, 0) - center.x);
            assert(vs@[j as int].pos.y == spec_coord(positions@, j as int, 1) - center.y);
            assert(vs@[j as int].pos.z == spec_coord(positions@, j as int, 2) - center.z);
            assert(vs@[j as int].normal.x == spec_coord(normals@, j as int, 0));
            assert(vs@[j as int].normal.y == spec_coord(normals@, j as int, 1));
            assert(vs@[j as int].normal.z == spec_coord(normals@, j as int, 2));
        }
        j += 1;
    }
    vs
}

/// Coordinate `axis` of a vertex's centered position.
pub open spec fn spec_vertex_coord(v: Vertex, axis: int) -> int {
    if axis == 0 {
        v.pos.x as int
    } else if axis == 1 {
        v.pos.y as int
    } else {
        v.pos.z as int
    }
}

/// The least centered coordinate on `axis` among the first `n` vertices.
pub open spec fn spec_vertex_axis_min(vs: Seq<Vertex>, axis: int, n: int) -> int
    decreases n,
{
    if n <= 1 {
        spec_vertex_coord(vs[0], axis)
    } else {
        spec_min2(spec_vertex_axis_min(vs, axis, n - 1), spec_vertex_coord(vs[n - 1], axis))
    }
}

/// The greatest centered coordinate on `axis` among the first `n` vertices.
pub open spec fn spec_vertex_axis_max(vs: Seq<Vertex>, axis: int, n: int) -> int
    decreases n,
{
    if n <= 1 {
        spec_vertex_coord(vs[0], axis)
    } else {
        spec_max2(spec_vertex_axis_max(vs, axis, n - 1), spec_vertex_coord(vs[n - 1], axis))
    }
}

/// Shifting every coordinate by `-c` shifts the minimum and maximum by `-c`.
proof fn lemma_shifted_extremes(p: Seq<i32>, vs: Seq<Vertex>, c: int, axis: int, n: int)
    requires
        1 <= n,
        n <= vs.len(),
        forall|j: int| 0 <= j < n ==> spec_vertex_coord(vs[j], axis) == spec_coord(p, j, axis) - c,
    ensures
        spec_vertex_axis_min(vs, axis, n) == spec_axis_min(p, axis, n) - c,
        spec_vertex_axis_max(vs, axis, n) == spec_axis_max(p, axis, n) - c,
    decreases n,
{
    if n > 1 {
        lemma_shifted_extremes(p, vs, c, axis, n - 1);
    }
}

/// Mesh-centering law: centering about the bounding-box midpoint gives a
/// bounding box with `min == -max` on each axis whose extent is even, and
/// `min == -(max - 1)` on each axis whose extent is odd — the box is
/// symmetric about the origin up to the one-thousandth rounding step,
/// regardless of the source mesh's original coordinate offset.
pub proof fn lemma_centering_symmetric(p: Seq<i32>, vs: Seq<Vertex>, axis: int, n: int)
    requires
        1 <= n,
        n <= vs.len(),
        forall|j: int|
            0 <= j < n ==> spec_vertex_coord(vs[j], axis) == spec_coord(p, j, axis)
                - spec_center_of(spec_axis_min(p, axis, n), spec_axis_max(p, axis, n)),
    ensures
        ({
            let d = spec_axis_max(p, axis, n) - spec_axis_min(p, axis, n);
            &&& spec_vertex_axis_min(vs, axis, n) == -(d / 2)
            &&& spec_vertex_axis_max(vs, axis, n) == d - d / 2
            &&& spec_vertex_axis_min(vs, axis, n) + spec_vertex_axis_max(vs, axis, n) == d % 2
            &&& (d % 2 == 0 ==> spec_vertex_axis_min(vs, axis, n) == -spec_vertex_axis_max(
                vs,
                axis,
                n,
            ))
        }),
{
    let mn = spec_axis_min(p, axis, n);
    let mx = spec_axis_max(p, axis, n);
    let c = spec_center_of(mn, mx);
    lemma_axis_min_le_max(p, axis, n);
    lemma_shifted_extremes(p, vs, c, axis, n);
    let d = mx - mn;
    lemma_fundamental_div_mod(d, 2);
}

/// The axis minimum never exceeds the axis maximum.
proof fn lemma_axis_min_le_max(p: Seq<i32>, axis: int, n: int)
    requires
        1 <= n,
    ensures
        spec_axis_min(p, axis, n) <= spec_axis_max(p, axis, n),
    decreases n,
{
    if n > 1 {
        lemma_axis_min_le_max(p, axis, n - 1);
    }
}

/// The axis extremes of a coordinate-bounded array are ordered and bounded.
pub proof fn lemma_axis_extremes_bounded(p: Seq<i32>, axis: int, n: int)
    requires
        1 <= n,
        0 <= axis < 3,
        3 * n <= p.len(),
        forall|i: int| 0 <= i < p.len() ==> -COORD_LIMIT <= #[trigger] p[i] <= COORD_LIMIT,
    ensures
        -COORD_LIMIT <= spec_axis_min(p, axis, n),
        spec_axis_min(p, axis, n) <= spec_axis_max(p, axis, n),
        spec_axis_max(p, axis, n) <= COORD_LIMIT,
    decreases n,
{
    if n > 1 {
        lemma_axis_extremes_bounded(p, axis, n - 1);
    }
}

/// The bounding-box midpoint of a flat position array along one axis.
pub open spec fn spec_center_axis(p: Seq<i32>, axis: int) -> int {
    spec_center_of(
        spec_axis_min(p, axis, p.len() as int / 3),
        spec_axis_max(p, axis, p.len() as int / 3),
    )
}

/// The vertices `vs` are exactly the mesh's positions centered about its
/// bounding-box midpoint, interleaved with its normals.
pub open spec fn spec_centered_vertices_of(
    vs: Seq<Vertex>,
    positions: Seq<i32>,
    normals: Seq<i32>,
) -> bool {
    &&& vs.len() == positions.len() as int / 3
    &&& forall|j: int|
        #![trigger vs[j]]
        0 <= j < vs.len() ==> {
            &&& vs[j].pos.x == spec_coord(positions, j, 0) - spec_center_axis(positions, 0)
            &&& vs[j].pos.y == spec_coord(positions, j, 1) - spec_center_axis(positions, 1)
            &&& vs[j].pos.z == spec_coord(positions, j, 2) - spec_center_axis(positions, 2)
            &&& vs[j].normal.x == spec_coord(normals, j, 0)
            &&& vs[j].normal.y == spec_coord(normals, j, 1)
            &&& vs[j].normal.z == spec_coord(normals, j, 2)
        }
}

/// The integer square root: the greatest `r` with `r * r <= n`.
fn isqrt(n: u64) -> (r: u64)
    requires
        n < 4_611_686_018_427_387_904,
    ensures
        r * r <= n,
        n < (r + 1) * (r + 1),
{
    if n == 0 {
        return 0;
    }
    let mut lo: u64 = 0;
    let mut hi: u64 = 2_147_483_648;
    proof {
        assert((2_147_483_648 as int) * (2_147_483_648 as int) == 4_611_686_018_427_387_904) by (nonlinear_arith);
    }
    while lo + 1 < hi
        invariant
            lo < hi <= 2_147_483_648,
            lo * lo <= n,
            n < hi * hi,
        decreases hi - lo,
    {
        let mid = lo + (hi - lo) / 2;
        proof {
            assert((mid as int) * (mid as int) < 4_611_686_018_427_387_904) by (nonlinear_arith)
                requires
                    0 <= (mid as int) && (mid as int) < 2_147_483_648,
            ;
        }
        if mid * mid <= n {
            lo = mid;
        } else {
            hi = mid;
        }
    }
    lo
}

/// The magnitude of the bounding-box diagonal, rounded down: the model size
/// fed to distance shading.
pub fn diagonal_len(size: &Vec3) -> (r: i32)
    requires
        0 <= size.x <= 2 * COORD_LIMIT,
        0 <= size.y <= 2 * COORD_LIMIT,
        0 <= size.z <= 2 * COORD_LIMIT,
    ensures
        (r as int) * (r as int) <= (size.x as int) * (size.x as int) + (size.y as int) * (
        size.y as int) + (size.z as int) * (size.z as int),
        (size.x as int) * (size.x as int) + (size.y as int) * (size.y as int) + (size.z as int) * (
        size.z as int) < (r as int + 1) * (r as int + 1),
        0 <= r <= 1_800_000_000,
{
    let sx = size.x as u64;
    let sy = size.y as u64;
    let sz = size.z as u64;
    proof {
        assert((size.x as int) * (size.x as int) <= 1_000_000_000_000_000_000
            && (size.y as int) * (size.y as int) <= 1_000_000_000_000_000_000
            && (size.z as int) * (size.z as int) <= 1_000_000_000_000_000_000) by (nonlinear_arith)
            requires
                0 <= size.x as int <= 1_000_000_000,
                0 <= size.y as int <= 1_000_000_000,
                0 <= size.z as int <= 1_000_000_000,
        ;
    }
    let sum = sx * sx + sy * sy + sz * sz;
    let r = isqrt(sum);
    proof {
        assert((1_800_000_000 as int + 1) * (1_800_000_000 as int + 1)
            > 3_000_000_000_000_000_000) by (nonlinear_arith);
        assert(r as int <= 1_800_000_000) by {
            if r as int > 1_800_000_000 {
                assert((r as int) * (r as int) >= (1_800_000_001 as int) * (
                1_800_000_001 as int)) by (nonlinear_arith)
                    requires
                        r as int >= 1_800_000_001,
                ;
            }
        }
    }
    r as i32
}

} // verus!
