//! A fixed demonstration triangle with per-vertex colors: the simplest
//! renderable object, kept for smoke-testing a fresh GPU context.

use vstd::prelude::*;
use crate::attributes::Vec3;
use crate::model::ProgramHandle;

verus! {

/// One vertex of the triangle: a clip-space position and a color, in
/// thousandths.
#[derive(Debug, Clone, Copy, PartialEq, Eq, Structural)]
pub struct ColorVertex {
    pub pos: Vec3,
    pub clr: Vec3,
}

/// The triangle's draw: its program and the number of vertices drawn.
#[derive(Debug, Clone, Copy, PartialEq, Eq, Structural)]
pub struct TriangleDraw {
    pub program: ProgramHandle,
    pub draw_count: usize,
}

/// The triangle's vertex data: red bottom right, green bottom left, blue
/// top.
pub open spec fn spec_triangle_vertices() -> Seq<ColorVertex> {
    seq![
        ColorVertex {
            pos: Vec3 { x: 500, y: -500i32, z: 0 },
            clr: Vec3 { x: 1000, y: 0, z: 0 },
        },
        ColorVertex {
            pos: Vec3 { x: -500i32, y: -500i32, z: 0 },
            clr: Vec3 { x: 0, y: 1000, z: 0 },
        },
        ColorVertex { pos: Vec3 { x: 0, y: 500, z: 0 }, clr: Vec3 { x: 0, y: 0, z: 1000 } },
    ]
}

/// The demonstration triangle.
pub struct Triangle {
    pub program: ProgramHandle,
    pub vertices: Vec<ColorVertex>,
}

impl Triangle {
    /// Set up the triangle's vertex data, drawn with the given program.
    pub fn new(program: ProgramHandle) -> (t: Triangle)
        ensures
            t.program == program,
            t.vertices@ == spec_triangle_vertices(),
    {
        let mut vertices: Vec<ColorVertex> = Vec::new();
        vertices.push(
            ColorVertex { pos: Vec3 { x: 500, y: -500, z: 0 }, clr: Vec3 { x: 1000, y: 0, z: 0 } },
        );
        vertices.push(
            ColorVertex { pos: Vec3 { x: -500, y: -500, z: 0 }, clr: Vec3 { x: 0, y: 1000, z: 0 } },
        );
        vertices.push(
            ColorVertex { pos: Vec3 { x: 0, y: 500, z: 0 }, clr: Vec3 { x: 0, y: 0, z: 1000 } },
        );
        proof {
            assert(vertices@ =~= spec_triangle_vertices());
        }
        Triangle { program, vertices }
    }

    /// Plan the triangle's draw: its three vertices under its program.
    pub fn render(&self) -> (d: TriangleDraw)
        ensures
            d == (TriangleDraw { program: self.program, draw_count: self.vertices@.len() as usize }),
    {
        TriangleDraw { program: self.program, draw_count: self.vertices.len() }
    }
}

} // verus!
