//! The debug-overlay pass: renders two textures to quads in the lower-right
//! corner of the viewport, to inspect the intermediate render targets of the
//! shadow and hatching passes.

use vstd::prelude::*;
use crate::attributes::Vec2;
use crate::model::ProgramHandle;
use crate::resources::str_eq;
use crate::viewport::Viewport;

verus! {

/// One vertex of the overlay quads: a clip-space position and a texture
/// coordinate, in thousandths.
#[derive(Debug, Clone, Copy, PartialEq, Eq, Structural)]
pub struct TexVertex {
    pub pos: Vec2,
    pub uv: Vec2,
}

/// One textured overlay draw: which of the two handed-in textures it
/// samples, under which pipeline state.
#[derive(Debug, Clone, Copy, PartialEq, Eq, Structural)]
pub struct TexDraw {
    pub program: ProgramHandle,
    pub viewport: Viewport,
    /// Which texture argument the draw samples: the first or the second.
    pub texture_index: u32,
    pub cull: bool,
    pub blend: bool,
    pub depth_test: bool,
    pub draw_count: usize,
}

/// The overlay frame: the two textured draws, in order.
#[derive(Debug, Clone, Copy, PartialEq, Eq, Structural)]
pub struct TexturePlan {
    pub first: TexDraw,
    pub second: TexDraw,
}

/// The logical name of the overlay shader, which hot reload matches file
/// stems against.
pub open spec fn spec_tester_shader_name() -> Seq<char> {
    "texture_tester"@
}

/// Renders textures to corners of the viewport. This is used to debug
/// intermediate render passes for shadows and hatching.
pub struct TextureTester {
    pub program: ProgramHandle,
    /// The lower quad's vertices.
    pub vertices1: Vec<TexVertex>,
    /// The upper quad's vertices.
    pub vertices2: Vec<TexVertex>,
    /// The shared quad index list: two triangles.
    pub indices: Vec<u32>,
}

/// The quad vertex data of the overlay, at the specification level: each
/// quad spans the right edge, one below the other.
pub open spec fn spec_quad1() -> Seq<TexVertex> {
    seq![
        TexVertex { pos: Vec2 { x: 500, y: -1000i32 }, uv: Vec2 { x: 0, y: 0 } },
        TexVertex { pos: Vec2 { x: 1000, y: -1000i32 }, uv: Vec2 { x: 1000, y: 0 } },
        TexVertex { pos: Vec2 { x: 500, y: -510i32 }, uv: Vec2 { x: 0, y: 1000 } },
        TexVertex { pos: Vec2 { x: 1000, y: -510i32 }, uv: Vec2 { x: 1000, y: 1000 } },
    ]
}

/// See [spec_quad1].
pub open spec fn spec_quad2() -> Seq<TexVertex> {
    seq![
        TexVertex { pos: Vec2 { x: 500, y: -490i32 }, uv: Vec2 { x: 0, y: 0 } },
        TexVertex { pos: Vec2 { x: 1000, y: -490i32 }, uv: Vec2 { x: 1000, y: 0 } },
        TexVertex { pos: Vec2 { x: 500, y: 0 }, uv: Vec2 { x: 0, y: 1000 } },
        TexVertex { pos: Vec2 { x: 1000, y: 0 }, uv: Vec2 { x: 1000, y: 1000 } },
    ]
}

impl TextureTester {
    /// Set up the overlay: the two quads and their shared two-triangle index
    /// list, drawn with the given program.
    pub fn new(program: ProgramHandle) -> (t: TextureTester)
        ensures
            t.program == program,
            t.vertices1@ == spec_quad1(),
            t.vertices2@ == spec_quad2(),
            t.indices@ == seq![0u32, 1u32, 2u32, 1u32, 2u32, 3u32],
    {
        let mut vertices1: Vec<TexVertex> = Vec::new();
        vertices1.push(TexVertex { pos: Vec2 { x: 500, y: -1000i32 }, uv: Vec2 { x: 0, y: 0 } });
        vertices1.push(TexVertex { pos: Vec2 { x: 1000, y: -1000i32 }, uv: Vec2 { x: 1000, y: 0 } });
        vertices1.push(TexVertex { pos: Vec2 { x: 500, y: -510i32 }, uv: Vec2 { x: 0, y: 1000 } });
        vertices1.push(TexVertex { pos: Vec2 { x: 1000, y: -510i32 }, uv: Vec2 { x: 1000, y: 1000 } });
        let mut vertices2: Vec<TexVertex> = Vec::new();
        vertices2.push(TexVertex { pos: Vec2 { x: 500, y: -490i32 }, uv: Vec2 { x: 0, y: 0 } });
        vertices2.push(TexVertex { pos: Vec2 { x: 1000, y: -490i32 }, uv: Vec2 { x: 1000, y: 0 } });
        vertices2.push(TexVertex { pos: Vec2 { x: 500, y: 0 }, uv: Vec2 { x: 0, y: 1000 } });
        vertices2.push(TexVertex { pos: Vec2 { x: 1000, y: 0 }, uv: Vec2 { x: 1000, y: 1000 } });
        let mut indices: Vec<u32> = Vec::new();
        indices.push(0);
        indices.push(1);
        indices.push(2);
        indices.push(1);
        indices.push(2);
        indices.push(3);
        proof {
            assert(vertices1@ =~= spec_quad1());
            assert(vertices2@ =~= spec_quad2());
            assert(indices@ =~= seq![0u32, 1u32, 2u32, 1u32, 2u32, 3u32]);
        }
        TextureTester { program, vertices1, vertices2, indices }
    }

    /// Plan the overlay: both quads drawn into the caller's viewport with
    /// culling, blending and depth testing disabled, sampling the first and
    /// the second texture in that order.
    pub fn render(&self, viewport: &Viewport) -> (plan: TexturePlan)
        ensures
            plan.first == (TexDraw {
                program: self.program,
                viewport: *viewport,
                texture_index: 1,
                cull: false,
                blend: false,
                depth_test: false,
                draw_count: self.indices@.len() as usize,
            }),
            plan.second == (TexDraw { texture_index: 2, ..plan.first }),
    {
        let first = TexDraw {
            program: self.program,
            viewport: *viewport,
            texture_index: 1,
            cull: false,
            blend: false,
            depth_test: false,
            draw_count: self.indices.len(),
        };
        let second = TexDraw { texture_index: 2, ..first };
        TexturePlan { first, second }
    }

    /// Apply a hot-reload attempt for the overlay shader: swap to the new
    /// program when the stem matches and compilation succeeded, keep the old
    /// program otherwise. Returns whether the program was replaced.
    pub fn check_shader_update(&mut self, path_stem: &str, compiled: Option<ProgramHandle>) -> (r:
        bool)
        ensures
            r == (path_stem@ == spec_tester_shader_name() && compiled is Some),
            r ==> *final(self) == (TextureTester { program: compiled->0, ..*old(self) }),
            !r ==> *final(self) == *old(self),
    {
        if str_eq(path_stem, "texture_tester") {
            match compiled {
                Some(program) => {
                    self.program = program;
                    return true;
                },
                None => false,
            }
        } else {
            false
        }
    }
}

} // verus!
