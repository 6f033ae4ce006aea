//! The [Model]: the render-attribute state machine and the two-pass shadow
//! rendering pipeline.
//!
//! The model owns its mesh data, two shader program handles and the cached
//! attribute snapshot, and keeps one invariant: the cached snapshot matches
//! the uniform store of the active main program. Every frame it produces a
//! [RenderPlan] — an explicit description of the shadow pass and the main
//! pass, each with its own pipeline state — which the shell executes with
//! GPU calls.

use vstd::prelude::*;
use vstd::arithmetic::div_mod::lemma_mod_multiples_vanish;
use crate::attributes::{
    Attributes, UniformState, UniformWrite, Vec3, spec_uniforms_of, spec_diff_writes,
    spec_full_writes, spec_apply_writes, diff_writes, full_writes, spec_channel_code,
    spec_bool_code, lemma_diff_writes_complete, lemma_full_writes_complete,
};
use crate::mesh::{
    MeshData, MeshError, Vertex, bounding_box, center_of, centered_vertices, diagonal_len,
    lemma_axis_extremes_bounded, spec_axis_min, spec_axis_max, spec_center_axis,
    spec_centered_vertices_of,
};
use crate::resources::str_eq;
use crate::viewport::Viewport;

verus! {

/// Side length of the square depth-map render target, in pixels.
pub const SHADOW_WIDTH: u32 = 1024;

/// Side length of the square depth-map render target, in pixels.
pub const SHADOW_HEIGHT: u32 = 1024;

/// Length of one light-orbit cycle, in milliseconds.
pub const ORBIT_CYCLE_MS: u64 = 2_000;

/// Orbit angle advanced per millisecond, in millionths of a turn.
pub const ORBIT_STEP: u64 = 500;

/// An opaque handle to a linked GPU shader program, issued by the shell.
#[derive(Debug, Clone, Copy, PartialEq, Eq, Structural)]
pub struct ProgramHandle {
    pub id: u64,
}

/// Where a pass draws to.
#[derive(Debug, Clone, Copy, PartialEq, Eq, Structural)]
pub enum FramebufferTarget {
    /// The depth-map framebuffer, written by the shadow pass.
    DepthMap,
    /// The window's own framebuffer.
    Screen,
}

/// Face culling during a pass.
#[derive(Debug, Clone, Copy, PartialEq, Eq, Structural)]
pub enum CullMode {
    Disabled,
    Back,
}

/// The complete pipeline state of one draw pass, applied immediately before
/// its draw call, so that no state leaks from one pass into the next.
#[derive(Debug, Clone, Copy, PartialEq, Eq, Structural)]
pub struct Pass {
    pub program: ProgramHandle,
    pub viewport: Viewport,
    pub framebuffer: FramebufferTarget,
    pub cull: CullMode,
    pub blend: bool,
    pub depth_test: bool,
    pub clear_depth: bool,
    pub bind_depth_map: bool,
    /// Number of index entries the pass draws, as triangles.
    pub draw_count: usize,
}

/// The light placement for one frame: the chosen source position, the vector
/// from the light toward the origin, and the animated orbit.
#[derive(Debug, Clone, Copy, PartialEq, Eq, Structural)]
pub struct LightTransform {
    /// The light position the shadow pass projects from: the camera position
    /// while the light follows the camera, the fixed light position otherwise.
    pub source: Vec3,
    /// The vector from the light toward the origin, for diffuse lighting.
    pub vector: Vec3,
    /// The orbit rotation angle, in millionths of a turn.
    pub orbit_angle: u32,
    /// The orbit displacement radius, in thousandths of a unit.
    pub orbit_radius: i32,
    /// Whether the light tracks the camera.
    pub follow: bool,
}

/// One frame's rendering, as an explicit plan: the light transform, then the
/// shadow pass, then the main pass, in that order.
#[derive(Debug, Clone, Copy, PartialEq, Eq, Structural)]
pub struct RenderPlan {
    pub light: LightTransform,
    pub shadow_pass: Pass,
    pub main_pass: Pass,
}

impl RenderPlan {
    /// The passes in issue order: shadow first, then main.
    pub fn passes(&self) -> (r: Vec<Pass>)
        ensures
            r@ == seq![self.shadow_pass, self.main_pass],
    {
        let mut r: Vec<Pass> = Vec::new();
        r.push(self.shadow_pass);
        r.push(self.main_pass);
        proof {
            assert(r@ =~= seq![self.shadow_pass, self.main_pass]);
        }
        r
    }
}

/// The orbit rotation angle for an animation clock reading, in millionths of
/// a turn: the clock position within the current cycle, scaled.
pub open spec fn spec_orbit_angle(elapsed: int) -> int {
    (elapsed % (ORBIT_CYCLE_MS as int)) * (ORBIT_STEP as int)
}

/// Executable form of [spec_orbit_angle].
pub fn orbit_angle(elapsed: u64) -> (r: u32)
    ensures
        r == spec_orbit_angle(elapsed as int),
        r < 1_000_000,
{
    ((elapsed % ORBIT_CYCLE_MS) * ORBIT_STEP) as u32
}

/// Light orbit periodicity law: clock readings one cycle apart give the same
/// orbit angle.
pub proof fn lemma_orbit_periodic(elapsed: int)
    requires
        elapsed >= 0,
    ensures
        spec_orbit_angle(elapsed + ORBIT_CYCLE_MS) == spec_orbit_angle(elapsed),
{
    lemma_mod_multiples_vanish(1, elapsed, ORBIT_CYCLE_MS as int);
}

/// The light transform a frame uses, derived from the attribute snapshot.
pub open spec fn spec_light_transform(a: Attributes) -> LightTransform {
    let source = if a.shadows_follow {
        a.camera_position
    } else {
        a.light_position
    };
    LightTransform {
        source,
        vector: Vec3 { x: -source.x as i32, y: -source.y as i32, z: -source.z as i32 },
        orbit_angle: spec_orbit_angle(a.elapsed as int) as u32,
        orbit_radius: a.shadows_orbit_radius,
        follow: a.shadows_follow,
    }
}

/// The logical name of the model's shader, which hot reload matches file
/// stems against.
pub open spec fn spec_model_shader_name() -> Seq<char> {
    "model"@
}

/// Whether a changed file's stem names the model shader.
pub fn shader_update_applies(path_stem: &str) -> (r: bool)
    ensures
        r == (path_stem@ == spec_model_shader_name()),
{
    str_eq(path_stem, "model")
}

/// The model: mesh buffers, the two shader programs, the cached attribute
/// snapshot and the model of the active program's uniform store.
pub struct Model {
    /// The main shader program.
    pub program: ProgramHandle,
    /// The depth-only shadow shader program.
    pub shadow_program: ProgramHandle,
    /// The centered, interleaved vertex data, immutable after construction.
    pub vertices: Vec<Vertex>,
    /// The triangle index list, immutable after construction.
    pub indices: Vec<u32>,
    /// The bounding-box extent of the mesh, in thousandths of a unit.
    pub size: Vec3,
    /// The cached attribute snapshot: the last values pushed to the GPU.
    pub attributes: Attributes,
    /// The uniform store of the active main program, as the pushed writes
    /// have left it.
    pub gpu: UniformState,
}

impl Model {
    /// The model's invariant: the cached attributes match the active
    /// program's uniform store, the vector attributes are bounded, and the
    /// index list is whole triangles.
    pub open spec fn spec_wf(self) -> bool {
        &&& self.gpu == spec_uniforms_of(self.attributes)
        &&& self.attributes.wf()
        &&& self.indices@.len() % 3 == 0
    }

    /// Build a model from a loaded mesh and two linked programs: validate the
    /// mesh, center its vertices about the bounding-box midpoint, cache the
    /// extent and its magnitude, and push every default attribute once. The
    /// returned writes must be applied to the main program; they establish
    /// the synchronization invariant.
    pub fn new(mesh: MeshData, program: ProgramHandle, shadow_program: ProgramHandle) -> (r:
        Result<(Model, Vec<UniformWrite>), MeshError>)
        ensures
            r is Ok <==> mesh.spec_valid(),
            r is Err ==> Option::Some(r->Err_0) == mesh.spec_rejection(),
            r is Ok ==> ({
                let (m, writes) = r->Ok_0;
                &&& m.spec_wf()
                &&& m.program == program
                &&& m.shadow_program == shadow_program
                &&& m.indices@ == mesh.indices@
                &&& spec_centered_vertices_of(m.vertices@, mesh.positions@, mesh.normals@)
                &&& m.size.x == spec_axis_max(mesh.positions@, 0, mesh.spec_vertex_count())
                    - spec_axis_min(mesh.positions@, 0, mesh.spec_vertex_count())
                &&& m.size.y == spec_axis_max(mesh.positions@, 1, mesh.spec_vertex_count())
                    - spec_axis_min(mesh.positions@, 1, mesh.spec_vertex_count())
                &&& m.size.z == spec_axis_max(mesh.positions@, 2, mesh.spec_vertex_count())
                    - spec_axis_min(mesh.positions@, 2, mesh.spec_vertex_count())
                &&& (m.attributes.model_size as int) * (m.attributes.model_size as int) <= (
                m.size.x as int) * (m.size.x as int) + (m.size.y as int) * (m.size.y as int) + (
                m.size.z as int) * (m.size.z as int)
                &&& (m.size.x as int) * (m.size.x as int) + (m.size.y as int) * (m.size.y as int)
                    + (m.size.z as int) * (m.size.z as int) < (m.attributes.model_size as int + 1)
                    * (m.attributes.model_size as int + 1)
                &&& m.attributes == (Attributes {
                    model_size: m.attributes.model_size,
                    ..Attributes::spec_default()
                })
                &&& writes@ == spec_full_writes(m.attributes)
                &&& m.gpu == spec_uniforms_of(m.attributes)
            }),
    {
        if let Err(e) = mesh.validate() {
            return Err(e);
        }
        let n = mesh.positions.len() / 3;
        let (mn, mx) = bounding_box(&mesh.positions);
        proof {
            lemma_axis_extremes_bounded(mesh.positions@, 0, n as int);
            lemma_axis_extremes_bounded(mesh.positions@, 1, n as int);
            lemma_axis_extremes_bounded(mesh.positions@, 2, n as int);
        }
        let center = center_of(&mn, &mx);
        let vertices = centered_vertices(&mesh.positions, &mesh.normals, &center);
        let size = Vec3 { x: mx.x - mn.x, y: mx.y - mn.y, z: mx.z - mn.z };
        let model_size = diagonal_len(&size);
        let mut attributes = Attributes::default();
        attributes.model_size = model_size;
        let gpu = uniforms_of(&attributes);
        let writes = full_writes(&attributes);
        let m = Model {
            program,
            shadow_program,
            vertices,
            indices: mesh.indices,
            size,
            attributes,
            gpu,
        };
        Ok((m, writes))
    }

    /// The cached attribute snapshot: the last values pushed to the GPU.
    pub fn get_attributes(&self) -> (r: &Attributes)
        ensures
            *r == self.attributes,
    {
        &self.attributes
    }

    /// Replace the attribute snapshot. The returned writes carry the active
    /// program's uniform store from the old snapshot to the new one: one
    /// write per changed field, none for unchanged fields. The shell must
    /// apply them in order.
    pub fn set_attributes(&mut self, new: Attributes) -> (writes: Vec<UniformWrite>)
        requires
            old(self).spec_wf(),
            new.wf(),
        ensures
            final(self).spec_wf(),
            *final(self) == (Model { attributes: new, gpu: spec_uniforms_of(new), ..*old(self) }),
            writes@ == spec_diff_writes(old(self).attributes, new),
            spec_apply_writes(old(self).gpu, writes@) == final(self).gpu,
    {
        let writes = diff_writes(&self.attributes, &new);
        proof {
            lemma_diff_writes_complete(self.attributes, new);
        }
        self.attributes = new;
        self.gpu = uniforms_of(&self.attributes);
        writes
    }

    /// The bounding-box extent of the loaded mesh.
    pub fn get_size(&self) -> (r: &Vec3)
        ensures
            *r == self.size,
    {
        &self.size
    }

    /// Plan one frame: a depth-only shadow pass into the depth map with the
    /// viewport resized to the map, then the main pass into the window's
    /// framebuffer with back-face culling and the caller's viewport restored,
    /// both drawing the full index buffer.
    pub fn render(&self, viewport: &Viewport) -> (plan: RenderPlan)
        requires
            self.spec_wf(),
        ensures
            plan == self.spec_render_plan(*viewport),
    {
        let follow = self.attributes.shadows_follow;
        let source = if follow {
            self.attributes.camera_position
        } else {
            self.attributes.light_position
        };
        let light = LightTransform {
            source,
            vector: Vec3 { x: -source.x, y: -source.y, z: -source.z },
            orbit_angle: orbit_angle(self.attributes.elapsed),
            orbit_radius: self.attributes.shadows_orbit_radius,
            follow,
        };
        let shadow_pass = Pass {
            program: self.shadow_program,
            viewport: Viewport { x: 0, y: 0, w: SHADOW_WIDTH, h: SHADOW_HEIGHT },
            framebuffer: FramebufferTarget::DepthMap,
            cull: CullMode::Disabled,
            blend: false,
            depth_test: true,
            clear_depth: true,
            bind_depth_map: false,
            draw_count: self.indices.len(),
        };
        let main_pass = Pass {
            program: self.program,
            viewport: *viewport,
            framebuffer: FramebufferTarget::Screen,
            cull: CullMode::Back,
            blend: false,
            depth_test: true,
            clear_depth: false,
            bind_depth_map: true,
            draw_count: self.indices.len(),
        };
        RenderPlan { light, shadow_pass, main_pass }
    }

    /// The frame plan, at the specification level.
    pub open spec fn spec_render_plan(self, viewport: Viewport) -> RenderPlan {
        RenderPlan {
            light: spec_light_transform(self.attributes),
            shadow_pass: Pass {
                program: self.shadow_program,
                viewport: Viewport { x: 0, y: 0, w: SHADOW_WIDTH, h: SHADOW_HEIGHT },
                framebuffer: FramebufferTarget::DepthMap,
                cull: CullMode::Disabled,
                blend: false,
                depth_test: true,
                clear_depth: true,
                bind_depth_map: false,
                draw_count: self.indices@.len() as usize,
            },
            main_pass: Pass {
                program: self.program,
                viewport,
                framebuffer: FramebufferTarget::Screen,
                cull: CullMode::Back,
                blend: false,
                depth_test: true,
                clear_depth: false,
                bind_depth_map: true,
                draw_count: self.indices@.len() as usize,
            },
        }
    }

    /// The model state after a hot-reload attempt: the new program when the
    /// stem matched and compilation succeeded, the old state untouched
    /// otherwise.
    pub open spec fn spec_after_shader_update(
        self,
        stem_matches: bool,
        compiled: Option<ProgramHandle>,
    ) -> Model {
        if stem_matches && compiled is Some {
            Model { program: compiled->0, ..self }
        } else {
            self
        }
    }

    /// Apply a hot-reload attempt. The shell recompiles the program when
    /// [shader_update_applies] holds of the changed file's stem and hands the
    /// outcome in; on success the model swaps to the new program and returns
    /// the full attribute push that re-synchronizes it, on failure it stays
    /// exactly as it was. Returns whether the program was replaced, and the
    /// writes the shell must apply to the new program.
    pub fn check_shader_update(&mut self, path_stem: &str, compiled: Option<ProgramHandle>) -> (r:
        (bool, Vec<UniformWrite>))
        ensures
            *final(self) == old(self).spec_after_shader_update(
                path_stem@ == spec_model_shader_name(),
                compiled,
            ),
            r.0 == (path_stem@ == spec_model_shader_name() && compiled is Some),
            r.0 ==> r.1@ == spec_full_writes(old(self).attributes),
            !r.0 ==> r.1@.len() == 0,
            old(self).spec_wf() ==> final(self).spec_wf(),
    {
        if str_eq(path_stem, "model") {
            match compiled {
                Some(program) => {
                    let writes = full_writes(&self.attributes);
                    self.program = program;
                    return (true, writes);
                },
                None => (false, Vec::new()),
            }
        } else {
            (false, Vec::new())
        }
    }
}

/// Executable form of [spec_uniforms_of].
pub fn uniforms_of(a: &Attributes) -> (g: UniformState)
    ensures
        g == spec_uniforms_of(*a),
{
    UniformState {
        projection_matrix: a.projection_matrix,
        camera_position: a.camera_position,
        color: a.color,
        model_size: a.model_size,
        distance_shading_power: a.distance_shading_power,
        distance_shading_constrict: a.distance_shading_constrict,
        toon_factor: a.toon_factor,
        distance_shading_channel: crate::attributes::channel_code(a.distance_shading_channel),
        shadows: crate::attributes::bool_code(a.shadows),
        vertex_color_mix: a.vertex_color_mix,
        replace_shadows_with_hatching: crate::attributes::bool_code(
            a.replace_shadows_with_hatching,
        ),
        hatching_depth: a.hatching_depth,
        hatching_steps: a.hatching_steps,
        hatching_frequency: a.hatching_frequency,
        hatching_intensity: a.hatching_intensity,
    }
}

/// Mesh-centering law, at the model: the vertices a model is built from have
/// a bounding box symmetric about the origin on every axis, up to the
/// one-thousandth rounding step — on an axis of even extent the least and
/// greatest coordinates are exact negatives — regardless of where the source
/// mesh sat in its own coordinates.
pub proof fn lemma_model_centered(m: Model, mesh: MeshData, axis: int)
    requires
        0 <= axis < 3,
        mesh.spec_valid(),
        crate::mesh::spec_centered_vertices_of(m.vertices@, mesh.positions@, mesh.normals@),
    ensures
        ({
            let n = mesh.spec_vertex_count();
            let d = spec_axis_max(mesh.positions@, axis, n) - spec_axis_min(
                mesh.positions@,
                axis,
                n,
            );
            &&& crate::mesh::spec_vertex_axis_min(m.vertices@, axis, n) == -(d / 2)
            &&& crate::mesh::spec_vertex_axis_max(m.vertices@, axis, n) == d - d / 2
            &&& (d % 2 == 0 ==> crate::mesh::spec_vertex_axis_min(m.vertices@, axis, n)
                == -crate::mesh::spec_vertex_axis_max(m.vertices@, axis, n))
        }),
{
    let n = mesh.spec_vertex_count();
    assert(forall|j: int|
        0 <= j < n ==> crate::mesh::spec_vertex_coord(#[trigger] m.vertices@[j], axis)
            == crate::mesh::spec_coord(mesh.positions@, j, axis) - crate::mesh::spec_center_of(
            spec_axis_min(mesh.positions@, axis, n),
            spec_axis_max(mesh.positions@, axis, n),
        ));
    crate::mesh::lemma_centering_symmetric(mesh.positions@, m.vertices@, axis, n);
}

/// Hot-reload atomicity law: a reload attempt that fails to compile, or that
/// names another shader, leaves the model exactly as it was, and the next
/// frame's plan is identical to the plan before the attempt — same program,
/// same uniform values.
pub proof fn lemma_hot_reload_atomic(
    m: Model,
    viewport: Viewport,
    stem_matches: bool,
    compiled: Option<ProgramHandle>,
)
    requires
        compiled is None || !stem_matches,
    ensures
        m.spec_after_shader_update(stem_matches, compiled) == m,
        m.spec_after_shader_update(stem_matches, compiled).spec_render_plan(viewport)
            == m.spec_render_plan(viewport),
{
}

/// Hot-reload resynchronization law: a reload that succeeds swaps only the
/// program; the attributes are unchanged, and applying the returned full
/// push to the fresh program's uniform store — whatever it held — leaves it
/// matching the cached attributes.
pub proof fn lemma_hot_reload_resync(m: Model, fresh: UniformState, p: ProgramHandle)
    ensures
        m.spec_after_shader_update(true, Option::Some(p)).attributes == m.attributes,
        m.spec_after_shader_update(true, Option::Some(p)).program == p,
        spec_apply_writes(fresh, spec_full_writes(m.attributes)) == spec_uniforms_of(m.attributes),
{
    lemma_full_writes_complete(fresh, m.attributes);
}

} // verus!
