use ivrigst::attributes::{Attributes, Vec3};
use ivrigst::mesh::MeshData;
use ivrigst::model::{CullMode, FramebufferTarget, Model, ProgramHandle, SHADOW_HEIGHT,
    SHADOW_WIDTH, orbit_angle, shader_update_applies};
use ivrigst::viewport::Viewport;

fn unit_cube() -> MeshData {
    // Eight corners of a cube one unit on a side, centered at the origin,
    // and its twelve triangles.
    let mut positions = Vec::new();
    let mut normals = Vec::new();
    for &z in &[-500, 500] {
        for &y in &[-500, 500] {
            for &x in &[-500, 500] {
                positions.push(x);
                positions.push(y);
                positions.push(z);
                normals.push(0);
                normals.push(0);
                normals.push(1000);
            }
        }
    }
    let indices: Vec<u32> = vec![
        0, 1, 2, 1, 3, 2, // near face
        4, 6, 5, 5, 6, 7, // far face
        0, 4, 1, 1, 4, 5, // bottom
        2, 3, 6, 3, 7, 6, // top
        0, 2, 4, 2, 6, 4, // left
        1, 5, 3, 3, 5, 7, // right
    ];
    MeshData { positions, normals, indices }
}

fn cube_model() -> Model {
    let mesh = unit_cube();
    let (model, _writes) =
        Model::new(mesh, ProgramHandle { id: 1 }, ProgramHandle { id: 2 }).unwrap();
    model
}

#[test]
fn model_new_cube() {
    let mesh = unit_cube();
    let (model, writes) =
        Model::new(mesh, ProgramHandle { id: 1 }, ProgramHandle { id: 2 }).unwrap();
    assert_eq!(model.vertices.len(), 8);
    assert_eq!(model.indices.len(), 36);
    assert_eq!(*model.get_size(), Vec3 { x: 1000, y: 1000, z: 1000 });
    // The cube was already centered; its vertices come through unchanged.
    assert_eq!(model.vertices[0].pos, Vec3 { x: -500, y: -500, z: -500 });
    assert_eq!(model.vertices[7].pos, Vec3 { x: 500, y: 500, z: 500 });
    // The bounding diagonal of the unit cube, rounded down.
    assert_eq!(model.get_attributes().model_size, 1732);
    // Construction pushes the complete uniform set once.
    assert_eq!(writes.len(), 15);
}

#[test]
fn model_new_rejects_bad_mesh() {
    let mut mesh = unit_cube();
    mesh.indices.push(99);
    assert!(Model::new(mesh, ProgramHandle { id: 1 }, ProgramHandle { id: 2 }).is_err());
}

#[test]
fn end_to_end_render() {
    // A unit-cube model with default attributes, rendered at 800x600: the
    // shadow pass draws into the depth map at the map's resolution, then the
    // main pass draws into the window at the caller's viewport, with
    // back-face culling only in the main pass.
    let model = cube_model();
    let viewport = Viewport::for_window(800, 600);
    let plan = model.render(&viewport);
    let passes = plan.passes();
    assert_eq!(passes.len(), 2);

    let shadow = &passes[0];
    assert_eq!(shadow.program, ProgramHandle { id: 2 });
    assert_eq!(shadow.viewport, Viewport { x: 0, y: 0, w: SHADOW_WIDTH, h: SHADOW_HEIGHT });
    assert_eq!(shadow.framebuffer, FramebufferTarget::DepthMap);
    assert_eq!(shadow.cull, CullMode::Disabled);
    assert!(!shadow.blend);
    assert!(shadow.depth_test);
    assert!(shadow.clear_depth);
    assert_eq!(shadow.draw_count, 36);

    let main = &passes[1];
    assert_eq!(main.program, ProgramHandle { id: 1 });
    assert_eq!(main.viewport, Viewport { x: 0, y: 0, w: 800, h: 600 });
    assert_eq!(main.framebuffer, FramebufferTarget::Screen);
    assert_eq!(main.cull, CullMode::Back);
    assert!(main.bind_depth_map);
    assert_eq!(main.draw_count, 36);
}

#[test]
fn set_attributes_twice_is_idempotent() {
    // The second upload of an identical snapshot writes nothing and leaves
    // the GPU-visible state exactly as after the first.
    let mut model = cube_model();
    let mut attr = *model.get_attributes();
    attr.color = Vec3 { x: 100, y: 200, z: 300 };
    attr.toon_factor = 0;
    let first = model.set_attributes(attr);
    assert_eq!(first.len(), 2);
    let gpu_after_first = model.gpu;
    let second = model.set_attributes(attr);
    assert!(second.is_empty());
    assert_eq!(model.gpu, gpu_after_first);
    assert_eq!(*model.get_attributes(), attr);
}

#[test]
fn hot_reload_failure_is_atomic() {
    // A shader file that fails to compile leaves the model untouched: the
    // next frame's plan is identical to the one before the attempt.
    let mut model = cube_model();
    let viewport = Viewport::for_window(640, 480);
    let before = model.render(&viewport);
    assert!(shader_update_applies("model"));
    let (swapped, writes) = model.check_shader_update("model", None);
    assert!(!swapped);
    assert!(writes.is_empty());
    let after = model.render(&viewport);
    assert_eq!(before, after);
}

#[test]
fn hot_reload_ignores_other_stems() {
    let mut model = cube_model();
    assert!(!shader_update_applies("texture_tester"));
    let (swapped, writes) =
        model.check_shader_update("texture_tester", Some(ProgramHandle { id: 9 }));
    assert!(!swapped);
    assert!(writes.is_empty());
    assert_eq!(model.program, ProgramHandle { id: 1 });
}

#[test]
fn hot_reload_success_resyncs() {
    let mut model = cube_model();
    let attrs_before = *model.get_attributes();
    let (swapped, writes) = model.check_shader_update("model", Some(ProgramHandle { id: 9 }));
    assert!(swapped);
    assert_eq!(model.program, ProgramHandle { id: 9 });
    // The fresh program receives the complete attribute set.
    assert_eq!(writes.len(), 15);
    assert_eq!(*model.get_attributes(), attrs_before);
}

#[test]
fn orbit_periodicity() {
    // Clock readings one cycle apart give the same orbit angle.
    assert_eq!(orbit_angle(123), orbit_angle(123 + 2000));
    assert_eq!(orbit_angle(1999), orbit_angle(3999));
    assert_eq!(orbit_angle(0), 0);
    // Half a cycle in is half a turn.
    assert_eq!(orbit_angle(1000), 500_000);
}

#[test]
fn light_source_selection() {
    let mut model = cube_model();
    let mut attr = *model.get_attributes();
    attr.camera_position = Vec3 { x: 10, y: 20, z: 30 };
    attr.shadows_follow = false;
    model.set_attributes(attr);
    let plan = model.render(&Viewport::for_window(100, 100));
    assert_eq!(plan.light.source, attr.light_position);
    assert_eq!(
        plan.light.vector,
        Vec3 { x: -attr.light_position.x, y: -attr.light_position.y, z: -attr.light_position.z }
    );
    assert!(!plan.light.follow);

    attr.shadows_follow = true;
    attr.elapsed = 500;
    attr.shadows_orbit_radius = 42;
    model.set_attributes(attr);
    let plan = model.render(&Viewport::for_window(100, 100));
    assert_eq!(plan.light.source, Vec3 { x: 10, y: 20, z: 30 });
    assert_eq!(plan.light.vector, Vec3 { x: -10, y: -20, z: -30 });
    assert_eq!(plan.light.orbit_angle, 250_000);
    assert_eq!(plan.light.orbit_radius, 42);
    assert!(plan.light.follow);
}
