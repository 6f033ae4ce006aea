use ivrigst::model::ProgramHandle;
use ivrigst::texture_tester::TextureTester;
use ivrigst::triangle::Triangle;
use ivrigst::viewport::Viewport;

#[test]
fn viewport_for_window() {
    let vp = Viewport::for_window(1200, 800);
    assert_eq!(vp.x, 0);
    assert_eq!(vp.y, 0);
    assert_eq!(vp.size(), (1200, 800));
}

#[test]
fn viewport_update_size() {
    let mut vp = Viewport::for_window(100, 100);
    vp.update_size(640, 480);
    assert_eq!(vp.size(), (640, 480));
    assert_eq!(vp.x, 0);
}

#[test]
fn texture_tester_plan() {
    let t = TextureTester::new(ProgramHandle { id: 5 });
    assert_eq!(t.vertices1.len(), 4);
    assert_eq!(t.vertices2.len(), 4);
    assert_eq!(t.indices, vec![0, 1, 2, 1, 2, 3]);
    let vp = Viewport::for_window(300, 200);
    let plan = t.render(&vp);
    assert_eq!(plan.first.program, ProgramHandle { id: 5 });
    assert_eq!(plan.first.texture_index, 1);
    assert_eq!(plan.second.texture_index, 2);
    assert!(!plan.first.cull);
    assert!(!plan.first.blend);
    assert!(!plan.first.depth_test);
    assert_eq!(plan.first.draw_count, 6);
    assert_eq!(plan.second.draw_count, 6);
}

#[test]
fn texture_tester_hot_reload() {
    let mut t = TextureTester::new(ProgramHandle { id: 5 });
    let swapped = t.check_shader_update("model", Some(ProgramHandle { id: 6 }));
    assert!(!swapped);
    assert_eq!(t.program, ProgramHandle { id: 5 });
    let swapped = t.check_shader_update("texture_tester", None);
    assert!(!swapped);
    let swapped = t.check_shader_update("texture_tester", Some(ProgramHandle { id: 6 }));
    assert!(swapped);
    assert_eq!(t.program, ProgramHandle { id: 6 });
}

#[test]
fn triangle_draw() {
    let t = Triangle::new(ProgramHandle { id: 3 });
    assert_eq!(t.vertices.len(), 3);
    let d = t.render();
    assert_eq!(d.program, ProgramHandle { id: 3 });
    assert_eq!(d.draw_count, 3);
}
