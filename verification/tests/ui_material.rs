use ivrigst::attributes::{DistanceShadingChannel, Vec3};
use ivrigst::material::{DistanceShadingChannel as MaterialChannel, MyMaterial};
use ivrigst::mesh::MeshData;
use ivrigst::model::{Model, ProgramHandle};
use ivrigst::ui::{Preset, UI};
use ivrigst::viewport::Viewport;

fn small_model() -> Model {
    let mesh = MeshData {
        positions: vec![0, 0, 0, 1000, 0, 0, 0, 1000, 0],
        normals: vec![0, 0, 1000, 0, 0, 1000, 0, 0, 1000],
        indices: vec![0, 1, 2],
    };
    let (model, _) = Model::new(mesh, ProgramHandle { id: 1 }, ProgramHandle { id: 2 }).unwrap();
    model
}

#[test]
fn preset_descriptions() {
    assert_eq!(Preset::Plain.description(), "Plain");
    assert_eq!(Preset::Aerial.description(), "Aerial");
    assert_eq!(Preset::ChromaDepth.description(), "Colored depth");
}

#[test]
fn ui_new_starts_plain() {
    let ui = UI::new(vec!["skull".to_string()]);
    assert_eq!(ui.preset, Preset::Plain);
    assert_eq!(ui.model_files, vec!["skull".to_string()]);
    assert!(ui.renderer.texture.is_none());
}

#[test]
fn apply_preset_aerial() {
    let mut ui = UI::new(vec![]);
    ui.preset = Preset::Aerial;
    let mut model = small_model();
    let (attr, writes) = ui.apply_preset(&mut model);
    assert_eq!(attr.toon_factor, 0);
    assert_eq!(attr.vertex_color_mix, 1000);
    assert_eq!(attr.distance_shading_channel, DistanceShadingChannel::Saturation);
    assert_eq!(attr.distance_shading_power, 600);
    assert!(attr.replace_shadows_with_hatching);
    assert_eq!(attr.hatching_depth, 750);
    assert_eq!(attr.hatching_steps, 150);
    assert_eq!(attr.hatching_frequency, 4);
    assert_eq!(attr.hatching_intensity, 750);
    assert_eq!(*model.get_attributes(), attr);
    assert!(!writes.is_empty());
    // Rendering after the preset reflects the new snapshot.
    let plan = model.render(&Viewport::for_window(10, 10));
    assert_eq!(plan.light.source, attr.light_position);
}

#[test]
fn apply_preset_chroma_keeps_color_mix() {
    let mut ui = UI::new(vec![]);
    ui.preset = Preset::ChromaDepth;
    let mut model = small_model();
    let mix_before = model.get_attributes().vertex_color_mix;
    let (attr, _) = ui.apply_preset(&mut model);
    assert_eq!(attr.distance_shading_channel, DistanceShadingChannel::Hue);
    assert_eq!(attr.vertex_color_mix, mix_before);
}

#[test]
fn set_texture_records() {
    let mut ui = UI::new(vec![]);
    let pixels = vec![0u8; 12];
    ui.set_texture(4, 3, &pixels);
    let info = ui.renderer.texture.unwrap();
    assert_eq!(info.width, 4);
    assert_eq!(info.height, 3);
}

#[test]
fn material_default_mirrors_fields() {
    let m = MyMaterial::default();
    assert_eq!(m.color, Vec3 { x: 1000, y: 560, z: 720 });
    assert_eq!(m.distance_shading_power, 800);
    assert_eq!(m.distance_shading_constrict, 200);
    assert_eq!(m.toon_factor, 800);
    assert_eq!(m.floats, vec![0, 800, 200, 800]);
    assert_eq!(m.vectors, vec![0, 0, 0, 0, 1000, 560, 720]);
    assert_eq!(m.get_distance_shading_channel(), MaterialChannel::Value);
}

#[test]
fn material_setters_keep_mirror() {
    let mut m = MyMaterial::default();
    m.set_camera_position(Vec3 { x: 1, y: 2, z: 3 });
    assert_eq!(&m.vectors[0..3], &[1, 2, 3]);
    m.set_color(Vec3 { x: 7, y: 8, z: 9 });
    assert_eq!(&m.vectors[4..7], &[7, 8, 9]);
    assert_eq!(m.get_color(), Vec3 { x: 7, y: 8, z: 9 });
    m.set_distance_shading_power(123);
    assert_eq!(m.floats[1], 123);
    assert_eq!(m.get_distance_shading_power(), 123);
    m.set_distance_shading_constrict(45);
    assert_eq!(m.floats[2], 45);
    m.set_toon_factor(67);
    assert_eq!(m.floats[3], 67);
}

#[test]
fn material_model_size_slot_only() {
    // The model-size setter writes only the shader slot; the named field
    // stays behind.
    let mut m = MyMaterial::default();
    m.set_model_size(4242);
    assert_eq!(m.floats[0], 4242);
    assert_eq!(m.model_size, 0);
}

#[test]
fn material_channel_roundtrip() {
    let mut m = MyMaterial::default();
    for ch in [
        MaterialChannel::Hue,
        MaterialChannel::Saturation,
        MaterialChannel::Value,
        MaterialChannel::NoChannel,
    ] {
        m.set_distance_shading_channel(ch);
        assert_eq!(m.get_distance_shading_channel(), ch);
    }
}
