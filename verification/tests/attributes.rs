use ivrigst::attributes::{Attributes, DistanceShadingChannel, UniformName, UniformValue, Vec3,
    bool_code, channel_code, diff_writes, full_writes};

#[test]
fn default_values() {
    let a = Attributes::default();
    assert_eq!(a.light_position, Vec3 { x: 450, y: 250, z: -600 });
    assert_eq!(a.color, Vec3 { x: 1000, y: 560, z: 720 });
    assert_eq!(a.model_size, 0);
    assert_eq!(a.distance_shading_power, 800);
    assert_eq!(a.distance_shading_constrict, 200);
    assert_eq!(a.toon_factor, 800);
    assert_eq!(a.distance_shading_channel, DistanceShadingChannel::NoChannel);
    assert!(a.shadows);
    assert!(!a.shadows_follow);
    assert_eq!(a.elapsed, 0);
}

#[test]
fn diff_identical_is_empty() {
    let a = Attributes::default();
    let writes = diff_writes(&a, &a);
    assert!(writes.is_empty());
}

#[test]
fn diff_single_field() {
    let a = Attributes::default();
    let mut b = a;
    b.color = Vec3 { x: 1, y: 2, z: 3 };
    let writes = diff_writes(&a, &b);
    assert_eq!(writes.len(), 1);
    assert_eq!(writes[0].name, UniformName::Color);
    assert_eq!(writes[0].value, UniformValue::Vector(Vec3 { x: 1, y: 2, z: 3 }));
}

#[test]
fn diff_non_uniform_field_writes_nothing() {
    // The fixed light position feeds the per-frame light transform, not a
    // uniform slot, so changing it uploads nothing.
    let a = Attributes::default();
    let mut b = a;
    b.light_position = Vec3 { x: 1, y: 1, z: 1 };
    b.elapsed = 500;
    b.shadows_follow = true;
    b.shadows_orbit_radius = 77;
    let writes = diff_writes(&a, &b);
    assert!(writes.is_empty());
}

#[test]
fn diff_order_follows_declaration() {
    let a = Attributes::default();
    let mut b = a;
    b.toon_factor = 0;
    b.shadows = false;
    b.hatching_steps = 7;
    let writes = diff_writes(&a, &b);
    let names: Vec<UniformName> = writes.iter().map(|w| w.name).collect();
    assert_eq!(
        names,
        vec![UniformName::ToonFactor, UniformName::Shadows, UniformName::HatchingSteps]
    );
    assert_eq!(writes[1].value, UniformValue::Unsigned(0));
}

#[test]
fn full_writes_cover_every_uniform() {
    let a = Attributes::default();
    let writes = full_writes(&a);
    assert_eq!(writes.len(), 15);
    assert_eq!(writes[0].name, UniformName::ProjectionMatrix);
    assert_eq!(writes[3].value, UniformValue::Scalar(0));
    assert_eq!(writes[8].name, UniformName::Shadows);
    assert_eq!(writes[8].value, UniformValue::Unsigned(1));
    assert_eq!(writes[14].name, UniformName::HatchingIntensity);
}

#[test]
fn uniform_name_strings() {
    assert_eq!(UniformName::ProjectionMatrix.as_str(), "projection_matrix");
    assert_eq!(UniformName::CameraPosition.as_str(), "camera_position");
    assert_eq!(UniformName::Color.as_str(), "color");
    assert_eq!(UniformName::ModelSize.as_str(), "model_size");
    assert_eq!(UniformName::DistanceShadingPower.as_str(), "distance_shading_power");
    assert_eq!(UniformName::DistanceShadingConstrict.as_str(), "distance_shading_constrict");
    assert_eq!(UniformName::ToonFactor.as_str(), "toon_factor");
    assert_eq!(UniformName::DistanceShadingChannel.as_str(), "distance_shading_channel");
    assert_eq!(UniformName::Shadows.as_str(), "shadows");
    assert_eq!(UniformName::LightSpaceMatrixShadow.as_str(), "lightSpaceMatrix");
    assert_eq!(UniformName::LightSpaceMatrixMain.as_str(), "light_space_matrix");
    assert_eq!(UniformName::LightVector.as_str(), "light_vector");
    assert_eq!(UniformName::ScreenSize.as_str(), "screen_size");
}

#[test]
fn channel_codes() {
    assert_eq!(channel_code(DistanceShadingChannel::NoChannel), 0);
    assert_eq!(channel_code(DistanceShadingChannel::Hue), 1);
    assert_eq!(channel_code(DistanceShadingChannel::Saturation), 2);
    assert_eq!(channel_code(DistanceShadingChannel::Value), 3);
    assert_eq!(bool_code(false), 0);
    assert_eq!(bool_code(true), 1);
}
