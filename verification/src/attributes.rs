//! The render attributes: every tunable visual parameter, the diff that
//! decides which uniforms to upload, and the model of the GPU-side uniform
//! store that the diff is proved against.
//!
//! Scalars are fixed-point: thousandths of a unit. The enum and bool fields
//! are encoded as unsigned integers only at the GPU boundary, in
//! [`UniformValue::Unsigned`] writes.

use vstd::prelude::*;

verus! {

/// A two-component vector, in thousandths of a unit.
#[derive(Debug, Clone, Copy, PartialEq, Eq, Structural)]
pub struct Vec2 {
    pub x: i32,
    pub y: i32,
}

/// A three-component vector, in thousandths of a unit.
#[derive(Debug, Clone, Copy, PartialEq, Eq, Structural)]
pub struct Vec3 {
    pub x: i32,
    pub y: i32,
    pub z: i32,
}

/// A four-component vector, in thousandths of a unit.
#[derive(Debug, Clone, Copy, PartialEq, Eq, Structural)]
pub struct Vec4 {
    pub x: i32,
    pub y: i32,
    pub z: i32,
    pub w: i32,
}

/// A 4x4 matrix, stored as four columns, in thousandths of a unit.
#[derive(Debug, Clone, Copy, PartialEq, Eq, Structural)]
pub struct Mat4 {
    pub c0: Vec4,
    pub c1: Vec4,
    pub c2: Vec4,
    pub c3: Vec4,
}

impl Vec3 {
    /// The zero vector.
    pub fn zero() -> (v: Vec3)
        ensures
            v == (Vec3 { x: 0, y: 0, z: 0 }),
    {
        Vec3 { x: 0, y: 0, z: 0 }
    }

    /// Component-wise construction.
    pub fn new(x: i32, y: i32, z: i32) -> (v: Vec3)
        ensures
            v == (Vec3 { x, y, z }),
    {
        Vec3 { x, y, z }
    }
}

impl Mat4 {
    /// The all-zero matrix.
    pub fn zero() -> (m: Mat4)
        ensures
            m == Mat4::spec_zero(),
    {
        let zc = Vec4 { x: 0, y: 0, z: 0, w: 0 };
        Mat4 { c0: zc, c1: zc, c2: zc, c3: zc }
    }

    /// The all-zero matrix, at the specification level.
    pub open spec fn spec_zero() -> Mat4 {
        let zc = Vec4 { x: 0, y: 0, z: 0, w: 0 };
        Mat4 { c0: zc, c1: zc, c2: zc, c3: zc }
    }
}

/// Which HSV channel distance shading modulates.
#[derive(Debug, Clone, Copy, PartialEq, Eq, Structural)]
pub enum DistanceShadingChannel {
    NoChannel,
    Hue,
    Saturation,
    Value,
}

/// The integer code a [DistanceShadingChannel] is serialized to at the GPU
/// boundary, and nowhere else.
pub open spec fn spec_channel_code(c: DistanceShadingChannel) -> u32 {
    match c {
        DistanceShadingChannel::NoChannel => 0,
        DistanceShadingChannel::Hue => 1,
        DistanceShadingChannel::Saturation => 2,
        DistanceShadingChannel::Value => 3,
    }
}

/// Executable form of [spec_channel_code].
pub fn channel_code(c: DistanceShadingChannel) -> (code: u32)
    ensures
        code == spec_channel_code(c),
{
    match c {
        DistanceShadingChannel::NoChannel => 0,
        DistanceShadingChannel::Hue => 1,
        DistanceShadingChannel::Saturation => 2,
        DistanceShadingChannel::Value => 3,
    }
}

/// The integer code a bool is serialized to at the GPU boundary.
pub open spec fn spec_bool_code(b: bool) -> u32 {
    if b {
        1
    } else {
        0
    }
}

/// Executable form of [spec_bool_code].
pub fn bool_code(b: bool) -> (code: u32)
    ensures
        code == spec_bool_code(b),
{
    if b {
        1
    } else {
        0
    }
}

/// A plain value type holding every tunable visual parameter. A full copy is
/// read, mutated by the settings panel, and written back through
/// [crate::model::Model::set_attributes].
#[derive(Debug, Clone, Copy, PartialEq, Eq, Structural)]
pub struct Attributes {
    pub projection_matrix: Mat4,
    pub camera_position: Vec3,
    pub light_position: Vec3,
    pub color: Vec3,
    pub model_size: i32,
    pub distance_shading_power: i32,
    pub distance_shading_constrict: i32,
    pub toon_factor: i32,
    pub distance_shading_channel: DistanceShadingChannel,
    pub shadows: bool,
    pub shadows_follow: bool,
    pub shadows_orbit_radius: i32,
    pub elapsed: u64,
    pub vertex_color_mix: i32,
    pub replace_shadows_with_hatching: bool,
    pub hatching_depth: i32,
    pub hatching_steps: u32,
    pub hatching_frequency: u32,
    pub hatching_intensity: i32,
}

impl Attributes {
    /// The default attribute values: light above and to the side, a neutral
    /// base color, distance shading off, shadows on.
    pub open spec fn spec_default() -> Attributes {
        Attributes {
            projection_matrix: Mat4::spec_zero(),
            camera_position: Vec3 { x: 0, y: 0, z: 0 },
            light_position: Vec3 { x: 450, y: 250, z: -600i32 },
            color: Vec3 { x: 1000, y: 560, z: 720 },
            model_size: 0,
            distance_shading_power: 800,
            distance_shading_constrict: 200,
            toon_factor: 800,
            distance_shading_channel: DistanceShadingChannel::NoChannel,
            shadows: true,
            shadows_follow: false,
            shadows_orbit_radius: 0,
            elapsed: 0,
            vertex_color_mix: 0,
            replace_shadows_with_hatching: false,
            hatching_depth: 750,
            hatching_steps: 150,
            hatching_frequency: 4,
            hatching_intensity: 750,
        }
    }

    /// Bounds forced by the arithmetic the renderer does on vector fields:
    /// components stay well within one thousand full units.
    pub open spec fn wf(self) -> bool {
        &&& -1_000_000_000 <= self.camera_position.x <= 1_000_000_000
        &&& -1_000_000_000 <= self.camera_position.y <= 1_000_000_000
        &&& -1_000_000_000 <= self.camera_position.z <= 1_000_000_000
        &&& -1_000_000_000 <= self.light_position.x <= 1_000_000_000
        &&& -1_000_000_000 <= self.light_position.y <= 1_000_000_000
        &&& -1_000_000_000 <= self.light_position.z <= 1_000_000_000
    }
}

impl Default for Attributes {
    /// Executable form of [Attributes::spec_default].
    fn default() -> (a: Attributes)
        ensures
            a == Attributes::spec_default(),
            a.wf(),
    {
        Attributes {
            projection_matrix: Mat4::zero(),
            camera_position: Vec3::zero(),
            light_position: Vec3 { x: 450, y: 250, z: -600 },
            color: Vec3 { x: 1000, y: 560, z: 720 },
            model_size: 0,
            distance_shading_power: 800,
            distance_shading_constrict: 200,
            toon_factor: 800,
            distance_shading_channel: DistanceShadingChannel::NoChannel,
            shadows: true,
            shadows_follow: false,
            shadows_orbit_radius: 0,
            elapsed: 0,
            vertex_color_mix: 0,
            replace_shadows_with_hatching: false,
            hatching_depth: 750,
            hatching_steps: 150,
            hatching_frequency: 4,
            hatching_intensity: 750,
        }
    }
}

/// The name of a shader uniform. The string forms are a bit-exact contract
/// with the shader source.
#[derive(Debug, Clone, Copy, PartialEq, Eq, Structural)]
pub enum UniformName {
    ProjectionMatrix,
    CameraPosition,
    Color,
    ModelSize,
    DistanceShadingPower,
    DistanceShadingConstrict,
    ToonFactor,
    DistanceShadingChannel,
    Shadows,
    VertexColorMix,
    ReplaceShadowsWithHatching,
    HatchingDepth,
    HatchingSteps,
    HatchingFrequency,
    HatchingIntensity,
    LightSpaceMatrixShadow,
    LightSpaceMatrixMain,
    LightVector,
    ScreenSize,
}

/// The exact spelling of each uniform name in the shader source.
pub open spec fn spec_uniform_name_chars(n: UniformName) -> Seq<char> {
    match n {
        UniformName::ProjectionMatrix => "projection_matrix"@,
        UniformName::CameraPosition => "camera_position"@,
        UniformName::Color => "color"@,
        UniformName::ModelSize => "model_size"@,
        UniformName::DistanceShadingPower => "distance_shading_power"@,
        UniformName::DistanceShadingConstrict => "distance_shading_constrict"@,
        UniformName::ToonFactor => "toon_factor"@,
        UniformName::DistanceShadingChannel => "distance_shading_channel"@,
        UniformName::Shadows => "shadows"@,
        UniformName::VertexColorMix => "vertex_color_mix"@,
        UniformName::ReplaceShadowsWithHatching => "replace_shadows_with_hatching"@,
        UniformName::HatchingDepth => "hatching_depth"@,
        UniformName::HatchingSteps => "hatching_steps"@,
        UniformName::HatchingFrequency => "hatching_frequency"@,
        UniformName::HatchingIntensity => "hatching_intensity"@,
        UniformName::LightSpaceMatrixShadow => "lightSpaceMatrix"@,
        UniformName::LightSpaceMatrixMain => "light_space_matrix"@,
        UniformName::LightVector => "light_vector"@,
        UniformName::ScreenSize => "screen_size"@,
    }
}

impl UniformName {
    /// The uniform's name as the shader source spells it.
    pub fn as_str(&self) -> (s: &'static str)
        ensures
            s@ == spec_uniform_name_chars(*self),
    {
        match self {
            UniformName::ProjectionMatrix => "projection_matrix",
            UniformName::CameraPosition => "camera_position",
            UniformName::Color => "color",
            UniformName::ModelSize => "model_size",
            UniformName::DistanceShadingPower => "distance_shading_power",
            UniformName::DistanceShadingConstrict => "distance_shading_constrict",
            UniformName::ToonFactor => "toon_factor",
            UniformName::DistanceShadingChannel => "distance_shading_channel",
            UniformName::Shadows => "shadows",
            UniformName::VertexColorMix => "vertex_color_mix",
            UniformName::ReplaceShadowsWithHatching => "replace_shadows_with_hatching",
            UniformName::HatchingDepth => "hatching_depth",
            UniformName::HatchingSteps => "hatching_steps",
            UniformName::HatchingFrequency => "hatching_frequency",
            UniformName::HatchingIntensity => "hatching_intensity",
            UniformName::LightSpaceMatrixShadow => "lightSpaceMatrix",
            UniformName::LightSpaceMatrixMain => "light_space_matrix",
            UniformName::LightVector => "light_vector",
            UniformName::ScreenSize => "screen_size",
        }
    }
}

/// A value uploaded to a shader uniform.
#[derive(Debug, Clone, Copy, PartialEq, Eq, Structural)]
pub enum UniformValue {
    Matrix(Mat4),
    Vector(Vec3),
    Scalar(i32),
    Unsigned(u32),
}

/// One pending uniform upload: a name and the value to store under it.
#[derive(Debug, Clone, Copy, PartialEq, Eq, Structural)]
pub struct UniformWrite {
    pub name: UniformName,
    pub value: UniformValue,
}

/// The model of a shader program's uniform store: one slot per uniform the
/// attribute sync writes. Enum and bool attributes appear here only as their
/// integer codes.
#[derive(Debug, Clone, Copy, PartialEq, Eq, Structural)]
pub struct UniformState {
    pub projection_matrix: Mat4,
    pub camera_position: Vec3,
    pub color: Vec3,
    pub model_size: i32,
    pub distance_shading_power: i32,
    pub distance_shading_constrict: i32,
    pub toon_factor: i32,
    pub distance_shading_channel: u32,
    pub shadows: u32,
    pub vertex_color_mix: i32,
    pub replace_shadows_with_hatching: u32,
    pub hatching_depth: i32,
    pub hatching_steps: u32,
    pub hatching_frequency: u32,
    pub hatching_intensity: i32,
}

/// The uniform store that corresponds exactly to the attribute snapshot `a`.
pub open spec fn spec_uniforms_of(a: Attributes) -> UniformState {
    UniformState {
        projection_matrix: a.projection_matrix,
        camera_position: a.camera_position,
        color: a.color,
        model_size: a.model_size,
        distance_shading_power: a.distance_shading_power,
        distance_shading_constrict: a.distance_shading_constrict,
        toon_factor: a.toon_factor,
        distance_shading_channel: spec_channel_code(a.distance_shading_channel),
        shadows: spec_bool_code(a.shadows),
        vertex_color_mix: a.vertex_color_mix,
        replace_shadows_with_hatching: spec_bool_code(a.replace_shadows_with_hatching),
        hatching_depth: a.hatching_depth,
        hatching_steps: a.hatching_steps,
        hatching_frequency: a.hatching_frequency,
        hatching_intensity: a.hatching_intensity,
    }
}

/// One uniform write applied to a uniform store. A write whose value kind
/// does not fit its slot stores nothing.
pub open spec fn spec_apply_write(g: UniformState, w: UniformWrite) -> UniformState {
    match (w.name, w.value) {
        (UniformName::ProjectionMatrix, UniformValue::Matrix(m)) => UniformState {
            projection_matrix: m,
            ..g
        },
        (UniformName::CameraPosition, UniformValue::Vector(v)) => UniformState {
            camera_position: v,
            ..g
        },
        (UniformName::Color, UniformValue::Vector(v)) => UniformState { color: v, ..g },
        (UniformName::ModelSize, UniformValue::Scalar(s)) => UniformState { model_size: s, ..g },
        (UniformName::DistanceShadingPower, UniformValue::Scalar(s)) => UniformState {
            distance_shading_power: s,
            ..g
        },
        (UniformName::DistanceShadingConstrict, UniformValue::Scalar(s)) => UniformState {
            distance_shading_constrict: s,
            ..g
        },
        (UniformName::ToonFactor, UniformValue::Scalar(s)) => UniformState {
            toon_factor: s,
            ..g
        },
        (UniformName::DistanceShadingChannel, UniformValue::Unsigned(u)) => UniformState {
            distance_shading_channel: u,
            ..g
        },
        (UniformName::Shadows, UniformValue::Unsigned(u)) => UniformState { shadows: u, ..g },
        (UniformName::VertexColorMix, UniformValue::Scalar(s)) => UniformState {
            vertex_color_mix: s,
            ..g
        },
        (UniformName::ReplaceShadowsWithHatching, UniformValue::Unsigned(u)) => UniformState {
            replace_shadows_with_hatching: u,
            ..g
        },
        (UniformName::HatchingDepth, UniformValue::Scalar(s)) => UniformState {
            hatching_depth: s,
            ..g
        },
        (UniformName::HatchingSteps, UniformValue::Unsigned(u)) => UniformState {
            hatching_steps: u,
            ..g
        },
        (UniformName::HatchingFrequency, UniformValue::Unsigned(u)) => UniformState {
            hatching_frequency: u,
            ..g
        },
        (UniformName::HatchingIntensity, UniformValue::Scalar(s)) => UniformState {
            hatching_intensity: s,
            ..g
        },
        _ => g,
    }
}

/// A sequence of uniform writes applied in order.
pub open spec fn spec_apply_writes(g: UniformState, ws: Seq<UniformWrite>) -> UniformState
    decreases ws.len(),
{
    if ws.len() == 0 {
        g
    } else {
        spec_apply_write(spec_apply_writes(g, ws.drop_last()), ws.last())
    }
}

/// A one-element write list when `cond` holds, none otherwise: the shape of
/// each field's contribution to the diff.
pub open spec fn spec_opt_write(cond: bool, name: UniformName, value: UniformValue) -> Seq<
    UniformWrite,
> {
    if cond {
        seq![UniformWrite { name, value }]
    } else {
        Seq::<UniformWrite>::empty()
    }
}

/// The first five uniform-bearing fields' contribution to the diff:
/// one write per field of this group whose value changed.
pub open spec fn spec_diff_group1(old: Attributes, new: Attributes) -> Seq<UniformWrite> {
    spec_opt_write(
        new.projection_matrix != old.projection_matrix,
        UniformName::ProjectionMatrix,
        UniformValue::Matrix(new.projection_matrix),
    ) +     spec_opt_write(
        new.camera_position != old.camera_position,
        UniformName::CameraPosition,
        UniformValue::Vector(new.camera_position),
    ) +     spec_opt_write(
        new.color != old.color,
        UniformName::Color,
        UniformValue::Vector(new.color),
    ) +     spec_opt_write(
        new.model_size != old.model_size,
        UniformName::ModelSize,
        UniformValue::Scalar(new.model_size),
    ) +     spec_opt_write(
        new.distance_shading_power != old.distance_shading_power,
        UniformName::DistanceShadingPower,
        UniformValue::Scalar(new.distance_shading_power),
    )
}

/// The second five uniform-bearing fields' contribution to the diff:
/// one write per field of this group whose value changed.
pub open spec fn spec_diff_group2(old: Attributes, new: Attributes) -> Seq<UniformWrite> {
    spec_opt_write(
        new.distance_shading_constrict != old.distance_shading_constrict,
        UniformName::DistanceShadingConstrict,
        UniformValue::Scalar(new.distance_shading_constrict),
    ) +     spec_opt_write(
        new.toon_factor != old.toon_factor,
        UniformName::ToonFactor,
        UniformValue::Scalar(new.toon_factor),
    ) +     spec_opt_write(
        new.distance_shading_channel != old.distance_shading_channel,
        UniformName::DistanceShadingChannel,
        UniformValue::Unsigned(spec_channel_code(new.distance_shading_channel)),
    ) +     spec_opt_write(
        new.shadows != old.shadows,
        UniformName::Shadows,
        UniformValue::Unsigned(spec_bool_code(new.shadows)),
    ) +     spec_opt_write(
        new.vertex_color_mix != old.vertex_color_mix,
        UniformName::VertexColorMix,
        UniformValue::Scalar(new.vertex_color_mix),
    )
}

/// The third five uniform-bearing fields' contribution to the diff:
/// one write per field of this group whose value changed.
pub open spec fn spec_diff_group3(old: Attributes, new: Attributes) -> Seq<UniformWrite> {
    spec_opt_write(
        new.replace_shadows_with_hatching != old.replace_shadows_with_hatching,
        UniformName::ReplaceShadowsWithHatching,
        UniformValue::Unsigned(spec_bool_code(new.replace_shadows_with_hatching)),
    ) +     spec_opt_write(
        new.hatching_depth != old.hatching_depth,
        UniformName::HatchingDepth,
        UniformValue::Scalar(new.hatching_depth),
    ) +     spec_opt_write(
        new.hatching_steps != old.hatching_steps,
        UniformName::HatchingSteps,
        UniformValue::Unsigned(new.hatching_steps),
    ) +     spec_opt_write(
        new.hatching_frequency != old.hatching_frequency,
        UniformName::HatchingFrequency,
        UniformValue::Unsigned(new.hatching_frequency),
    ) +     spec_opt_write(
        new.hatching_intensity != old.hatching_intensity,
        UniformName::HatchingIntensity,
        UniformValue::Scalar(new.hatching_intensity),
    )
}

/// `g` with this group's five slots overwritten from `new`.
pub open spec fn spec_with_group1(g: UniformState, new: Attributes) -> UniformState {
    UniformState {
        projection_matrix: new.projection_matrix,
        camera_position: new.camera_position,
        color: new.color,
        model_size: new.model_size,
        distance_shading_power: new.distance_shading_power,
        ..g
    }
}

/// `g` with this group's five slots overwritten from `new`.
pub open spec fn spec_with_group2(g: UniformState, new: Attributes) -> UniformState {
    UniformState {
        distance_shading_constrict: new.distance_shading_constrict,
        toon_factor: new.toon_factor,
        distance_shading_channel: spec_channel_code(new.distance_shading_channel),
        shadows: spec_bool_code(new.shadows),
        vertex_color_mix: new.vertex_color_mix,
        ..g
    }
}

/// `g` with this group's five slots overwritten from `new`.
pub open spec fn spec_with_group3(g: UniformState, new: Attributes) -> UniformState {
    UniformState {
        replace_shadows_with_hatching: spec_bool_code(new.replace_shadows_with_hatching),
        hatching_depth: new.hatching_depth,
        hatching_steps: new.hatching_steps,
        hatching_frequency: new.hatching_frequency,
        hatching_intensity: new.hatching_intensity,
        ..g
    }
}

/// The writes that carry a uniform store matching `old` over to one matching
/// `new`: exactly one write per changed uniform-bearing field, in declaration
/// order.
pub open spec fn spec_diff_writes(old: Attributes, new: Attributes) -> Seq<UniformWrite> {
    spec_diff_group1(old, new) + spec_diff_group2(old, new) + spec_diff_group3(old, new)
}

/// The writes that push every uniform-bearing field of `a`, regardless of any
/// previous store contents: what a freshly linked program receives.
pub open spec fn spec_full_writes(a: Attributes) -> Seq<UniformWrite> {
    seq![
        UniformWrite {
            name: UniformName::ProjectionMatrix,
            value: UniformValue::Matrix(a.projection_matrix),
        },
        UniformWrite {
            name: UniformName::CameraPosition,
            value: UniformValue::Vector(a.camera_position),
        },
        UniformWrite {
            name: UniformName::Color,
            value: UniformValue::Vector(a.color),
        },
        UniformWrite {
            name: UniformName::ModelSize,
            value: UniformValue::Scalar(a.model_size),
        },
        UniformWrite {
            name: UniformName::DistanceShadingPower,
            value: UniformValue::Scalar(a.distance_shading_power),
        },
        UniformWrite {
            name: UniformName::DistanceShadingConstrict,
            value: UniformValue::Scalar(a.distance_shading_constrict),
        },
        UniformWrite {
            name: UniformName::ToonFactor,
            value: UniformValue::Scalar(a.toon_factor),
        },
        UniformWrite {
            name: UniformName::DistanceShadingChannel,
            value: UniformValue::Unsigned(spec_channel_code(a.distance_shading_channel)),
        },
        UniformWrite {
            name: UniformName::Shadows,
            value: UniformValue::Unsigned(spec_bool_code(a.shadows)),
        },
        UniformWrite {
            name: UniformName::VertexColorMix,
            value: UniformValue::Scalar(a.vertex_color_mix),
        },
        UniformWrite {
            name: UniformName::ReplaceShadowsWithHatching,
            value: UniformValue::Unsigned(spec_bool_code(a.replace_shadows_with_hatching)),
        },
        UniformWrite {
            name: UniformName::HatchingDepth,
            value: UniformValue::Scalar(a.hatching_depth),
        },
        UniformWrite {
            name: UniformName::HatchingSteps,
            value: UniformValue::Unsigned(a.hatching_steps),
        },
        UniformWrite {
            name: UniformName::HatchingFrequency,
            value: UniformValue::Unsigned(a.hatching_frequency),
        },
        UniformWrite {
            name: UniformName::HatchingIntensity,
            value: UniformValue::Scalar(a.hatching_intensity),
        },
    ]
}

/// Compute this group's contribution to the diff.
fn diff_group1(old: &Attributes, new: &Attributes) -> (writes: Vec<UniformWrite>)
    ensures
        writes@ == spec_diff_group1(*old, *new),
{
    let mut writes: Vec<UniformWrite> = Vec::new();
    if new.projection_matrix != old.projection_matrix {
        writes.push(UniformWrite {
            name: UniformName::ProjectionMatrix,
            value: UniformValue::Matrix(new.projection_matrix),
        });
    }
    if new.camera_position != old.camera_position {
        writes.push(UniformWrite {
            name: UniformName::CameraPosition,
            value: UniformValue::Vector(new.camera_position),
        });
    }
    if new.color != old.color {
        writes.push(UniformWrite {
            name: UniformName::Color,
            value: UniformValue::Vector(new.color),
        });
    }
    if new.model_size != old.model_size {
        writes.push(UniformWrite {
            name: UniformName::ModelSize,
            value: UniformValue::Scalar(new.model_size),
        });
    }
    if new.distance_shading_power != old.distance_shading_power {
        writes.push(UniformWrite {
            name: UniformName::DistanceShadingPower,
            value: UniformValue::Scalar(new.distance_shading_power),
        });
    }
    proof {
        assert(writes@ =~= spec_diff_group1(*old, *new));
    }
    writes
}

/// Compute this group's contribution to the diff.
fn diff_group2(old: &Attributes, new: &Attributes) -> (writes: Vec<UniformWrite>)
    ensures
        writes@ == spec_diff_group2(*old, *new),
{
    let mut writes: Vec<UniformWrite> = Vec::new();
    if new.distance_shading_constrict != old.distance_shading_constrict {
        writes.push(UniformWrite {
            name: UniformName::DistanceShadingConstrict,
            value: UniformValue::Scalar(new.distance_shading_constrict),
        });
    }
    if new.toon_factor != old.toon_factor {
        writes.push(UniformWrite {
            name: UniformName::ToonFactor,
            value: UniformValue::Scalar(new.toon_factor),
        });
    }
    if new.distance_shading_channel != old.distance_shading_channel {
        writes.push(UniformWrite {
            name: UniformName::DistanceShadingChannel,
            value: UniformValue::Unsigned(channel_code(new.distance_shading_channel)),
        });
    }
    if new.shadows != old.shadows {
        writes.push(UniformWrite {
            name: UniformName::Shadows,
            value: UniformValue::Unsigned(bool_code(new.shadows)),
        });
    }
    if new.vertex_color_mix != old.vertex_color_mix {
        writes.push(UniformWrite {
            name: UniformName::VertexColorMix,
            value: UniformValue::Scalar(new.vertex_color_mix),
        });
    }
    proof {
        assert(writes@ =~= spec_diff_group2(*old, *new));
    }
    writes
}

/// Compute this group's contribution to the diff.
fn diff_group3(old: &Attributes, new: &Attributes) -> (writes: Vec<UniformWrite>)
    ensures
        writes@ == spec_diff_group3(*old, *new),
{
    let mut writes: Vec<UniformWrite> = Vec::new();
    if new.replace_shadows_with_hatching != old.replace_shadows_with_hatching {
        writes.push(UniformWrite {
            name: UniformName::ReplaceShadowsWithHatching,
            value: UniformValue::Unsigned(bool_code(new.replace_shadows_with_hatching)),
        });
    }
    if new.hatching_depth != old.hatching_depth {
        writes.push(UniformWrite {
            name: UniformName::HatchingDepth,
            value: UniformValue::Scalar(new.hatching_depth),
        });
    }
    if new.hatching_steps != old.hatching_steps {
        writes.push(UniformWrite {
            name: UniformName::HatchingSteps,
            value: UniformValue::Unsigned(new.hatching_steps),
        });
    }
    if new.hatching_frequency != old.hatching_frequency {
        writes.push(UniformWrite {
            name: UniformName::HatchingFrequency,
            value: UniformValue::Unsigned(new.hatching_frequency),
        });
    }
    if new.hatching_intensity != old.hatching_intensity {
        writes.push(UniformWrite {
            name: UniformName::HatchingIntensity,
            value: UniformValue::Scalar(new.hatching_intensity),
        });
    }
    proof {
        assert(writes@ =~= spec_diff_group3(*old, *new));
    }
    writes
}

/// Compute the uniform writes that carry a store matching `old` over to one
/// matching `new`.
pub fn diff_writes(old: &Attributes, new: &Attributes) -> (writes: Vec<UniformWrite>)
    ensures
        writes@ == spec_diff_writes(*old, *new),
{
    let mut writes = diff_group1(old, new);
    let mut second = diff_group2(old, new);
    let mut third = diff_group3(old, new);
    writes.append(&mut second);
    writes.append(&mut third);
    writes
}

/// Compute the writes that push every uniform-bearing field of `a`.
pub fn full_writes(a: &Attributes) -> (writes: Vec<UniformWrite>)
    ensures
        writes@ == spec_full_writes(*a),
{
    let mut writes: Vec<UniformWrite> = Vec::new();
    writes.push(UniformWrite {
        name: UniformName::ProjectionMatrix,
        value: UniformValue::Matrix(a.projection_matrix),
    });
    writes.push(UniformWrite {
        name: UniformName::CameraPosition,
        value: UniformValue::Vector(a.camera_position),
    });
    writes.push(UniformWrite {
        name: UniformName::Color,
        value: UniformValue::Vector(a.color),
    });
    writes.push(UniformWrite {
        name: UniformName::ModelSize,
        value: UniformValue::Scalar(a.model_size),
    });
    writes.push(UniformWrite {
        name: UniformName::DistanceShadingPower,
        value: UniformValue::Scalar(a.distance_shading_power),
    });
    writes.push(UniformWrite {
        name: UniformName::DistanceShadingConstrict,
        value: UniformValue::Scalar(a.distance_shading_constrict),
    });
    writes.push(UniformWrite {
        name: UniformName::ToonFactor,
        value: UniformValue::Scalar(a.toon_factor),
    });
    writes.push(UniformWrite {
        name: UniformName::DistanceShadingChannel,
        value: UniformValue::Unsigned(channel_code(a.distance_shading_channel)),
    });
    writes.push(UniformWrite {
        name: UniformName::Shadows,
        value: UniformValue::Unsigned(bool_code(a.shadows)),
    });
    writes.push(UniformWrite {
        name: UniformName::VertexColorMix,
        value: UniformValue::Scalar(a.vertex_color_mix),
    });
    writes.push(UniformWrite {
        name: UniformName::ReplaceShadowsWithHatching,
        value: UniformValue::Unsigned(bool_code(a.replace_shadows_with_hatching)),
    });
    writes.push(UniformWrite {
        name: UniformName::HatchingDepth,
        value: UniformValue::Scalar(a.hatching_depth),
    });
    writes.push(UniformWrite {
        name: UniformName::HatchingSteps,
        value: UniformValue::Unsigned(a.hatching_steps),
    });
    writes.push(UniformWrite {
        name: UniformName::HatchingFrequency,
        value: UniformValue::Unsigned(a.hatching_frequency),
    });
    writes.push(UniformWrite {
        name: UniformName::HatchingIntensity,
        value: UniformValue::Scalar(a.hatching_intensity),
    });
    proof {
        assert(writes@ =~= spec_full_writes(*a));
    }
    writes
}

/// Applying a concatenation is applying the parts in order.
proof fn lemma_apply_concat(g: UniformState, a: Seq<UniformWrite>, b: Seq<UniformWrite>)
    ensures
        spec_apply_writes(g, a + b) == spec_apply_writes(spec_apply_writes(g, a), b),
    decreases b.len(),
{
    if b.len() == 0 {
        assert(a + b =~= a);
    } else {
        assert((a + b).drop_last() =~= a + b.drop_last());
        assert((a + b).last() == b.last());
        lemma_apply_concat(g, a, b.drop_last());
    }
}

/// Applying one optional write: the single write when its condition held,
/// nothing otherwise.
proof fn lemma_apply_opt(g: UniformState, cond: bool, name: UniformName, value: UniformValue)
    ensures
        spec_apply_writes(g, spec_opt_write(cond, name, value)) == if cond {
            spec_apply_write(g, UniformWrite { name, value })
        } else {
            g
        },
{
    reveal_with_fuel(spec_apply_writes, 3);
    if cond {
        let s = spec_opt_write(cond, name, value);
        assert(s.drop_last() =~= Seq::<UniformWrite>::empty());
        assert(s.last() == UniformWrite { name, value });
    }
}

/// Applying this group's diff to a store that already matches `old` on the
/// unchanged fields yields the store with the group's slots set from `new`.
proof fn lemma_apply_group1(g: UniformState, old: Attributes, new: Attributes)
    requires
        new.projection_matrix == old.projection_matrix ==> g.projection_matrix == new.projection_matrix,
        new.camera_position == old.camera_position ==> g.camera_position == new.camera_position,
        new.color == old.color ==> g.color == new.color,
        new.model_size == old.model_size ==> g.model_size == new.model_size,
        new.distance_shading_power == old.distance_shading_power ==> g.distance_shading_power == new.distance_shading_power,
    ensures
        spec_apply_writes(g, spec_diff_group1(old, new)) == spec_with_group1(g, new),
{
    let o1 = spec_opt_write(
        new.projection_matrix != old.projection_matrix,
        UniformName::ProjectionMatrix,
        UniformValue::Matrix(new.projection_matrix),
    );
    let o2 = spec_opt_write(
        new.camera_position != old.camera_position,
        UniformName::CameraPosition,
        UniformValue::Vector(new.camera_position),
    );
    let o3 = spec_opt_write(
        new.color != old.color,
        UniformName::Color,
        UniformValue::Vector(new.color),
    );
    let o4 = spec_opt_write(
        new.model_size != old.model_size,
        UniformName::ModelSize,
        UniformValue::Scalar(new.model_size),
    );
    let o5 = spec_opt_write(
        new.distance_shading_power != old.distance_shading_power,
        UniformName::DistanceShadingPower,
        UniformValue::Scalar(new.distance_shading_power),
    );
    let p1 = o1;
    let p2 = p1 + o2;
    let p3 = p2 + o3;
    let p4 = p3 + o4;
    let p5 = p4 + o5;
    assert(spec_diff_group1(old, new) == p5);
    let e1 = UniformState { projection_matrix: new.projection_matrix, ..g };
    let e2 = UniformState { camera_position: new.camera_position, ..e1 };
    let e3 = UniformState { color: new.color, ..e2 };
    let e4 = UniformState { model_size: new.model_size, ..e3 };
    let e5 = UniformState { distance_shading_power: new.distance_shading_power, ..e4 };
    lemma_apply_opt(
        g,
        new.projection_matrix != old.projection_matrix,
        UniformName::ProjectionMatrix,
        UniformValue::Matrix(new.projection_matrix),
    );
    assert(spec_apply_writes(g, p1) == e1);
    lemma_apply_concat(g, p1, o2);
    lemma_apply_opt(
        e1,
        new.camera_position != old.camera_position,
        UniformName::CameraPosition,
        UniformValue::Vector(new.camera_position),
    );
    assert(spec_apply_writes(g, p2) == e2);
    lemma_apply_concat(g, p2, o3);
    lemma_apply_opt(
        e2,
        new.color != old.color,
        UniformName::Color,
        UniformValue::Vector(new.color),
    );
    assert(spec_apply_writes(g, p3) == e3);
    lemma_apply_concat(g, p3, o4);
    lemma_apply_opt(
        e3,
        new.model_size != old.model_size,
        UniformName::ModelSize,
        UniformValue::Scalar(new.model_size),
    );
    assert(spec_apply_writes(g, p4) == e4);
    lemma_apply_concat(g, p4, o5);
    lemma_apply_opt(
        e4,
        new.distance_shading_power != old.distance_shading_power,
        UniformName::DistanceShadingPower,
        UniformValue::Scalar(new.distance_shading_power),
    );
    assert(spec_apply_writes(g, p5) == e5);
    assert(e5 == spec_with_group1(g, new));
}

/// Applying this group's diff to a store that already matches `old` on the
/// unchanged fields yields the store with the group's slots set from `new`.
proof fn lemma_apply_group2(g: UniformState, old: Attributes, new: Attributes)
    requires
        new.distance_shading_constrict == old.distance_shading_constrict ==> g.distance_shading_constrict == new.distance_shading_constrict,
        new.toon_factor == old.toon_factor ==> g.toon_factor == new.toon_factor,
        new.distance_shading_channel == old.distance_shading_channel ==> g.distance_shading_channel == spec_channel_code(new.distance_shading_channel),
        new.shadows == old.shadows ==> g.shadows == spec_bool_code(new.shadows),
        new.vertex_color_mix == old.vertex_color_mix ==> g.vertex_color_mix == new.vertex_color_mix,
    ensures
        spec_apply_writes(g, spec_diff_group2(old, new)) == spec_with_group2(g, new),
{
    let o1 = spec_opt_write(
        new.distance_shading_constrict != old.distance_shading_constrict,
        UniformName::DistanceShadingConstrict,
        UniformValue::Scalar(new.distance_shading_constrict),
    );
    let o2 = spec_opt_write(
        new.toon_factor != old.toon_factor,
        UniformName::ToonFactor,
        UniformValue::Scalar(new.toon_factor),
    );
    let o3 = spec_opt_write(
        new.distance_shading_channel != old.distance_shading_channel,
        UniformName::DistanceShadingChannel,
        UniformValue::Unsigned(spec_channel_code(new.distance_shading_channel)),
    );
    let o4 = spec_opt_write(
        new.shadows != old.shadows,
        UniformName::Shadows,
        UniformValue::Unsigned(spec_bool_code(new.shadows)),
    );
    let o5 = spec_opt_write(
        new.vertex_color_mix != old.vertex_color_mix,
        UniformName::VertexColorMix,
        UniformValue::Scalar(new.vertex_color_mix),
    );
    let p1 = o1;
    let p2 = p1 + o2;
    let p3 = p2 + o3;
    let p4 = p3 + o4;
    let p5 = p4 + o5;
    assert(spec_diff_group2(old, new) == p5);
    let e1 = UniformState { distance_shading_constrict: new.distance_shading_constrict, ..g };
    let e2 = UniformState { toon_factor: new.toon_factor, ..e1 };
    let e3 = UniformState { distance_shading_channel: spec_channel_code(new.distance_shading_channel), ..e2 };
    let e4 = UniformState { shadows: spec_bool_code(new.shadows), ..e3 };
    let e5 = UniformState { vertex_color_mix: new.vertex_color_mix, ..e4 };
    lemma_apply_opt(
        g,
        new.distance_shading_constrict != old.distance_shading_constrict,
        UniformName::DistanceShadingConstrict,
        UniformValue::Scalar(new.distance_shading_constrict),
    );
    assert(spec_apply_writes(g, p1) == e1);
    lemma_apply_concat(g, p1, o2);
    lemma_apply_opt(
        e1,
        new.toon_factor != old.toon_factor,
        UniformName::ToonFactor,
        UniformValue::Scalar(new.toon_factor),
    );
    assert(spec_apply_writes(g, p2) == e2);
    lemma_apply_concat(g, p2, o3);
    lemma_apply_opt(
        e2,
        new.distance_shading_channel != old.distance_shading_channel,
        UniformName::DistanceShadingChannel,
        UniformValue::Unsigned(spec_channel_code(new.distance_shading_channel)),
    );
    assert(spec_apply_writes(g, p3) == e3);
    lemma_apply_concat(g, p3, o4);
    lemma_apply_opt(
        e3,
        new.shadows != old.shadows,
        UniformName::Shadows,
        UniformValue::Unsigned(spec_bool_code(new.shadows)),
    );
    assert(spec_apply_writes(g, p4) == e4);
    lemma_apply_concat(g, p4, o5);
    lemma_apply_opt(
        e4,
        new.vertex_color_mix != old.vertex_color_mix,
        UniformName::VertexColorMix,
        UniformValue::Scalar(new.vertex_color_mix),
    );
    assert(spec_apply_writes(g, p5) == e5);
    assert(e5 == spec_with_group2(g, new));
}

/// Applying this group's diff to a store that already matches `old` on the
/// unchanged fields yields the store with the group's slots set from `new`.
proof fn lemma_apply_group3(g: UniformState, old: Attributes, new: Attributes)
    requires
        new.replace_shadows_with_hatching == old.replace_shadows_with_hatching ==> g.replace_shadows_with_hatching == spec_bool_code(new.replace_shadows_with_hatching),
        new.hatching_depth == old.hatching_depth ==> g.hatching_depth == new.hatching_depth,
        new.hatching_steps == old.hatching_steps ==> g.hatching_steps == new.hatching_steps,
        new.hatching_frequency == old.hatching_frequency ==> g.hatching_frequency == new.hatching_frequency,
        new.hatching_intensity == old.hatching_intensity ==> g.hatching_intensity == new.hatching_intensity,
    ensures
        spec_apply_writes(g, spec_diff_group3(old, new)) == spec_with_group3(g, new),
{
    let o1 = spec_opt_write(
        new.replace_shadows_with_hatching != old.replace_shadows_with_hatching,
        UniformName::ReplaceShadowsWithHatching,
        UniformValue::Unsigned(spec_bool_code(new.replace_shadows_with_hatching)),
    );
    let o2 = spec_opt_write(
        new.hatching_depth != old.hatching_depth,
        UniformName::HatchingDepth,
        UniformValue::Scalar(new.hatching_depth),
    );
    let o3 = spec_opt_write(
        new.hatching_steps != old.hatching_steps,
        UniformName::HatchingSteps,
        UniformValue::Unsigned(new.hatching_steps),
    );
    let o4 = spec_opt_write(
        new.hatching_frequency != old.hatching_frequency,
        UniformName::HatchingFrequency,
        UniformValue::Unsigned(new.hatching_frequency),
    );
    let o5 = spec_opt_write(
        new.hatching_intensity != old.hatching_intensity,
        UniformName::HatchingIntensity,
        UniformValue::Scalar(new.hatching_intensity),
    );
    let p1 = o1;
    let p2 = p1 + o2;
    let p3 = p2 + o3;
    let p4 = p3 + o4;
    let p5 = p4 + o5;
    assert(spec_diff_group3(old, new) == p5);
    let e1 = UniformState { replace_shadows_with_hatching: spec_bool_code(new.replace_shadows_with_hatching), ..g };
    let e2 = UniformState { hatching_depth: new.hatching_depth, ..e1 };
    let e3 = UniformState { hatching_steps: new.hatching_steps, ..e2 };
    let e4 = UniformState { hatching_frequency: new.hatching_frequency, ..e3 };
    let e5 = UniformState { hatching_intensity: new.hatching_intensity, ..e4 };
    lemma_apply_opt(
        g,
        new.replace_shadows_with_hatching != old.replace_shadows_with_hatching,
        UniformName::ReplaceShadowsWithHatching,
        UniformValue::Unsigned(spec_bool_code(new.replace_shadows_with_hatching)),
    );
    assert(spec_apply_writes(g, p1) == e1);
    lemma_apply_concat(g, p1, o2);
    lemma_apply_opt(
        e1,
        new.hatching_depth != old.hatching_depth,
        UniformName::HatchingDepth,
        UniformValue::Scalar(new.hatching_depth),
    );
    assert(spec_apply_writes(g, p2) == e2);
    lemma_apply_concat(g, p2, o3);
    lemma_apply_opt(
        e2,
        new.hatching_steps != old.hatching_steps,
        UniformName::HatchingSteps,
        UniformValue::Unsigned(new.hatching_steps),
    );
    assert(spec_apply_writes(g, p3) == e3);
    lemma_apply_concat(g, p3, o4);
    lemma_apply_opt(
        e3,
        new.hatching_frequency != old.hatching_frequency,
        UniformName::HatchingFrequency,
        UniformValue::Unsigned(new.hatching_frequency),
    );
    assert(spec_apply_writes(g, p4) == e4);
    lemma_apply_concat(g, p4, o5);
    lemma_apply_opt(
        e4,
        new.hatching_intensity != old.hatching_intensity,
        UniformName::HatchingIntensity,
        UniformValue::Scalar(new.hatching_intensity),
    );
    assert(spec_apply_writes(g, p5) == e5);
    assert(e5 == spec_with_group3(g, new));
}

/// Diffing a snapshot against itself yields no writes: the second of two
/// identical [crate::model::Model::set_attributes] calls uploads nothing.
pub proof fn lemma_diff_identical_empty(a: Attributes)
    ensures
        spec_diff_writes(a, a) =~= Seq::<UniformWrite>::empty(),
{
    assert(spec_diff_group1(a, a) =~= Seq::<UniformWrite>::empty());
    assert(spec_diff_group2(a, a) =~= Seq::<UniformWrite>::empty());
    assert(spec_diff_group3(a, a) =~= Seq::<UniformWrite>::empty());
}

/// Completeness of the diff: applied to a store that matches `old`, the diff
/// writes produce exactly the store that matches `new`. Together with
/// [lemma_diff_identical_empty] this gives the attribute-diff idempotence
/// law: a repeated upload of the same snapshot leaves the same GPU-visible
/// state as a single upload, with no duplicate and no missing writes.
pub proof fn lemma_diff_writes_complete(old: Attributes, new: Attributes)
    ensures
        spec_apply_writes(spec_uniforms_of(old), spec_diff_writes(old, new))
            == spec_uniforms_of(new),
{
    let g0 = spec_uniforms_of(old);
    let d1 = spec_diff_group1(old, new);
    let d2 = spec_diff_group2(old, new);
    let d3 = spec_diff_group3(old, new);
    let h1 = spec_with_group1(g0, new);
    let h2 = spec_with_group2(h1, new);
    let h3 = spec_with_group3(h2, new);
    lemma_apply_group1(g0, old, new);
    lemma_apply_concat(g0, d1, d2);
    lemma_apply_group2(h1, old, new);
    lemma_apply_concat(g0, d1 + d2, d3);
    lemma_apply_group3(h2, old, new);
    assert(h3 == spec_uniforms_of(new));
}

/// Applying the full-write list to any store produces the store matching `a`:
/// a freshly linked program ends fully synchronized whatever its initial
/// uniform contents.
pub proof fn lemma_full_writes_complete(g: UniformState, a: Attributes)
    ensures
        spec_apply_writes(g, spec_full_writes(a)) == spec_uniforms_of(a),
{
    let ws = spec_full_writes(a);
    assert(spec_apply_writes(g, ws) == spec_uniforms_of(a)) by {
        reveal_with_fuel(spec_apply_writes, 16);
    }
}

} // verus!
