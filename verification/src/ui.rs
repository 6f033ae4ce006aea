//! The settings panel's state and decisions: the visualization presets, the
//! list of loadable model files, and the font texture the panel renderer
//! owns.
//!
//! The panel's widget construction and painting live in the shell; this
//! module holds what they decide on.

use vstd::prelude::*;
use crate::attributes::{Attributes, DistanceShadingChannel, UniformWrite, Vec3,
    spec_diff_writes, spec_uniforms_of};
use crate::model::Model;

verus! {

/// Describes visualization presets.
#[derive(Debug, Clone, Copy, PartialEq, Eq, Structural)]
pub enum Preset {
    Aerial,
    ChromaDepth,
    Plain,
}

/// The label of each preset, as the panel shows it.
pub open spec fn spec_preset_description(p: Preset) -> Seq<char> {
    match p {
        Preset::Plain => "Plain"@,
        Preset::Aerial => "Aerial"@,
        Preset::ChromaDepth => "Colored depth"@,
    }
}

impl Preset {
    /// The label of the preset, as the panel shows it.
    pub fn description(&self) -> (r: &'static str)
        ensures
            r@ == spec_preset_description(*self),
    {
        match self {
            Preset::Plain => "Plain",
            Preset::Aerial => "Aerial",
            Preset::ChromaDepth => "Colored depth",
        }
    }
}

/// The attribute snapshot a preset produces from the current one: hatching
/// replaces shadows with a fixed hatching look, toon shading is turned off,
/// and the distance-shading channel is chosen per preset.
pub open spec fn spec_preset_attributes(p: Preset, base: Attributes) -> Attributes {
    match p {
        Preset::Plain => Attributes {
            toon_factor: 0,
            vertex_color_mix: 1000,
            distance_shading_channel: DistanceShadingChannel::NoChannel,
            replace_shadows_with_hatching: true,
            hatching_depth: 750,
            hatching_steps: 150,
            hatching_frequency: 4,
            hatching_intensity: 750,
            ..base
        },
        Preset::Aerial => Attributes {
            toon_factor: 0,
            vertex_color_mix: 1000,
            distance_shading_channel: DistanceShadingChannel::Saturation,
            distance_shading_power: 600,
            replace_shadows_with_hatching: true,
            hatching_depth: 750,
            hatching_steps: 150,
            hatching_frequency: 4,
            hatching_intensity: 750,
            ..base
        },
        Preset::ChromaDepth => Attributes {
            toon_factor: 0,
            distance_shading_channel: DistanceShadingChannel::Hue,
            distance_shading_power: 600,
            replace_shadows_with_hatching: true,
            hatching_depth: 750,
            hatching_steps: 150,
            hatching_frequency: 4,
            hatching_intensity: 750,
            ..base
        },
    }
}

/// Describes actions the panel wishes the shell to execute: toggling the
/// debug overlay, loading another model file, and recoloring the clear
/// color.
#[derive(Debug, Clone, PartialEq, Eq)]
pub struct UiActions {
    pub show_debug: bool,
    pub file_to_load: String,
    pub clear_color: Vec3,
}

/// The panel's font texture, once the shell has handed it over.
#[derive(Debug, Clone, Copy, PartialEq, Eq, Structural)]
pub struct TextureInfo {
    pub width: u32,
    pub height: u32,
}

/// The state of the panel's renderer: the font texture it has received.
#[derive(Debug, Clone, PartialEq, Eq)]
pub struct UIRenderer {
    pub texture: Option<TextureInfo>,
}

impl UIRenderer {
    /// A renderer that has not received a texture yet.
    pub fn new() -> (r: UIRenderer)
        ensures
            r.texture is None,
    {
        UIRenderer { texture: None }
    }
}

/// Main struct for handling the user interface: the renderer state, the
/// selected preset, and the model files the panel offers.
#[derive(Debug, Clone, PartialEq, Eq)]
pub struct UI {
    pub renderer: UIRenderer,
    pub preset: Preset,
    pub model_files: Vec<String>,
}

impl UI {
    /// Initialize the user interface with the model files found in the
    /// resource directory; the preset starts plain.
    pub fn new(model_files: Vec<String>) -> (ui: UI)
        ensures
            ui.renderer.texture is None,
            ui.preset == Preset::Plain,
            ui.model_files == model_files,
    {
        UI { renderer: UIRenderer::new(), preset: Preset::Plain, model_files }
    }

    /// Record the font texture the shell uploaded for the panel. The pixel
    /// buffer holds one byte per texel.
    pub fn set_texture(&mut self, width: u32, height: u32, pixels: &Vec<u8>)
        requires
            pixels@.len() == (width as int) * (height as int),
        ensures
            *final(self) == (UI {
                renderer: UIRenderer { texture: Some(TextureInfo { width, height }) },
                ..*old(self)
            }),
    {
        self.renderer = UIRenderer { texture: Some(TextureInfo { width, height }) };
    }

    /// Applies the selected preset to the model renderer: the preset's
    /// attribute snapshot is pushed through the model's diffing setter, and
    /// returned along with the uniform writes the shell must apply.
    pub fn apply_preset(&self, model: &mut Model) -> (r: (Attributes, Vec<UniformWrite>))
        requires
            old(model).spec_wf(),
        ensures
            r.0 == spec_preset_attributes(self.preset, old(model).attributes),
            *final(model) == (Model {
                attributes: r.0,
                gpu: spec_uniforms_of(r.0),
                ..*old(model)
            }),
            final(model).spec_wf(),
            r.1@ == spec_diff_writes(old(model).attributes, r.0),
    {
        let mut preset = *model.get_attributes();
        match self.preset {
            Preset::Plain => {
                preset.toon_factor = 0;
                preset.vertex_color_mix = 1000;
                preset.distance_shading_channel = DistanceShadingChannel::NoChannel;

                preset.replace_shadows_with_hatching = true;
                preset.hatching_depth = 750;
                preset.hatching_steps = 150;
                preset.hatching_frequency = 4;
                preset.hatching_intensity = 750;
            },
            Preset::Aerial => {
                preset.toon_factor = 0;
                preset.vertex_color_mix = 1000;
                preset.distance_shading_channel = DistanceShadingChannel::Saturation;
                preset.distance_shading_power = 600;

                preset.replace_shadows_with_hatching = true;
                preset.hatching_depth = 750;
                preset.hatching_steps = 150;
                preset.hatching_frequency = 4;
                preset.hatching_intensity = 750;
            },
            Preset::ChromaDepth => {
                preset.toon_factor = 0;
                preset.distance_shading_channel = DistanceShadingChannel::Hue;
                preset.distance_shading_power = 600;

                preset.replace_shadows_with_hatching = true;
                preset.hatching_depth = 750;
                preset.hatching_steps = 150;
                preset.hatching_frequency = 4;
                preset.hatching_intensity = 750;
            },
        }
        let writes = model.set_attributes(preset);
        (preset, writes)
    }
}

} // verus!
