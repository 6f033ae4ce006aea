//! Verified core of an interactive 3D model viewer.
//!
//! The library holds the render-attribute state machine, the orbit camera,
//! the multi-pass render pipeline description and the resource hot-reload
//! protocol. Quantities that the renderer treats as real numbers are carried
//! here as fixed-point integers: lengths and shading factors in thousandths
//! of a unit, angles in millionths of a turn. The thin shell around the
//! library converts these to the graphics API's floating-point types at the
//! GPU boundary.

pub mod attributes;
pub mod camera;
pub mod material;
pub mod mesh;
pub mod model;
pub mod resources;
pub mod texture_tester;
pub mod triangle;
pub mod ui;
pub mod viewport;
