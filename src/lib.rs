//! An immediate-mode widget layer: per-frame input snapshots, hit testing and
//! the state rules of buttons, check boxes, sliders and text boxes, and the
//! fitting and alignment of labels. Each widget call records the draw
//! requests for its widget; the caller hands them to a renderer.

pub mod geometry;
pub mod input;
pub mod text;
pub mod comps;
pub mod gui;
pub mod laws;
