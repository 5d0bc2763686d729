//! The surface layer: identifiers, trust records, interaction state and signals.

pub mod authority;
pub mod color;
pub mod host_attach;
pub mod input;
pub mod model;
pub mod render;
pub mod runtime;
pub mod scene;
pub mod ui_ir;
