//! Rendering services.

pub mod text_layout;
