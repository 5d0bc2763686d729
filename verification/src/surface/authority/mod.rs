//! The authority layer: forensic history, visible code and signal status.

pub mod signal_overlay;
pub mod time_travel;
pub mod visible_compiler;
