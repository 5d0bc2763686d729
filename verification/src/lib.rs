//! LimeStudio: verified core logic of the LimeStudio audio/UI framework.

pub mod graph;
pub mod lint;
pub mod plugin;
pub mod surface;
pub mod text;
