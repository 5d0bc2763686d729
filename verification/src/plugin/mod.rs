//! The plugin layer: parameter interaction, crash reports, observation and safety.

pub mod crash;
pub mod interaction;
pub mod keyed;
pub mod observation;
pub mod safety;
