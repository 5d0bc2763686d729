//! Runtime input vocabulary, the interaction kernel and observed signals.

pub mod input;
pub mod interaction_kernel;
pub mod signal;
