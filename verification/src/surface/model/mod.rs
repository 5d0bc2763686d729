//! Identifiers, provenance records and hit-test markers.

pub mod hit_test;
pub mod provenance;
pub mod stable_id;
