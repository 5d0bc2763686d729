//! Float-free vocabulary of the surface UI IR: roles, policies and kinds that
//! primitives and widgets carry.

use vstd::prelude::*;

verus! {

/// Accessibility data attached to a widget.
#[derive(Debug, Clone)]
pub struct SurfaceAccessibilityData {
    pub label: String,
    pub role: SemanticRole,
    pub description: Option<String>,
    pub hint: Option<String>,
}

#[derive(Debug, Clone, Copy, PartialEq, Eq, Structural)]
pub enum SemanticRole {
    /// No semantic role; not called `None`, which would shadow `Option::None`.
    Unspecified,
    Button,
    Slider,
    Knob,
    NumberBox,
    TextInput,
    Heading,
    Status,
    Alert,
    Terminal,
    Node,
    Canvas,
}

#[derive(Debug, Clone, Copy, PartialEq, Eq, Structural)]
pub enum ContradictionSeverity {
    /// Divergence: minor difference in perception.
    Divergence,
    /// Inconsistency: logical conflict.
    Inconsistency,
    /// Hostile: active reality corruption.
    Hostile,
}

#[derive(Debug, Clone, Copy, PartialEq, Eq, Structural)]
pub enum CausalAction {
    Rewired,
    Broken,
    Prioritized,
}

#[derive(Debug, Clone, Copy, PartialEq, Eq, Structural)]
pub enum ConstraintPolicy {
    /// Strict 8px grid alignment.
    Grid8,
    /// Semantic center (anchor to logic).
    SemanticCenter,
    /// Adaptive boundary.
    Adaptive,
}

/// How trustworthy a piece of displayed information is.
#[derive(Debug, Clone, Copy, PartialEq, Eq, Structural)]
pub enum ProvenanceLevel {
    /// Verified: system-guaranteed truth.
    Verified,
    /// Inferred: predicted or extrapolated.
    Inferred,
    /// Stale: outdated or potentially invalid.
    Stale,
    /// External: foreign or unverified source.
    External,
}

/// The trust rank of a level: Verified 3, Inferred 2, Stale 1, External 0.
pub open spec fn provenance_rank(level: ProvenanceLevel) -> int {
    match level {
        ProvenanceLevel::Verified => 3,
        ProvenanceLevel::Inferred => 2,
        ProvenanceLevel::Stale => 1,
        ProvenanceLevel::External => 0,
    }
}

#[derive(Debug, Clone, Copy, PartialEq, Eq, Structural)]
pub enum SnapshotKind {
    Evidence,
    Checkpoint,
    Trace,
}

#[derive(Debug, Clone, Copy, PartialEq, Eq, Structural)]
pub enum OverlapLaw {
    /// Individual components are lines, union is solid.
    TotalResponse,
    /// Front hides back with an SDF-negative margin.
    SemanticOcclusion,
    /// Overlap creates a third solid state (lightness shift).
    BooleanIntersection,
}

#[derive(Debug, Clone, Copy, PartialEq, Eq, Structural)]
pub enum ProjectionPolicy {
    /// One slice per frame.
    Instant,
    /// Batch processing of all slices since last frame.
    HistoricalWindow,
    /// Locked snapshot.
    ForensicFreeze,
}

#[derive(Debug, Clone, Copy, PartialEq, Eq, Structural)]
pub enum TemporalStrategy {
    /// Snap to latest truth (playhead, trigger).
    Instant,
    /// Stiffness 600, damping 50.
    Fast,
    /// Stiffness 300, damping 35.
    Standard,
    /// Stiffness 150, damping 25.
    Slow,
}

#[derive(Debug, Clone, Copy, PartialEq, Eq, Structural)]
pub enum FrameStyle {
    Standard,
    Message,
    Number,
    Field,
    /// Comment frame, drawn without a style; not called `None`, which would shadow `Option::None`.
    Comment,
    /// Privileged: authority drawer and forensic panels only.
    AuthorityGlass,
}

#[derive(Debug, Clone, Copy, PartialEq, Eq, Structural)]
pub enum ArcKind {
    Value,
    Modulation,
    Progress,
}

#[derive(Debug, Clone, Copy, PartialEq, Eq, Structural)]
pub enum IndicatorKind {
    Bang,
    Toggle,
    Radio,
    Led,
}

#[derive(Debug, Clone, Copy, PartialEq, Eq, Structural)]
pub enum SignalType {
    Control,
    Audio,
    Event,
    Trigger,
}

#[derive(Debug, Clone, Copy, PartialEq, Eq, Structural)]
pub enum ConnectorState {
    Default,
    Hover,
    Active,
    Illegal,
}

} // verus!
