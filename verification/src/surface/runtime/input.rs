//! Normalized input vocabulary of the surface runtime (never bound to a windowing
//! library directly).

use vstd::prelude::*;

verus! {

#[derive(Debug, Clone, Copy, PartialEq, Eq, Structural)]
pub struct Modifiers {
    pub shift: bool,
    pub ctrl: bool,
    pub alt: bool,
}

impl Default for Modifiers {
    /// No modifier held.
    fn default() -> (m: Self)
        ensures
            !m.shift && !m.ctrl && !m.alt,
    {
        Modifiers { shift: false, ctrl: false, alt: false }
    }
}

#[derive(Debug, Clone, Copy, PartialEq, Eq, Structural)]
pub enum MouseButton {
    Left,
    Right,
    Middle,
}

#[derive(Debug, Clone, Copy, PartialEq, Eq, Structural)]
pub enum Key {
    Shift,
    Control,
    Alt,
    Space,
    Delete,
    Enter,
    Escape,
    Tab,
    Backspace,
    Up,
    Down,
    Left,
    Right,
    Char(char),
}

/// Event priority for the event bridge, lowest first.
#[derive(Debug, Clone, Copy, PartialEq, Eq, PartialOrd, Ord)]
pub enum EventPriority {
    /// Background tasks.
    Low,
    /// Normal move/interaction.
    Standard,
    /// Click, key, essential UI.
    High,
    /// OS resize, adapter changes.
    Critical,
}

/// The latest pointer position, packed for lock-free hand-over.
pub struct MoveState {
    pub packed: std::sync::atomic::AtomicU64,
    pub timestamp: std::sync::atomic::AtomicU64,
}

/// Packs the bit patterns of a position's x and y into one word: x in the high
/// 32 bits, y in the low 32 bits.
pub fn pack_position_bits(x_bits: u32, y_bits: u32) -> (packed: u64)
    ensures
        packed as int == x_bits as int * 0x1_0000_0000 + y_bits as int,
        (packed >> 32u64) as u32 == x_bits,
        packed as u32 == y_bits,
{
    let x = x_bits as u64;
    let y = y_bits as u64;
    let packed = (x << 32u64) | y;
    assert((x << 32u64) | y == x * 0x1_0000_0000 + y) by (bit_vector)
        requires
            x < 0x1_0000_0000,
            y < 0x1_0000_0000,
    ;
    assert(((x << 32u64) | y) >> 32u64 == x && ((x << 32u64) | y) as u32 == y as u32) by (bit_vector)
        requires
            x < 0x1_0000_0000,
            y < 0x1_0000_0000,
    ;
    packed
}

/// The kinds of surface input event, without their floating-point payloads.
#[derive(Debug, Clone, Copy, PartialEq, Eq, Structural)]
pub enum EventKind {
    PointerMove,
    PointerDown,
    PointerUp,
    KeyInput,
    Wheel,
    Focus,
    Resize,
}

/// The priority an event is queued with: moves are standard, resize and focus
/// changes are critical, every other discrete event is high.
pub open spec fn spec_event_priority(kind: EventKind) -> EventPriority {
    match kind {
        EventKind::PointerMove => EventPriority::Standard,
        EventKind::Resize | EventKind::Focus => EventPriority::Critical,
        _ => EventPriority::High,
    }
}

/// The priority the event bridge gives an event of this kind.
pub fn event_priority(kind: EventKind) -> (p: EventPriority)
    ensures
        p == spec_event_priority(kind),
{
    match kind {
        EventKind::PointerMove => EventPriority::Standard,
        EventKind::Resize | EventKind::Focus => EventPriority::Critical,
        _ => EventPriority::High,
    }
}

} // verus!
