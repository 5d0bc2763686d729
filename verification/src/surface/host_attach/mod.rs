//! Host attach layer: host-specific quirks, recorded per host and platform.

pub mod vst3_attach;

use vstd::prelude::*;

verus! {

#[derive(Debug, Clone, Copy, PartialEq, Eq, Structural)]
pub enum HostType {
    Cubase,
    Reaper,
    StudioOne,
    Logic,
    Ableton,
    Unknown,
}

#[derive(Debug, Clone, Copy, PartialEq, Eq, Structural)]
pub enum Platform {
    Windows,
    MacOS,
    Linux,
}

/// Host compatibility matrix — records, not religion.
#[derive(Debug, Clone, Copy, PartialEq, Eq, Structural)]
pub struct CompatibilityMatrix {
    pub resize_works: bool,
    pub focus_stealing: bool,
    pub keyboard_transparency: bool,
}

impl CompatibilityMatrix {
    /// The known quirks of a host on a platform: Cubase on Windows steals focus and is
    /// not keyboard-transparent; every other combination is assumed well-behaved.
    pub fn for_host(host: HostType, platform: Platform) -> (m: Self)
        ensures
            m.resize_works,
            m.focus_stealing == (host == HostType::Cubase && platform == Platform::Windows),
            m.keyboard_transparency == !(host == HostType::Cubase && platform == Platform::Windows),
    {
        match (host, platform) {
            (HostType::Cubase, Platform::Windows) => CompatibilityMatrix {
                resize_works: true,
                focus_stealing: true,
                keyboard_transparency: false,
            },
            _ => CompatibilityMatrix {
                resize_works: true,
                focus_stealing: false,
                keyboard_transparency: true,
            },
        }
    }
}

} // verus!
