//! The closed set of platform families the themes are written for.

use vstd::prelude::*;
use crate::color::Color;

verus! {

/// The host operating system family.
#[derive(Clone, Copy, Debug, PartialEq, Eq, Structural)]
pub enum Platform {
    MacOS,
    Windows,
    Linux,
}

impl Platform {
    /// The accent used when the system reports none.
    pub open spec fn spec_default_accent(self) -> Color {
        match self {
            Platform::MacOS => Color::from_hex(0x007AFF),
            Platform::Windows => Color::from_hex(0x0078D4),
            Platform::Linux => Color::from_hex(0x3584E4),
        }
    }

    /// The accent used when the system reports none.
    #[verifier::when_used_as_spec(spec_default_accent)]
    pub fn default_accent(self) -> (c: Color)
        ensures
            c == self.spec_default_accent(),
    {
        match self {
            Platform::MacOS => Color::from_hex(0x007AFF),
            Platform::Windows => Color::from_hex(0x0078D4),
            Platform::Linux => Color::from_hex(0x3584E4),
        }
    }

    /// Title bar height in logical pixels.
    pub open spec fn spec_titlebar_height(self) -> u32 {
        match self {
            Platform::MacOS => 22,
            Platform::Windows => 32,
            Platform::Linux => 36,
        }
    }

    /// Title bar height in logical pixels.
    #[verifier::when_used_as_spec(spec_titlebar_height)]
    pub fn titlebar_height(self) -> (h: u32)
        ensures
            h == self.spec_titlebar_height(),
            h > 0,
    {
        match self {
            Platform::MacOS => 22,
            Platform::Windows => 32,
            Platform::Linux => 36,
        }
    }
}

} // verus!
