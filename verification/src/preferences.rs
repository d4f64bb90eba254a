//! System preferences and how they are read off native query results.

use vstd::prelude::*;
use crate::color::{strip_alpha, Color};
use crate::platform::Platform;
use crate::text::{contains, has_substring};

verus! {

/// A snapshot of what the system prefers, taken at the moment of resolution.
/// `accent_color == None` means the system gave none and the platform's
/// default applies.
#[derive(Clone, Copy, Debug, PartialEq, Eq)]
pub struct SystemPreferences {
    pub dark_mode: bool,
    pub accent_color: Option<Color>,
}

/// What the native queries of one platform returned. `None` stands for a
/// query that failed, was unavailable or returned nothing.
#[derive(Debug, PartialEq, Eq)]
pub enum ProbeReading {
    /// Whether the effective appearance is dark, and the control accent colour.
    MacOS { dark_appearance: Option<bool>, accent: Option<Color> },
    /// The desktop composition colour as `0xAARRGGBB`.
    Windows { colorization: Option<u32> },
    /// The toolkit's theme name and its prefer-dark-theme flag.
    Linux { theme_name: Option<String>, prefer_dark: Option<bool> },
}

/// The accent of a known toolkit theme, by a substring of the theme's name.
pub open spec fn spec_theme_accent(name: Seq<char>) -> Option<Color> {
    if has_substring(name, "Adwaita"@) {
        Some(Color::from_hex(0x3584E4))
    } else if has_substring(name, "elementary"@) {
        Some(Color::from_hex(0x3689E6))
    } else {
        None
    }
}

/// The accent of a known toolkit theme: a name that holds `Adwaita` gives
/// `0x3584E4`, else one that holds `elementary` gives `0x3689E6`; any other
/// name gives none.
pub fn theme_accent(name: &str) -> (accent: Option<Color>)
    ensures
        accent == spec_theme_accent(name@),
{
    if contains(name, "Adwaita") {
        Some(Color::from_hex(0x3584E4))
    } else if contains(name, "elementary") {
        Some(Color::from_hex(0x3689E6))
    } else {
        None
    }
}

/// The system's accent, or the platform's default where it gave none.
pub open spec fn spec_accent_or_default(accent_color: Option<Color>, platform: Platform) -> Color {
    match accent_color {
        Some(c) => c,
        None => platform.default_accent(),
    }
}

/// The system's accent, or the platform's default where it gave none.
#[verifier::when_used_as_spec(spec_accent_or_default)]
pub fn accent_or_default(accent_color: Option<Color>, platform: Platform) -> (accent: Color)
    ensures
        accent == spec_accent_or_default(accent_color, platform),
        accent_color.is_none() ==> accent == platform.default_accent(),
        accent_color.is_some() ==> accent == accent_color.unwrap(),
{
    match accent_color {
        Some(c) => c,
        None => platform.default_accent(),
    }
}

impl SystemPreferences {
    /// The preferences assumed when nothing could be queried.
    pub open spec fn spec_unknown() -> SystemPreferences {
        SystemPreferences { dark_mode: false, accent_color: None }
    }

    /// The preferences assumed when nothing could be queried.
    #[verifier::when_used_as_spec(spec_unknown)]
    pub fn unknown() -> (prefs: SystemPreferences)
        ensures
            prefs == SystemPreferences::spec_unknown(),
    {
        SystemPreferences { dark_mode: false, accent_color: None }
    }

    /// The accent that drives a theme: the system's, or the platform's default.
    pub open spec fn spec_resolved_accent(self, platform: Platform) -> Color {
        accent_or_default(self.accent_color, platform)
    }

    /// The accent that drives a theme: the system's, or the platform's default.
    #[verifier::when_used_as_spec(spec_resolved_accent)]
    pub fn resolved_accent(self, platform: Platform) -> (accent: Color)
        ensures
            accent == self.spec_resolved_accent(platform),
    {
        accent_or_default(self.accent_color, platform)
    }

    /// The preferences that a reading stands for.
    pub open spec fn spec_probe(reading: ProbeReading) -> SystemPreferences {
        match reading {
            ProbeReading::MacOS { dark_appearance, accent } => SystemPreferences {
                dark_mode: dark_appearance == Some(true),
                accent_color: accent,
            },
            ProbeReading::Windows { colorization } => SystemPreferences {
                dark_mode: false,
                accent_color: match colorization {
                    Some(argb) => Some(Color::from_hex(argb)),
                    None => None,
                },
            },
            ProbeReading::Linux { theme_name, prefer_dark } => SystemPreferences {
                dark_mode: prefer_dark == Some(true),
                accent_color: match theme_name {
                    Some(name) => spec_theme_accent(name@),
                    None => None,
                },
            },
        }
    }

    /// Reads the preferences off what the native queries returned. A query
    /// without a result leaves its field unknown: light mode, no accent. On
    /// Windows the alpha byte of the colour is dropped and the mode is light.
    pub fn probe(reading: &ProbeReading) -> (prefs: SystemPreferences)
        ensures
            prefs == SystemPreferences::spec_probe(*reading),
            reading.nothing_read() ==> prefs == SystemPreferences::spec_unknown(),
    {
        match reading {
            ProbeReading::MacOS { dark_appearance, accent } => SystemPreferences {
                dark_mode: flag_or_false(*dark_appearance),
                accent_color: *accent,
            },
            ProbeReading::Windows { colorization } => SystemPreferences {
                dark_mode: false,
                accent_color: match colorization {
                    Some(argb) => Some(Color::from_hex(strip_alpha(*argb))),
                    None => None,
                },
            },
            ProbeReading::Linux { theme_name, prefer_dark } => SystemPreferences {
                dark_mode: flag_or_false(*prefer_dark),
                accent_color: match theme_name {
                    Some(name) => theme_accent(name.as_str()),
                    None => None,
                },
            },
        }
    }
}

/// A flag that was read, or `false` when it was not.
fn flag_or_false(flag: Option<bool>) -> (b: bool)
    ensures
        b == (flag == Some(true)),
{
    match flag {
        Some(b) => b,
        None => false,
    }
}

impl ProbeReading {
    /// The platform whose queries produced the reading.
    pub open spec fn spec_platform(&self) -> Platform {
        match *self {
            ProbeReading::MacOS { .. } => Platform::MacOS,
            ProbeReading::Windows { .. } => Platform::Windows,
            ProbeReading::Linux { .. } => Platform::Linux,
        }
    }

    /// The platform whose queries produced the reading.
    #[verifier::when_used_as_spec(spec_platform)]
    pub fn platform(&self) -> (p: Platform)
        ensures
            p == self.spec_platform(),
    {
        match self {
            ProbeReading::MacOS { .. } => Platform::MacOS,
            ProbeReading::Windows { .. } => Platform::Windows,
            ProbeReading::Linux { .. } => Platform::Linux,
        }
    }

    /// Every query of the reading came back without a result.
    pub open spec fn nothing_read(&self) -> bool {
        match *self {
            ProbeReading::MacOS { dark_appearance, accent } => dark_appearance.is_none()
                && accent.is_none(),
            ProbeReading::Windows { colorization } => colorization.is_none(),
            ProbeReading::Linux { theme_name, prefer_dark } => theme_name.is_none()
                && prefer_dark.is_none(),
        }
    }

    /// The reading of a platform whose queries all failed.
    pub fn unavailable(platform: Platform) -> (reading: ProbeReading)
        ensures
            reading.spec_platform() == platform,
            reading.nothing_read(),
            SystemPreferences::spec_probe(reading) == SystemPreferences::spec_unknown(),
    {
        match platform {
            Platform::MacOS => ProbeReading::MacOS { dark_appearance: None, accent: None },
            Platform::Windows => ProbeReading::Windows { colorization: None },
            Platform::Linux => ProbeReading::Linux { theme_name: None, prefer_dark: None },
        }
    }
}

/// A reading in which every query failed degrades to light mode without an
/// accent, whatever the platform.
pub proof fn lemma_failed_probe_is_unknown(reading: ProbeReading)
    requires
        reading.nothing_read(),
    ensures
        SystemPreferences::spec_probe(reading) == (SystemPreferences {
            dark_mode: false,
            accent_color: None,
        }),
{
}

} // verus!
