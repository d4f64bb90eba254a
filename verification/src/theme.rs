//! The theme record and the per-platform palette builders.

use vstd::prelude::*;
use crate::color::{Color, Factor};
use crate::platform::Platform;
use crate::preferences::{accent_or_default, ProbeReading, SystemPreferences};

verus! {

/// Every colour and metric needed to draw one consistent look. All fields
/// are always populated; a theme is built whole and never edited.
#[derive(Clone, Copy, Debug, PartialEq, Eq)]
pub struct Theme {
    // Window chrome
    pub titlebar_bg: Color,
    pub titlebar_border: Color,
    /// Height of the title bar in logical pixels.
    pub titlebar_height: u32,
    // Window controls
    pub close_button_bg: Color,
    pub close_button_corner: Color,
    pub minimize_button_bg: Color,
    pub minimize_button_corner: Color,
    pub maximize_button_bg: Color,
    pub maximize_button_corner: Color,
    // Content area
    pub background: Color,
    // Inputs
    pub input_bg: Color,
    pub input_border: Color,
    pub input_border_focused: Color,
    pub input_text: Color,
    // Buttons
    pub button_primary_bg: Color,
    pub button_primary_bg_hover: Color,
    pub button_primary_text: Color,
    pub button_secondary_bg: Color,
    pub button_secondary_bg_hover: Color,
    pub button_secondary_text: Color,
    pub button_secondary_border: Color,
    // Text
    pub text_primary: Color,
    pub text_secondary: Color,
    pub text_error: Color,
}

impl Theme {
    /// The macOS theme for a mode and an accent: the fixed table of that
    /// mode, with the accent and its hover shade in the accent-driven fields.
    pub open spec fn spec_macos(is_dark: bool, accent: Color) -> Theme {
        if is_dark {
            Theme {
                titlebar_bg: Color::from_hex(0x202020),
                titlebar_border: Color::from_hex(0x1E1E1E),
                titlebar_height: Platform::MacOS.titlebar_height(),
                close_button_bg: Color::from_hex(0xFF5F57),
                close_button_corner: Color::from_hex(0xE04943),
                minimize_button_bg: Color::from_hex(0xFF8D2E),
                minimize_button_corner: Color::from_hex(0xDEA123),
                maximize_button_bg: Color::from_hex(0x28C940),
                maximize_button_corner: Color::from_hex(0x1AAB29),
                background: Color::from_hex(0x1E1E1E),
                input_bg: Color::from_hex(0x2D2D2D),
                input_border: Color::from_hex(0x404040),
                input_border_focused: accent,
                input_text: Color::from_hex(0xFFFFFF),
                button_primary_bg: accent,
                button_primary_bg_hover: accent.darkened(Factor::hover()),
                button_primary_text: Color::from_hex(0xFFFFFF),
                button_secondary_bg: Color::from_hex(0x2D2D2D),
                button_secondary_bg_hover: Color::from_hex(0x383838),
                button_secondary_text: Color::from_hex(0xFFFFFF),
                button_secondary_border: Color::from_hex(0x505050),
                text_primary: Color::from_hex(0xFFFFFF),
                text_secondary: Color::from_hex(0xA0A0A0),
                text_error: Color::from_hex(0xFF6B6B),
            }
        } else {
            Theme {
                titlebar_bg: Color::from_hex(0xE8E8E8),
                titlebar_border: Color::from_hex(0xD0D0D0),
                titlebar_height: Platform::MacOS.titlebar_height(),
                close_button_bg: Color::from_hex(0xFF5F57),
                close_button_corner: Color::from_hex(0xE04943),
                minimize_button_bg: Color::from_hex(0xFF8D2E),
                minimize_button_corner: Color::from_hex(0xDEA123),
                maximize_button_bg: Color::from_hex(0x28C940),
                maximize_button_corner: Color::from_hex(0x1AAB29),
                background: Color::from_hex(0xEFEFEF),
                input_bg: Color::from_hex(0xFFFFFF),
                input_border: Color::from_hex(0xCCCCCC),
                input_border_focused: accent,
                input_text: Color::from_hex(0x000000),
                button_primary_bg: accent,
                button_primary_bg_hover: accent.darkened(Factor::hover()),
                button_primary_text: Color::from_hex(0xFFFFFF),
                button_secondary_bg: Color::from_hex(0xFFFFFF),
                button_secondary_bg_hover: Color::from_hex(0xF8F8F8),
                button_secondary_text: Color::from_hex(0x000000),
                button_secondary_border: Color::from_hex(0xB8B8B8),
                text_primary: Color::from_hex(0x000000),
                text_secondary: Color::from_hex(0x666666),
                text_error: Color::from_hex(0xCC0000),
            }
        }
    }

    /// Builds the macOS theme. Without a system accent the platform's
    /// default accent is used.
    pub fn macos_with_preferences(is_dark: bool, accent_color: Option<Color>) -> (theme: Theme)
        ensures
            theme == Theme::spec_macos(is_dark, accent_or_default(accent_color, Platform::MacOS)),
    {
        let accent = accent_or_default(accent_color, Platform::MacOS);
        let accent_hover = Color::darken_color(accent, Factor::hover());
        if is_dark {
            Theme {
                titlebar_bg: Color::from_hex(0x202020),
                titlebar_border: Color::from_hex(0x1E1E1E),
                titlebar_height: Platform::MacOS.titlebar_height(),
                close_button_bg: Color::from_hex(0xFF5F57),
                close_button_corner: Color::from_hex(0xE04943),
                minimize_button_bg: Color::from_hex(0xFF8D2E),
                minimize_button_corner: Color::from_hex(0xDEA123),
                maximize_button_bg: Color::from_hex(0x28C940),
                maximize_button_corner: Color::from_hex(0x1AAB29),
                background: Color::from_hex(0x1E1E1E),
                input_bg: Color::from_hex(0x2D2D2D),
                input_border: Color::from_hex(0x404040),
                input_border_focused: accent,
                input_text: Color::from_hex(0xFFFFFF),
                button_primary_bg: accent,
                button_primary_bg_hover: accent_hover,
                button_primary_text: Color::from_hex(0xFFFFFF),
                button_secondary_bg: Color::from_hex(0x2D2D2D),
                button_secondary_bg_hover: Color::from_hex(0x383838),
                button_secondary_text: Color::from_hex(0xFFFFFF),
                button_secondary_border: Color::from_hex(0x505050),
                text_primary: Color::from_hex(0xFFFFFF),
                text_secondary: Color::from_hex(0xA0A0A0),
                text_error: Color::from_hex(0xFF6B6B),
            }
        } else {
            Theme {
                titlebar_bg: Color::from_hex(0xE8E8E8),
                titlebar_border: Color::from_hex(0xD0D0D0),
                titlebar_height: Platform::MacOS.titlebar_height(),
                close_button_bg: Color::from_hex(0xFF5F57),
                close_button_corner: Color::from_hex(0xE04943),
                minimize_button_bg: Color::from_hex(0xFF8D2E),
                minimize_button_corner: Color::from_hex(0xDEA123),
                maximize_button_bg: Color::from_hex(0x28C940),
                maximize_button_corner: Color::from_hex(0x1AAB29),
                background: Color::from_hex(0xEFEFEF),
                input_bg: Color::from_hex(0xFFFFFF),
                input_border: Color::from_hex(0xCCCCCC),
                input_border_focused: accent,
                input_text: Color::from_hex(0x000000),
                button_primary_bg: accent,
                button_primary_bg_hover: accent_hover,
                button_primary_text: Color::from_hex(0xFFFFFF),
                button_secondary_bg: Color::from_hex(0xFFFFFF),
                button_secondary_bg_hover: Color::from_hex(0xF8F8F8),
                button_secondary_text: Color::from_hex(0x000000),
                button_secondary_border: Color::from_hex(0xB8B8B8),
                text_primary: Color::from_hex(0x000000),
                text_secondary: Color::from_hex(0x666666),
                text_error: Color::from_hex(0xCC0000),
            }
        }
    }

    /// The Windows theme for a mode and an accent: the fixed table of that
    /// mode, with the accent and its hover shade in the accent-driven fields.
    pub open spec fn spec_windows(is_dark: bool, accent: Color) -> Theme {
        if is_dark {
            Theme {
                titlebar_bg: Color::from_hex(0x202020),
                titlebar_border: Color::from_hex(0x1A1A1A),
                titlebar_height: Platform::Windows.titlebar_height(),
                close_button_bg: Color::from_hex(0xE81123),
                close_button_corner: Color::from_hex(0xC50F1F),
                minimize_button_bg: Color::from_hex(0x202020),
                minimize_button_corner: Color::from_hex(0x1A1A1A),
                maximize_button_bg: Color::from_hex(0x202020),
                maximize_button_corner: Color::from_hex(0x1A1A1A),
                background: Color::from_hex(0x1E1E1E),
                input_bg: Color::from_hex(0x2D2D2D),
                input_border: Color::from_hex(0x404040),
                input_border_focused: accent,
                input_text: Color::from_hex(0xFFFFFF),
                button_primary_bg: accent,
                button_primary_bg_hover: accent.darkened(Factor::hover()),
                button_primary_text: Color::from_hex(0xFFFFFF),
                button_secondary_bg: Color::from_hex(0x2D2D2D),
                button_secondary_bg_hover: Color::from_hex(0x383838),
                button_secondary_text: Color::from_hex(0xFFFFFF),
                button_secondary_border: Color::from_hex(0x505050),
                text_primary: Color::from_hex(0xFFFFFF),
                text_secondary: Color::from_hex(0xA0A0A0),
                text_error: Color::from_hex(0xFF6B6B),
            }
        } else {
            Theme {
                titlebar_bg: Color::from_hex(0xF0F0F0),
                titlebar_border: Color::from_hex(0xDFDFDF),
                titlebar_height: Platform::Windows.titlebar_height(),
                close_button_bg: Color::from_hex(0xE81123),
                close_button_corner: Color::from_hex(0xC50F1F),
                minimize_button_bg: Color::from_hex(0xF0F0F0),
                minimize_button_corner: Color::from_hex(0xDFDFDF),
                maximize_button_bg: Color::from_hex(0xF0F0F0),
                maximize_button_corner: Color::from_hex(0xDFDFDF),
                background: Color::from_hex(0xFFFFFF),
                input_bg: Color::from_hex(0xFFFFFF),
                input_border: Color::from_hex(0x8A8A8A),
                input_border_focused: accent,
                input_text: Color::from_hex(0x000000),
                button_primary_bg: accent,
                button_primary_bg_hover: accent.darkened(Factor::hover()),
                button_primary_text: Color::from_hex(0xFFFFFF),
                button_secondary_bg: Color::from_hex(0xFFFFFF),
                button_secondary_bg_hover: Color::from_hex(0xF5F5F5),
                button_secondary_text: Color::from_hex(0x000000),
                button_secondary_border: Color::from_hex(0x8A8A8A),
                text_primary: Color::from_hex(0x000000),
                text_secondary: Color::from_hex(0x605E5C),
                text_error: Color::from_hex(0xA80000),
            }
        }
    }

    /// Builds the Windows theme. Without a system accent the platform's
    /// default accent is used.
    pub fn windows_with_preferences(is_dark: bool, accent_color: Option<Color>) -> (theme: Theme)
        ensures
            theme == Theme::spec_windows(is_dark, accent_or_default(accent_color, Platform::Windows)),
    {
        let accent = accent_or_default(accent_color, Platform::Windows);
        let accent_hover = Color::darken_color(accent, Factor::hover());
        if is_dark {
            Theme {
                titlebar_bg: Color::from_hex(0x202020),
                titlebar_border: Color::from_hex(0x1A1A1A),
                titlebar_height: Platform::Windows.titlebar_height(),
                close_button_bg: Color::from_hex(0xE81123),
                close_button_corner: Color::from_hex(0xC50F1F),
                minimize_button_bg: Color::from_hex(0x202020),
                minimize_button_corner: Color::from_hex(0x1A1A1A),
                maximize_button_bg: Color::from_hex(0x202020),
                maximize_button_corner: Color::from_hex(0x1A1A1A),
                background: Color::from_hex(0x1E1E1E),
                input_bg: Color::from_hex(0x2D2D2D),
                input_border: Color::from_hex(0x404040),
                input_border_focused: accent,
                input_text: Color::from_hex(0xFFFFFF),
                button_primary_bg: accent,
                button_primary_bg_hover: accent_hover,
                button_primary_text: Color::from_hex(0xFFFFFF),
                button_secondary_bg: Color::from_hex(0x2D2D2D),
                button_secondary_bg_hover: Color::from_hex(0x383838),
                button_secondary_text: Color::from_hex(0xFFFFFF),
                button_secondary_border: Color::from_hex(0x505050),
                text_primary: Color::from_hex(0xFFFFFF),
                text_secondary: Color::from_hex(0xA0A0A0),
                text_error: Color::from_hex(0xFF6B6B),
            }
        } else {
            Theme {
                titlebar_bg: Color::from_hex(0xF0F0F0),
                titlebar_border: Color::from_hex(0xDFDFDF),
                titlebar_height: Platform::Windows.titlebar_height(),
                close_button_bg: Color::from_hex(0xE81123),
                close_button_corner: Color::from_hex(0xC50F1F),
                minimize_button_bg: Color::from_hex(0xF0F0F0),
                minimize_button_corner: Color::from_hex(0xDFDFDF),
                maximize_button_bg: Color::from_hex(0xF0F0F0),
                maximize_button_corner: Color::from_hex(0xDFDFDF),
                background: Color::from_hex(0xFFFFFF),
                input_bg: Color::from_hex(0xFFFFFF),
                input_border: Color::from_hex(0x8A8A8A),
                input_border_focused: accent,
                input_text: Color::from_hex(0x000000),
                button_primary_bg: accent,
                button_primary_bg_hover: accent_hover,
                button_primary_text: Color::from_hex(0xFFFFFF),
                button_secondary_bg: Color::from_hex(0xFFFFFF),
                button_secondary_bg_hover: Color::from_hex(0xF5F5F5),
                button_secondary_text: Color::from_hex(0x000000),
                button_secondary_border: Color::from_hex(0x8A8A8A),
                text_primary: Color::from_hex(0x000000),
                text_secondary: Color::from_hex(0x605E5C),
                text_error: Color::from_hex(0xA80000),
            }
        }
    }

    /// The Linux theme for a mode and an accent: the fixed table of that
    /// mode, with the accent and its hover shade in the accent-driven fields.
    pub open spec fn spec_linux(is_dark: bool, accent: Color) -> Theme {
        if is_dark {
            Theme {
                titlebar_bg: Color::from_hex(0x303030),
                titlebar_border: Color::from_hex(0x1F1F1F),
                titlebar_height: Platform::Linux.titlebar_height(),
                close_button_bg: Color::from_hex(0x444444),
                close_button_corner: Color::from_hex(0x555555),
                minimize_button_bg: Color::from_hex(0x444444),
                minimize_button_corner: Color::from_hex(0x555555),
                maximize_button_bg: Color::from_hex(0x444444),
                maximize_button_corner: Color::from_hex(0x555555),
                background: Color::from_hex(0x242424),
                input_bg: Color::from_hex(0x3A3A3A),
                input_border: Color::from_hex(0x4A4A4A),
                input_border_focused: accent,
                input_text: Color::from_hex(0xFFFFFF),
                button_primary_bg: accent,
                button_primary_bg_hover: accent.darkened(Factor::hover()),
                button_primary_text: Color::from_hex(0xFFFFFF),
                button_secondary_bg: Color::from_hex(0x3A3A3A),
                button_secondary_bg_hover: Color::from_hex(0x454545),
                button_secondary_text: Color::from_hex(0xFFFFFF),
                button_secondary_border: Color::from_hex(0x4A4A4A),
                text_primary: Color::from_hex(0xFFFFFF),
                text_secondary: Color::from_hex(0x9A9996),
                text_error: Color::from_hex(0xFF7B63),
            }
        } else {
            Theme {
                titlebar_bg: Color::from_hex(0xEBEBEB),
                titlebar_border: Color::from_hex(0xD5D0CC),
                titlebar_height: Platform::Linux.titlebar_height(),
                close_button_bg: Color::from_hex(0xDEDDDA),
                close_button_corner: Color::from_hex(0xC0BFBC),
                minimize_button_bg: Color::from_hex(0xDEDDDA),
                minimize_button_corner: Color::from_hex(0xC0BFBC),
                maximize_button_bg: Color::from_hex(0xDEDDDA),
                maximize_button_corner: Color::from_hex(0xC0BFBC),
                background: Color::from_hex(0xFAFAFA),
                input_bg: Color::from_hex(0xFFFFFF),
                input_border: Color::from_hex(0xCDC7C2),
                input_border_focused: accent,
                input_text: Color::from_hex(0x2E3436),
                button_primary_bg: accent,
                button_primary_bg_hover: accent.darkened(Factor::hover()),
                button_primary_text: Color::from_hex(0xFFFFFF),
                button_secondary_bg: Color::from_hex(0xF6F5F4),
                button_secondary_bg_hover: Color::from_hex(0xECEBE9),
                button_secondary_text: Color::from_hex(0x2E3436),
                button_secondary_border: Color::from_hex(0xCDC7C2),
                text_primary: Color::from_hex(0x2E3436),
                text_secondary: Color::from_hex(0x5E5C64),
                text_error: Color::from_hex(0xE01B24),
            }
        }
    }

    /// Builds the Linux theme. Without a system accent the platform's
    /// default accent is used.
    pub fn linux_with_preferences(is_dark: bool, accent_color: Option<Color>) -> (theme: Theme)
        ensures
            theme == Theme::spec_linux(is_dark, accent_or_default(accent_color, Platform::Linux)),
    {
        let accent = accent_or_default(accent_color, Platform::Linux);
        let accent_hover = Color::darken_color(accent, Factor::hover());
        if is_dark {
            Theme {
                titlebar_bg: Color::from_hex(0x303030),
                titlebar_border: Color::from_hex(0x1F1F1F),
                titlebar_height: Platform::Linux.titlebar_height(),
                close_button_bg: Color::from_hex(0x444444),
                close_button_corner: Color::from_hex(0x555555),
                minimize_button_bg: Color::from_hex(0x444444),
                minimize_button_corner: Color::from_hex(0x555555),
                maximize_button_bg: Color::from_hex(0x444444),
                maximize_button_corner: Color::from_hex(0x555555),
                background: Color::from_hex(0x242424),
                input_bg: Color::from_hex(0x3A3A3A),
                input_border: Color::from_hex(0x4A4A4A),
                input_border_focused: accent,
                input_text: Color::from_hex(0xFFFFFF),
                button_primary_bg: accent,
                button_primary_bg_hover: accent_hover,
                button_primary_text: Color::from_hex(0xFFFFFF),
                button_secondary_bg: Color::from_hex(0x3A3A3A),
                button_secondary_bg_hover: Color::from_hex(0x454545),
                button_secondary_text: Color::from_hex(0xFFFFFF),
                button_secondary_border: Color::from_hex(0x4A4A4A),
                text_primary: Color::from_hex(0xFFFFFF),
                text_secondary: Color::from_hex(0x9A9996),
                text_error: Color::from_hex(0xFF7B63),
            }
        } else {
            Theme {
                titlebar_bg: Color::from_hex(0xEBEBEB),
                titlebar_border: Color::from_hex(0xD5D0CC),
                titlebar_height: Platform::Linux.titlebar_height(),
                close_button_bg: Color::from_hex(0xDEDDDA),
                close_button_corner: Color::from_hex(0xC0BFBC),
                minimize_button_bg: Color::from_hex(0xDEDDDA),
                minimize_button_corner: Color::from_hex(0xC0BFBC),
                maximize_button_bg: Color::from_hex(0xDEDDDA),
                maximize_button_corner: Color::from_hex(0xC0BFBC),
                background: Color::from_hex(0xFAFAFA),
                input_bg: Color::from_hex(0xFFFFFF),
                input_border: Color::from_hex(0xCDC7C2),
                input_border_focused: accent,
                input_text: Color::from_hex(0x2E3436),
                button_primary_bg: accent,
                button_primary_bg_hover: accent_hover,
                button_primary_text: Color::from_hex(0xFFFFFF),
                button_secondary_bg: Color::from_hex(0xF6F5F4),
                button_secondary_bg_hover: Color::from_hex(0xECEBE9),
                button_secondary_text: Color::from_hex(0x2E3436),
                button_secondary_border: Color::from_hex(0xCDC7C2),
                text_primary: Color::from_hex(0x2E3436),
                text_secondary: Color::from_hex(0x5E5C64),
                text_error: Color::from_hex(0xE01B24),
            }
        }
    }

    /// The theme of a platform under given preferences.
    pub open spec fn spec_build(platform: Platform, prefs: SystemPreferences) -> Theme {
        let accent = prefs.resolved_accent(platform);
        match platform {
            Platform::MacOS => Theme::spec_macos(prefs.dark_mode, accent),
            Platform::Windows => Theme::spec_windows(prefs.dark_mode, accent),
            Platform::Linux => Theme::spec_linux(prefs.dark_mode, accent),
        }
    }

    /// Builds the complete theme of a platform. The platform and the mode pick
    /// one fixed table; the resolved accent fills the focused input border and
    /// the primary button, and nine tenths of it the primary button's hover.
    pub fn build(platform: Platform, prefs: SystemPreferences) -> (theme: Theme)
        ensures
            theme == Theme::spec_build(platform, prefs),
            theme.input_border_focused == prefs.resolved_accent(platform),
            theme.button_primary_bg == prefs.resolved_accent(platform),
            theme.button_primary_bg_hover == prefs.resolved_accent(platform).darkened(
                Factor::hover(),
            ),
            theme.titlebar_height == platform.titlebar_height(),
            theme.titlebar_height > 0,
    {
        match platform {
            Platform::MacOS => Theme::macos_with_preferences(prefs.dark_mode, prefs.accent_color),
            Platform::Windows => Theme::windows_with_preferences(
                prefs.dark_mode,
                prefs.accent_color,
            ),
            Platform::Linux => Theme::linux_with_preferences(prefs.dark_mode, prefs.accent_color),
        }
    }

    /// Resolves the theme from what the native queries returned: reads the
    /// preferences off the reading and builds the theme of its platform. A
    /// reading in which every query failed gives the light theme with the
    /// platform's default accent.
    pub fn resolve(reading: &ProbeReading) -> (theme: Theme)
        ensures
            theme == Theme::spec_build(reading.platform(), SystemPreferences::spec_probe(*reading)),
            reading.nothing_read() ==> theme == Theme::spec_build(
                reading.platform(),
                SystemPreferences::unknown(),
            ),
    {
        let prefs = SystemPreferences::probe(reading);
        Theme::build(reading.platform(), prefs)
    }
}

/// One accent drives the focused input border and both primary button
/// backgrounds: the first two are the resolved accent itself, the hover is
/// the resolved accent darkened by nine tenths.
pub proof fn lemma_accent_drives_theme(platform: Platform, prefs: SystemPreferences)
    ensures
        Theme::spec_build(platform, prefs).input_border_focused == accent_or_default(
            prefs.accent_color,
            platform,
        ),
        Theme::spec_build(platform, prefs).button_primary_bg == accent_or_default(
            prefs.accent_color,
            platform,
        ),
        Theme::spec_build(platform, prefs).button_primary_bg_hover == accent_or_default(
            prefs.accent_color,
            platform,
        ).darkened(Factor::hover()),
{
}

/// On every platform the dark and the light theme differ in the content
/// background and in the primary text colour, whatever the accents.
pub proof fn lemma_modes_differ(
    platform: Platform,
    dark_accent: Option<Color>,
    light_accent: Option<Color>,
)
    ensures
        ({
            let dark = Theme::spec_build(
                platform,
                SystemPreferences { dark_mode: true, accent_color: dark_accent },
            );
            let light = Theme::spec_build(
                platform,
                SystemPreferences { dark_mode: false, accent_color: light_accent },
            );
            dark.background != light.background && dark.text_primary != light.text_primary
        }),
{
}

/// Nothing but the three accent-driven fields depends on the accent: two
/// themes of one platform and mode agree once those fields are made equal.
pub proof fn lemma_accent_touches_three_fields(
    platform: Platform,
    dark_mode: bool,
    a: Option<Color>,
    b: Option<Color>,
)
    ensures
        ({
            let ta = Theme::spec_build(platform, SystemPreferences { dark_mode, accent_color: a });
            let tb = Theme::spec_build(platform, SystemPreferences { dark_mode, accent_color: b });
            tb == (Theme {
                input_border_focused: tb.input_border_focused,
                button_primary_bg: tb.button_primary_bg,
                button_primary_bg_hover: tb.button_primary_bg_hover,
                ..ta
            })
        }),
{
}

/// The macOS window controls are the same in every mode and under every
/// accent; the Windows minimise and maximise controls change with the mode.
pub proof fn lemma_window_controls(a: SystemPreferences, b: SystemPreferences)
    ensures
        ({
            let ta = Theme::spec_build(Platform::MacOS, a);
            let tb = Theme::spec_build(Platform::MacOS, b);
            &&& ta.close_button_bg == tb.close_button_bg
            &&& ta.close_button_corner == tb.close_button_corner
            &&& ta.minimize_button_bg == tb.minimize_button_bg
            &&& ta.minimize_button_corner == tb.minimize_button_corner
            &&& ta.maximize_button_bg == tb.maximize_button_bg
            &&& ta.maximize_button_corner == tb.maximize_button_corner
        }),
        a.dark_mode != b.dark_mode ==> ({
            let wa = Theme::spec_build(Platform::Windows, a);
            let wb = Theme::spec_build(Platform::Windows, b);
            wa.minimize_button_bg != wb.minimize_button_bg && wa.maximize_button_bg
                != wb.maximize_button_bg
        }),
{
}

} // verus!
