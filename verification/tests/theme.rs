use adaptive_theme::color::{Color, Factor};
use adaptive_theme::platform::Platform;
use adaptive_theme::preferences::{ProbeReading, SystemPreferences};
use adaptive_theme::theme::Theme;

fn prefs(dark_mode: bool, accent: Option<u32>) -> SystemPreferences {
    SystemPreferences { dark_mode, accent_color: accent.map(Color::from_hex) }
}

fn hover_of(hex: u32) -> Color {
    Color::darken_color(Color::from_hex(hex), Factor { numer: 9, denom: 10 })
}

/// The fixed fields of a theme as hex words, in declaration order, with the
/// title bar height in third place.
fn fixed_fields(t: &Theme) -> [u32; 21] {
    [
        t.titlebar_bg.to_hex(),
        t.titlebar_border.to_hex(),
        t.titlebar_height,
        t.close_button_bg.to_hex(),
        t.close_button_corner.to_hex(),
        t.minimize_button_bg.to_hex(),
        t.minimize_button_corner.to_hex(),
        t.maximize_button_bg.to_hex(),
        t.maximize_button_corner.to_hex(),
        t.background.to_hex(),
        t.input_bg.to_hex(),
        t.input_border.to_hex(),
        t.input_text.to_hex(),
        t.button_primary_text.to_hex(),
        t.button_secondary_bg.to_hex(),
        t.button_secondary_bg_hover.to_hex(),
        t.button_secondary_text.to_hex(),
        t.button_secondary_border.to_hex(),
        t.text_primary.to_hex(),
        t.text_secondary.to_hex(),
        t.text_error.to_hex(),
    ]
}

const MACOS_DARK: [u32; 21] = [
    0x202020, 0x1E1E1E, 22, 0xFF5F57, 0xE04943, 0xFF8D2E, 0xDEA123, 0x28C940, 0x1AAB29, 0x1E1E1E,
    0x2D2D2D, 0x404040, 0xFFFFFF, 0xFFFFFF, 0x2D2D2D, 0x383838, 0xFFFFFF, 0x505050, 0xFFFFFF,
    0xA0A0A0, 0xFF6B6B,
];

const MACOS_LIGHT: [u32; 21] = [
    0xE8E8E8, 0xD0D0D0, 22, 0xFF5F57, 0xE04943, 0xFF8D2E, 0xDEA123, 0x28C940, 0x1AAB29, 0xEFEFEF,
    0xFFFFFF, 0xCCCCCC, 0x000000, 0xFFFFFF, 0xFFFFFF, 0xF8F8F8, 0x000000, 0xB8B8B8, 0x000000,
    0x666666, 0xCC0000,
];

const WINDOWS_DARK: [u32; 21] = [
    0x202020, 0x1A1A1A, 32, 0xE81123, 0xC50F1F, 0x202020, 0x1A1A1A, 0x202020, 0x1A1A1A, 0x1E1E1E,
    0x2D2D2D, 0x404040, 0xFFFFFF, 0xFFFFFF, 0x2D2D2D, 0x383838, 0xFFFFFF, 0x505050, 0xFFFFFF,
    0xA0A0A0, 0xFF6B6B,
];

const WINDOWS_LIGHT: [u32; 21] = [
    0xF0F0F0, 0xDFDFDF, 32, 0xE81123, 0xC50F1F, 0xF0F0F0, 0xDFDFDF, 0xF0F0F0, 0xDFDFDF, 0xFFFFFF,
    0xFFFFFF, 0x8A8A8A, 0x000000, 0xFFFFFF, 0xFFFFFF, 0xF5F5F5, 0x000000, 0x8A8A8A, 0x000000,
    0x605E5C, 0xA80000,
];

const LINUX_DARK: [u32; 21] = [
    0x303030, 0x1F1F1F, 36, 0x444444, 0x555555, 0x444444, 0x555555, 0x444444, 0x555555, 0x242424,
    0x3A3A3A, 0x4A4A4A, 0xFFFFFF, 0xFFFFFF, 0x3A3A3A, 0x454545, 0xFFFFFF, 0x4A4A4A, 0xFFFFFF,
    0x9A9996, 0xFF7B63,
];

const LINUX_LIGHT: [u32; 21] = [
    0xEBEBEB, 0xD5D0CC, 36, 0xDEDDDA, 0xC0BFBC, 0xDEDDDA, 0xC0BFBC, 0xDEDDDA, 0xC0BFBC, 0xFAFAFA,
    0xFFFFFF, 0xCDC7C2, 0x2E3436, 0xFFFFFF, 0xF6F5F4, 0xECEBE9, 0x2E3436, 0xCDC7C2, 0x2E3436,
    0x5E5C64, 0xE01B24,
];

fn table(platform: Platform, dark: bool) -> [u32; 21] {
    match (platform, dark) {
        (Platform::MacOS, true) => MACOS_DARK,
        (Platform::MacOS, false) => MACOS_LIGHT,
        (Platform::Windows, true) => WINDOWS_DARK,
        (Platform::Windows, false) => WINDOWS_LIGHT,
        (Platform::Linux, true) => LINUX_DARK,
        (Platform::Linux, false) => LINUX_LIGHT,
    }
}

const PLATFORMS: [Platform; 3] = [Platform::MacOS, Platform::Windows, Platform::Linux];

#[test]
fn macos_dark_with_system_accent() {
    let t = Theme::build(Platform::MacOS, prefs(true, Some(0x007AFF)));
    assert_eq!(t.button_primary_bg.to_hex(), 0x007AFF);
    assert_eq!(t.button_primary_bg_hover, hover_of(0x007AFF));
    assert_eq!(t.button_primary_bg_hover.to_hex(), 0x006DE5);
    assert_eq!(t.background.to_hex(), 0x1E1E1E);
}

#[test]
fn windows_light_without_accent() {
    let t = Theme::build(Platform::Windows, prefs(false, None));
    assert_eq!(t.button_primary_bg.to_hex(), 0x0078D4);
    assert_eq!(t.titlebar_height as f32, 32.0);
    assert_eq!(t.button_primary_bg_hover.to_hex(), 0x006CBE);
}

#[test]
fn linux_dark_with_adwaita_accent() {
    let t = Theme::build(Platform::Linux, prefs(true, Some(0x3584E4)));
    assert_eq!(t.input_border_focused.to_hex(), 0x3584E4);
    assert_eq!(t.button_primary_bg.to_hex(), 0x3584E4);
    assert_eq!(t.button_primary_bg_hover, hover_of(0x3584E4));
    // 0x35 = 53 -> 47, 0x84 = 132 -> 118, 0xE4 = 228 -> 205
    assert_eq!(t.button_primary_bg_hover, Color { r: 47, g: 118, b: 205 });
    assert_eq!(fixed_fields(&t), LINUX_DARK);
}

#[test]
fn every_table_matches_its_literals() {
    for p in PLATFORMS {
        for dark in [true, false] {
            for accent in [None, Some(0x000000), Some(0xABCDEF)] {
                let t = Theme::build(p, prefs(dark, accent));
                assert_eq!(fixed_fields(&t), table(p, dark));
            }
        }
    }
}

#[test]
fn accent_drives_three_fields() {
    for p in PLATFORMS {
        for dark in [true, false] {
            for hex in [0x000000u32, 0xFFFFFF, 0x123456, 0xFF0000, 0x0A0A0A] {
                let t = Theme::build(p, prefs(dark, Some(hex)));
                assert_eq!(t.input_border_focused.to_hex(), hex);
                assert_eq!(t.button_primary_bg.to_hex(), hex);
                assert_eq!(t.button_primary_bg_hover, hover_of(hex));
            }
            let t = Theme::build(p, prefs(dark, None));
            assert_eq!(t.input_border_focused, p.default_accent());
            assert_eq!(t.button_primary_bg, p.default_accent());
            assert_eq!(t.button_primary_bg_hover, hover_of(p.default_accent().to_hex()));
        }
    }
}

#[test]
fn hover_uses_floor_not_rounding() {
    let t = Theme::build(Platform::MacOS, prefs(false, Some(0xFF00FF)));
    assert_eq!(t.button_primary_bg_hover, Color { r: 229, g: 0, b: 229 });
}

#[test]
fn modes_differ_in_background_and_primary_text() {
    for p in PLATFORMS {
        let dark = Theme::build(p, prefs(true, None));
        let light = Theme::build(p, prefs(false, None));
        assert_ne!(dark.background, light.background);
        assert_ne!(dark.text_primary, light.text_primary);
    }
}

#[test]
fn macos_window_controls_do_not_depend_on_mode() {
    let dark = Theme::build(Platform::MacOS, prefs(true, Some(0x112233)));
    let light = Theme::build(Platform::MacOS, prefs(false, None));
    assert_eq!(dark.close_button_bg, light.close_button_bg);
    assert_eq!(dark.close_button_corner, light.close_button_corner);
    assert_eq!(dark.minimize_button_bg, light.minimize_button_bg);
    assert_eq!(dark.minimize_button_corner, light.minimize_button_corner);
    assert_eq!(dark.maximize_button_bg, light.maximize_button_bg);
    assert_eq!(dark.maximize_button_corner, light.maximize_button_corner);
    assert_eq!(dark.close_button_bg.to_hex(), 0xFF5F57);
}

#[test]
fn windows_window_controls_follow_the_mode() {
    let dark = Theme::build(Platform::Windows, prefs(true, None));
    let light = Theme::build(Platform::Windows, prefs(false, None));
    assert_ne!(dark.minimize_button_bg, light.minimize_button_bg);
    assert_ne!(dark.maximize_button_bg, light.maximize_button_bg);
    assert_eq!(dark.close_button_bg, light.close_button_bg);
}

#[test]
fn title_bar_heights() {
    for dark in [true, false] {
        assert_eq!(Theme::build(Platform::MacOS, prefs(dark, None)).titlebar_height, 22);
        assert_eq!(Theme::build(Platform::Windows, prefs(dark, None)).titlebar_height, 32);
        assert_eq!(Theme::build(Platform::Linux, prefs(dark, None)).titlebar_height, 36);
    }
}

#[test]
fn build_dispatches_to_platform_builders() {
    for dark in [true, false] {
        for accent in [None, Some(Color::from_hex(0x00FF00))] {
            let p = SystemPreferences { dark_mode: dark, accent_color: accent };
            assert_eq!(Theme::build(Platform::MacOS, p), Theme::macos_with_preferences(dark, accent));
            assert_eq!(
                Theme::build(Platform::Windows, p),
                Theme::windows_with_preferences(dark, accent)
            );
            assert_eq!(Theme::build(Platform::Linux, p), Theme::linux_with_preferences(dark, accent));
        }
    }
}

#[test]
fn resolve_with_failed_probe_gives_light_default_theme() {
    for p in PLATFORMS {
        let t = Theme::resolve(&ProbeReading::unavailable(p));
        assert_eq!(t, Theme::build(p, prefs(false, None)));
        assert_eq!(fixed_fields(&t), table(p, false));
        assert_eq!(t.button_primary_bg, p.default_accent());
    }
}

#[test]
fn resolve_from_windows_colorization() {
    let t = Theme::resolve(&ProbeReading::Windows { colorization: Some(0xC412_3456) });
    assert_eq!(t.button_primary_bg.to_hex(), 0x123456);
    assert_eq!(t.input_border_focused.to_hex(), 0x123456);
    assert_eq!(fixed_fields(&t), WINDOWS_LIGHT);
}

#[test]
fn resolve_from_linux_settings() {
    let t = Theme::resolve(&ProbeReading::Linux {
        theme_name: Some(String::from("elementary")),
        prefer_dark: Some(true),
    });
    assert_eq!(t.button_primary_bg.to_hex(), 0x3689E6);
    assert_eq!(fixed_fields(&t), LINUX_DARK);
    let t = Theme::resolve(&ProbeReading::Linux {
        theme_name: Some(String::from("Breeze")),
        prefer_dark: None,
    });
    assert_eq!(t.button_primary_bg.to_hex(), 0x3584E4);
    assert_eq!(fixed_fields(&t), LINUX_LIGHT);
}

#[test]
fn resolve_from_macos_appearance() {
    let t = Theme::resolve(&ProbeReading::MacOS {
        dark_appearance: Some(true),
        accent: Some(Color::from_components(255, 149, 0)),
    });
    assert_eq!(t.button_primary_bg.to_hex(), 0xFF9500);
    assert_eq!(t.button_primary_bg_hover, Color { r: 229, g: 134, b: 0 });
    assert_eq!(fixed_fields(&t), MACOS_DARK);
}
