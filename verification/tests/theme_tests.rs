use vaudio::theme::{Color, Theme};

#[test]
fn next_cycles_through_themes() {
    assert_eq!(Theme::Neon.next(), Theme::Fire);
    assert_eq!(Theme::Fire.next(), Theme::Ice);
    assert_eq!(Theme::Ice.next(), Theme::Rainbow);
    assert_eq!(Theme::Rainbow.next(), Theme::Neon);
}

#[test]
fn four_steps_return_to_every_theme() {
    for theme in [Theme::Neon, Theme::Fire, Theme::Ice, Theme::Rainbow] {
        assert_ne!(theme.next(), theme);
        assert_ne!(theme.next().next(), theme);
        assert_ne!(theme.next().next().next(), theme);
        assert_eq!(theme.next().next().next().next(), theme);
    }
}

#[test]
fn theme_names_and_labels() {
    assert_eq!(Theme::Neon.name(), "neon");
    assert_eq!(Theme::Fire.name(), "fire");
    assert_eq!(Theme::Ice.name(), "ice");
    assert_eq!(Theme::Rainbow.name(), "rainbow");
    assert_eq!(Theme::Rainbow.label(), "RAINBOW");
}

#[test]
fn fire_palette_levels_run_from_dark_gray_to_white() {
    let palette = Theme::Fire.palette(false);
    assert_eq!(palette.levels[0], Color::DarkGray);
    assert_eq!(palette.levels[4], Color::White);
    assert_eq!(palette.primary, Color::Red);
    assert_eq!(palette.peak, Color::Yellow);
    assert_eq!(palette.accent, Color::LightRed);
    assert_eq!(palette.help_bg, Color::Black);
}

#[test]
fn rainbow_palette_has_its_own_levels() {
    let palette = Theme::Rainbow.palette(false);
    assert_eq!(
        palette.levels,
        [Color::Blue, Color::Magenta, Color::LightRed, Color::Yellow, Color::LightGreen]
    );
    assert_eq!(palette.help_bg, Color::DarkGray);
}

#[test]
fn no_color_palette_is_the_same_for_every_theme() {
    for theme in [Theme::Neon, Theme::Fire, Theme::Ice, Theme::Rainbow] {
        let palette = theme.palette(true);
        assert_eq!(palette.primary, Color::White);
        assert_eq!(
            palette.levels,
            [Color::DarkGray, Color::Gray, Color::White, Color::White, Color::White]
        );
        assert_eq!(palette.help_bg, Color::DarkGray);
        assert_eq!(palette.help_fg, Color::White);
    }
}

#[test]
fn neon_and_ice_palettes() {
    let neon = Theme::Neon.palette(false);
    assert_eq!(neon.primary, Color::Green);
    assert_eq!(neon.levels[2], Color::LightGreen);
    let ice = Theme::Ice.palette(false);
    assert_eq!(ice.primary, Color::LightCyan);
    assert_eq!(ice.accent, Color::Blue);
}
