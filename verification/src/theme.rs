//! Colour themes and their palettes.
use vstd::prelude::*;

verus! {

/// A colour theme; `next` cycles through them in declaration order.
#[derive(Debug, Clone, Copy, PartialEq, Eq, Structural)]
pub enum Theme {
    Neon,
    Fire,
    Ice,
    Rainbow,
}

/// The terminal colours that the palettes use.
#[derive(Debug, Clone, Copy, PartialEq, Eq, Structural)]
pub enum Color {
    Black,
    Red,
    Green,
    Yellow,
    Blue,
    Magenta,
    Cyan,
    Gray,
    DarkGray,
    LightRed,
    LightGreen,
    LightCyan,
    White,
}

/// The colours a theme paints with: `levels` runs from low to high intensity.
#[derive(Debug, Clone, Copy)]
pub struct Palette {
    pub primary: Color,
    pub peak: Color,
    pub accent: Color,
    pub levels: [Color; 5],
    pub help_bg: Color,
    pub help_fg: Color,
}

/// The theme that follows `theme` in the cycle Neon, Fire, Ice, Rainbow, Neon.
pub open spec fn next_theme(theme: Theme) -> Theme {
    match theme {
        Theme::Neon => Theme::Fire,
        Theme::Fire => Theme::Ice,
        Theme::Ice => Theme::Rainbow,
        Theme::Rainbow => Theme::Neon,
    }
}

/// The lower-case name of a theme.
pub open spec fn theme_name(theme: Theme) -> Seq<char> {
    match theme {
        Theme::Neon => "neon"@,
        Theme::Fire => "fire"@,
        Theme::Ice => "ice"@,
        Theme::Rainbow => "rainbow"@,
    }
}

/// The upper-case label of a theme, as the status bar shows it.
pub open spec fn theme_label(theme: Theme) -> Seq<char> {
    match theme {
        Theme::Neon => "NEON"@,
        Theme::Fire => "FIRE"@,
        Theme::Ice => "ICE"@,
        Theme::Rainbow => "RAINBOW"@,
    }
}

/// `p` has exactly the given colours.
pub open spec fn palette_is(
    p: Palette,
    primary: Color,
    peak: Color,
    accent: Color,
    levels: Seq<Color>,
    help_bg: Color,
    help_fg: Color,
) -> bool {
    &&& p.primary == primary
    &&& p.peak == peak
    &&& p.accent == accent
    &&& p.levels@ == levels
    &&& p.help_bg == help_bg
    &&& p.help_fg == help_fg
}

/// The palette of `theme`; with `no_color` every theme gets the same grey palette.
pub open spec fn theme_palette(theme: Theme, no_color: bool, p: Palette) -> bool {
    if no_color {
        palette_is(
            p,
            Color::White,
            Color::White,
            Color::White,
            seq![Color::DarkGray, Color::Gray, Color::White, Color::White, Color::White],
            Color::DarkGray,
            Color::White,
        )
    } else {
        match theme {
            Theme::Neon => palette_is(
                p,
                Color::Green,
                Color::White,
                Color::Cyan,
                seq![Color::DarkGray, Color::Green, Color::LightGreen, Color::Cyan, Color::White],
                Color::DarkGray,
                Color::White,
            ),
            Theme::Fire => palette_is(
                p,
                Color::Red,
                Color::Yellow,
                Color::LightRed,
                seq![Color::DarkGray, Color::Red, Color::LightRed, Color::Yellow, Color::White],
                Color::Black,
                Color::White,
            ),
            Theme::Ice => palette_is(
                p,
                Color::LightCyan,
                Color::White,
                Color::Blue,
                seq![Color::DarkGray, Color::Blue, Color::Cyan, Color::LightCyan, Color::White],
                Color::Black,
                Color::White,
            ),
            Theme::Rainbow => palette_is(
                p,
                Color::Magenta,
                Color::Yellow,
                Color::LightGreen,
                seq![Color::Blue, Color::Magenta, Color::LightRed, Color::Yellow, Color::LightGreen],
                Color::DarkGray,
                Color::White,
            ),
        }
    }
}

impl Theme {
    /// The next theme in the cycle.
    pub fn next(self) -> (t: Theme)
        ensures
            t == next_theme(self),
    {
        match self {
            Theme::Neon => Theme::Fire,
            Theme::Fire => Theme::Ice,
            Theme::Ice => Theme::Rainbow,
            Theme::Rainbow => Theme::Neon,
        }
    }

    /// The lower-case name of the theme (what `Display` prints).
    pub fn name(self) -> (s: &'static str)
        ensures
            s@ == theme_name(self),
    {
        match self {
            Theme::Neon => "neon",
            Theme::Fire => "fire",
            Theme::Ice => "ice",
            Theme::Rainbow => "rainbow",
        }
    }

    /// The upper-case label of the theme.
    pub fn label(self) -> (s: &'static str)
        ensures
            s@ == theme_label(self),
    {
        match self {
            Theme::Neon => "NEON",
            Theme::Fire => "FIRE",
            Theme::Ice => "ICE",
            Theme::Rainbow => "RAINBOW",
        }
    }

    /// The palette of this theme, or the monochrome palette when `no_color` is set.
    pub fn palette(self, no_color: bool) -> (p: Palette)
        ensures
            theme_palette(self, no_color, p),
    {
        if no_color {
            return Palette {
                primary: Color::White,
                peak: Color::White,
                accent: Color::White,
                levels: [Color::DarkGray, Color::Gray, Color::White, Color::White, Color::White],
                help_bg: Color::DarkGray,
                help_fg: Color::White,
            };
        }
        match self {
            Theme::Neon => Palette {
                primary: Color::Green,
                peak: Color::White,
                accent: Color::Cyan,
                levels: [Color::DarkGray, Color::Green, Color::LightGreen, Color::Cyan, Color::White],
                help_bg: Color::DarkGray,
                help_fg: Color::White,
            },
            Theme::Fire => Palette {
                primary: Color::Red,
                peak: Color::Yellow,
                accent: Color::LightRed,
                levels: [Color::DarkGray, Color::Red, Color::LightRed, Color::Yellow, Color::White],
                help_bg: Color::Black,
                help_fg: Color::White,
            },
            Theme::Ice => Palette {
                primary: Color::LightCyan,
                peak: Color::White,
                accent: Color::Blue,
                levels: [Color::DarkGray, Color::Blue, Color::Cyan, Color::LightCyan, Color::White],
                help_bg: Color::Black,
                help_fg: Color::White,
            },
            Theme::Rainbow => Palette {
                primary: Color::Magenta,
                peak: Color::Yellow,
                accent: Color::LightGreen,
                levels: [Color::Blue, Color::Magenta, Color::LightRed, Color::Yellow, Color::LightGreen],
                help_bg: Color::DarkGray,
                help_fg: Color::White,
            },
        }
    }
}

/// Cycling the theme visits every theme once and returns to the start after four steps:
/// one, two or three steps never come back, four always do.
pub proof fn lemma_theme_cycle(t: Theme)
    ensures
        next_theme(t) != t,
        next_theme(next_theme(t)) != t,
        next_theme(next_theme(next_theme(t))) != t,
        next_theme(next_theme(next_theme(next_theme(t)))) == t,
{
}

/// The documented theme order and names: Neon, Fire, Ice, Rainbow, then Neon again.
pub proof fn lemma_theme_table()
    ensures
        next_theme(Theme::Neon) == Theme::Fire,
        next_theme(Theme::Fire) == Theme::Ice,
        next_theme(Theme::Ice) == Theme::Rainbow,
        next_theme(Theme::Rainbow) == Theme::Neon,
        theme_name(Theme::Neon) == "neon"@ && theme_label(Theme::Neon) == "NEON"@,
        theme_name(Theme::Fire) == "fire"@ && theme_label(Theme::Fire) == "FIRE"@,
        theme_name(Theme::Ice) == "ice"@ && theme_label(Theme::Ice) == "ICE"@,
        theme_name(Theme::Rainbow) == "rainbow"@ && theme_label(Theme::Rainbow) == "RAINBOW"@,
{
}

/// Every palette's level ramp has five colours; without colour it runs from dark grey
/// to white, and the Fire theme runs from dark grey through red to white.
pub proof fn lemma_palette_ramps(theme: Theme, p: Palette)
    ensures
        p.levels@.len() == 5,
        theme_palette(theme, true, p) ==> p.levels@[0] == Color::DarkGray && p.levels@[4]
            == Color::White && p.primary == Color::White,
        theme_palette(Theme::Fire, false, p) ==> p.levels@[0] == Color::DarkGray
            && p.levels@[1] == Color::Red && p.levels@[4] == Color::White && p.primary
            == Color::Red,
        theme_palette(Theme::Neon, false, p) ==> p.primary == Color::Green && p.accent
            == Color::Cyan,
{
}

} // verus!
