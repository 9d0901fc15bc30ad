//! Color themes: the built-in palettes, theme names and their light/dark
//! siblings, custom color overrides, and which palette a session uses.

use vstd::prelude::*;
use crate::text::{owned, str_eq, chars_of, concat, char_string, to_lowercase, lowercase};

verus! {

/// A terminal color: the terminal's own default, one of the sixteen named
/// ANSI colors, a 256-color index, or an RGB triple.
#[derive(Debug, Clone, Copy, PartialEq, Eq, Structural)]
pub enum Color {
    Reset,
    Black,
    Red,
    Green,
    Yellow,
    Blue,
    Magenta,
    Cyan,
    Gray,
    DarkGray,
    LightRed,
    LightGreen,
    LightYellow,
    LightBlue,
    LightMagenta,
    LightCyan,
    White,
    Rgb(u8, u8, u8),
    Indexed(u8),
}

/// All colors used by the UI.
#[derive(Debug, Clone, Copy, PartialEq, Eq, Structural)]
pub struct Palette {
    /// Primary accent (highlight, active borders).
    pub accent: Color,
    /// Background for the tab bar, floating panels, overlays, and modals.
    pub panel_bg: Color,
    /// Optional desktop sidebar background; `Reset` keeps the terminal's.
    pub sidebar_bg: Color,
    /// Background for the active workspace and focused agent rows.
    pub active_row_bg: Color,
    /// Background for the Navigate-mode cursor row in the sidebar.
    pub selection_bg: Color,
    /// Subtle surface background for selected/focused items.
    pub surface0: Color,
    /// Slightly lighter surface for hover/active states.
    pub surface1: Color,
    /// Very dim surface for separators.
    pub surface_dim: Color,
    /// Muted text (secondary info, numbers).
    pub overlay0: Color,
    /// Slightly brighter overlay text.
    pub overlay1: Color,
    /// Main text color.
    pub text: Color,
    /// Subdued text (workspace numbers, dim labels).
    pub subtext0: Color,
    /// Branch name / special label color.
    pub mauve: Color,
    /// Done / idle states.
    pub green: Color,
    /// Working / running states.
    pub yellow: Color,
    /// Needs attention / blocked states.
    pub red: Color,
    /// Unseen / done notification accent.
    pub blue: Color,
    /// Notification accent / unseen markers.
    pub teal: Color,
    /// Interrupted / warning states.
    pub peach: Color,
}

/// The built-in themes.
#[derive(Debug, Clone, Copy, PartialEq, Eq, Structural)]
pub enum BuiltinTheme {
    Catppuccin,
    CatppuccinLatte,
    Terminal,
    TokyoNight,
    TokyoNightDay,
    Dracula,
    Nord,
    Gruvbox,
    GruvboxLight,
    OneDark,
    OneLight,
    Solarized,
    SolarizedLight,
    Kanagawa,
    KanagawaLotus,
    RosePine,
    RosePineDawn,
    Vesper,
}

/// User color overrides from the `[theme.custom]` table, one optional
/// color string per palette field.
#[derive(Debug, Clone, Default, PartialEq, Eq)]
pub struct CustomThemeColors {
    pub accent: Option<String>,
    pub panel_bg: Option<String>,
    pub sidebar_bg: Option<String>,
    pub active_row_bg: Option<String>,
    pub selection_bg: Option<String>,
    pub surface0: Option<String>,
    pub surface1: Option<String>,
    pub surface_dim: Option<String>,
    pub overlay0: Option<String>,
    pub overlay1: Option<String>,
    pub text: Option<String>,
    pub subtext0: Option<String>,
    pub mauve: Option<String>,
    pub green: Option<String>,
    pub yellow: Option<String>,
    pub red: Option<String>,
    pub blue: Option<String>,
    pub teal: Option<String>,
    pub peach: Option<String>,
}

/// The `[theme]` settings a session starts from.
#[derive(Debug, Clone, Default, PartialEq, Eq)]
pub struct ThemeConfig {
    pub name: Option<String>,
    pub dark_name: Option<String>,
    pub light_name: Option<String>,
    pub auto_switch: bool,
    pub custom: Option<CustomThemeColors>,
}

/// The resolved theme settings of a running session.
#[derive(Debug, Clone, PartialEq, Eq)]
pub struct ThemeRuntimeConfig {
    pub manual_name: String,
    pub dark_name: String,
    pub light_name: String,
    pub auto_switch: bool,
    pub custom: Option<CustomThemeColors>,
    pub legacy_accent: Option<String>,
}

/// Whether the host terminal shows a dark or a light background.
#[derive(Debug, Clone, Copy, PartialEq, Eq, Structural)]
pub enum HostAppearance {
    Dark,
    Light,
}

/// `s` with every space and underscore turned into a hyphen.
pub open spec fn dash_separators(s: Seq<char>) -> Seq<char> {
    s.map_values(|c: char| if c == ' ' || c == '_' { '-' } else { c })
}

/// A theme name as it is looked up: lowercased, spaces and underscores
/// written as hyphens.
pub open spec fn normalized_theme_name(name: Seq<char>) -> Seq<char> {
    dash_separators(lowercase(name))
}

/// Lowercases `name` and writes its spaces and underscores as hyphens.
pub fn normalize_theme_name(name: &str) -> (r: String)
    ensures
        r@ == normalized_theme_name(name@),
{
    let lower = to_lowercase(name);
    let v = chars_of(lower.as_str());
    let ghost target = dash_separators(lower@);
    let mut out = String::new();
    let mut i: usize = 0;
    while i < v.len()
        invariant
            0 <= i <= v@.len(),
            v@ == lower@,
            target == dash_separators(lower@),
            out@ == target.subrange(0, i as int),
        decreases v@.len() - i,
    {
        let c = if v[i] == ' ' || v[i] == '_' { '-' } else { v[i] };
        let piece = char_string(c);
        out = concat(out.as_str(), piece.as_str());
        proof {
            assert(out@ =~= target.subrange(0, i + 1));
        }
        i = i + 1;
    }
    proof {
        assert(out@ =~= target);
    }
    out
}

/// The built-in theme a normalized name `n` names: its canonical name or
/// one of its aliases.
pub open spec fn theme_named(n: Seq<char>) -> Option<BuiltinTheme> {
    if n == "catppuccin"@ || n == "catppuccin-mocha"@ {
        Some(BuiltinTheme::Catppuccin)
    } else if n == "catppuccin-latte"@ || n == "latte"@ || n == "light"@ {
        Some(BuiltinTheme::CatppuccinLatte)
    } else if n == "terminal"@ {
        Some(BuiltinTheme::Terminal)
    } else if n == "tokyo-night"@ || n == "tokyonight"@ {
        Some(BuiltinTheme::TokyoNight)
    } else if n == "tokyo-night-day"@ || n == "tokyo-day"@ || n == "tokyonight-day"@ {
        Some(BuiltinTheme::TokyoNightDay)
    } else if n == "dracula"@ {
        Some(BuiltinTheme::Dracula)
    } else if n == "nord"@ {
        Some(BuiltinTheme::Nord)
    } else if n == "gruvbox"@ || n == "gruvbox-dark"@ {
        Some(BuiltinTheme::Gruvbox)
    } else if n == "gruvbox-light"@ {
        Some(BuiltinTheme::GruvboxLight)
    } else if n == "one-dark"@ || n == "onedark"@ {
        Some(BuiltinTheme::OneDark)
    } else if n == "one-light"@ || n == "onelight"@ {
        Some(BuiltinTheme::OneLight)
    } else if n == "solarized"@ || n == "solarized-dark"@ {
        Some(BuiltinTheme::Solarized)
    } else if n == "solarized-light"@ {
        Some(BuiltinTheme::SolarizedLight)
    } else if n == "kanagawa"@ {
        Some(BuiltinTheme::Kanagawa)
    } else if n == "kanagawa-lotus"@ || n == "lotus"@ {
        Some(BuiltinTheme::KanagawaLotus)
    } else if n == "rose-pine"@ || n == "rosepine"@ {
        Some(BuiltinTheme::RosePine)
    } else if n == "rose-pine-dawn"@ || n == "rosepine-dawn"@ || n == "dawn"@ {
        Some(BuiltinTheme::RosePineDawn)
    } else if n == "vesper"@ {
        Some(BuiltinTheme::Vesper)
    } else {
        None
    }
}

fn lookup_theme(n: &str) -> (r: Option<BuiltinTheme>)
    ensures
        r == theme_named(n@),
{
    if str_eq(n, "catppuccin") || str_eq(n, "catppuccin-mocha") {
        Some(BuiltinTheme::Catppuccin)
    } else if str_eq(n, "catppuccin-latte") || str_eq(n, "latte") || str_eq(n, "light") {
        Some(BuiltinTheme::CatppuccinLatte)
    } else if str_eq(n, "terminal") {
        Some(BuiltinTheme::Terminal)
    } else if str_eq(n, "tokyo-night") || str_eq(n, "tokyonight") {
        Some(BuiltinTheme::TokyoNight)
    } else if str_eq(n, "tokyo-night-day") || str_eq(n, "tokyo-day") || str_eq(n, "tokyonight-day") {
        Some(BuiltinTheme::TokyoNightDay)
    } else if str_eq(n, "dracula") {
        Some(BuiltinTheme::Dracula)
    } else if str_eq(n, "nord") {
        Some(BuiltinTheme::Nord)
    } else if str_eq(n, "gruvbox") || str_eq(n, "gruvbox-dark") {
        Some(BuiltinTheme::Gruvbox)
    } else if str_eq(n, "gruvbox-light") {
        Some(BuiltinTheme::GruvboxLight)
    } else if str_eq(n, "one-dark") || str_eq(n, "onedark") {
        Some(BuiltinTheme::OneDark)
    } else if str_eq(n, "one-light") || str_eq(n, "onelight") {
        Some(BuiltinTheme::OneLight)
    } else if str_eq(n, "solarized") || str_eq(n, "solarized-dark") {
        Some(BuiltinTheme::Solarized)
    } else if str_eq(n, "solarized-light") {
        Some(BuiltinTheme::SolarizedLight)
    } else if str_eq(n, "kanagawa") {
        Some(BuiltinTheme::Kanagawa)
    } else if str_eq(n, "kanagawa-lotus") || str_eq(n, "lotus") {
        Some(BuiltinTheme::KanagawaLotus)
    } else if str_eq(n, "rose-pine") || str_eq(n, "rosepine") {
        Some(BuiltinTheme::RosePine)
    } else if str_eq(n, "rose-pine-dawn") || str_eq(n, "rosepine-dawn") || str_eq(n, "dawn") {
        Some(BuiltinTheme::RosePineDawn)
    } else if str_eq(n, "vesper") {
        Some(BuiltinTheme::Vesper)
    } else {
        None
    }
}

/// The canonical name of a built-in theme.
pub open spec fn theme_canonical_name(theme: BuiltinTheme) -> Seq<char> {
    match theme {
        BuiltinTheme::Catppuccin => "catppuccin"@,
        BuiltinTheme::CatppuccinLatte => "catppuccin-latte"@,
        BuiltinTheme::Terminal => "terminal"@,
        BuiltinTheme::TokyoNight => "tokyo-night"@,
        BuiltinTheme::TokyoNightDay => "tokyo-night-day"@,
        BuiltinTheme::Dracula => "dracula"@,
        BuiltinTheme::Nord => "nord"@,
        BuiltinTheme::Gruvbox => "gruvbox"@,
        BuiltinTheme::GruvboxLight => "gruvbox-light"@,
        BuiltinTheme::OneDark => "one-dark"@,
        BuiltinTheme::OneLight => "one-light"@,
        BuiltinTheme::Solarized => "solarized"@,
        BuiltinTheme::SolarizedLight => "solarized-light"@,
        BuiltinTheme::Kanagawa => "kanagawa"@,
        BuiltinTheme::KanagawaLotus => "kanagawa-lotus"@,
        BuiltinTheme::RosePine => "rose-pine"@,
        BuiltinTheme::RosePineDawn => "rose-pine-dawn"@,
        BuiltinTheme::Vesper => "vesper"@,
    }
}

fn canonical_name_of(theme: BuiltinTheme) -> (r: &'static str)
    ensures
        r@ == theme_canonical_name(theme),
{
    match theme {
        BuiltinTheme::Catppuccin => "catppuccin",
        BuiltinTheme::CatppuccinLatte => "catppuccin-latte",
        BuiltinTheme::Terminal => "terminal",
        BuiltinTheme::TokyoNight => "tokyo-night",
        BuiltinTheme::TokyoNightDay => "tokyo-night-day",
        BuiltinTheme::Dracula => "dracula",
        BuiltinTheme::Nord => "nord",
        BuiltinTheme::Gruvbox => "gruvbox",
        BuiltinTheme::GruvboxLight => "gruvbox-light",
        BuiltinTheme::OneDark => "one-dark",
        BuiltinTheme::OneLight => "one-light",
        BuiltinTheme::Solarized => "solarized",
        BuiltinTheme::SolarizedLight => "solarized-light",
        BuiltinTheme::Kanagawa => "kanagawa",
        BuiltinTheme::KanagawaLotus => "kanagawa-lotus",
        BuiltinTheme::RosePine => "rose-pine",
        BuiltinTheme::RosePineDawn => "rose-pine-dawn",
        BuiltinTheme::Vesper => "vesper",
    }
}

/// The `(dark, light)` theme family a normalized name `n` belongs to.
pub open spec fn theme_family(n: Seq<char>) -> Option<(Seq<char>, Seq<char>)> {
    if n == "catppuccin"@ || n == "catppuccin-mocha"@ || n == "catppuccin-latte"@ || n == "latte"@ || n == "light"@ {
        Some(("catppuccin"@, "catppuccin-latte"@))
    } else if n == "tokyo-night"@ || n == "tokyonight"@ || n == "tokyo-night-day"@ || n == "tokyo-day"@ || n == "tokyonight-day"@ {
        Some(("tokyo-night"@, "tokyo-night-day"@))
    } else if n == "gruvbox"@ || n == "gruvbox-dark"@ || n == "gruvbox-light"@ {
        Some(("gruvbox"@, "gruvbox-light"@))
    } else if n == "one-dark"@ || n == "onedark"@ || n == "one-light"@ || n == "onelight"@ {
        Some(("one-dark"@, "one-light"@))
    } else if n == "solarized"@ || n == "solarized-dark"@ || n == "solarized-light"@ {
        Some(("solarized"@, "solarized-light"@))
    } else if n == "kanagawa"@ || n == "kanagawa-lotus"@ || n == "lotus"@ {
        Some(("kanagawa"@, "kanagawa-lotus"@))
    } else if n == "rose-pine"@ || n == "rosepine"@ || n == "rose-pine-dawn"@ || n == "rosepine-dawn"@ || n == "dawn"@ {
        Some(("rose-pine"@, "rose-pine-dawn"@))
    } else {
        None
    }
}

fn family_of(n: &str) -> (r: Option<(String, String)>)
    ensures
        match r {
            Some(p) => theme_family(n@) == Some((p.0@, p.1@)),
            None => theme_family(n@) is None,
        },
{
    if str_eq(n, "catppuccin") || str_eq(n, "catppuccin-mocha") || str_eq(n, "catppuccin-latte") || str_eq(n, "latte") || str_eq(n, "light") {
        Some((owned("catppuccin"), owned("catppuccin-latte")))
    } else if str_eq(n, "tokyo-night") || str_eq(n, "tokyonight") || str_eq(n, "tokyo-night-day") || str_eq(n, "tokyo-day") || str_eq(n, "tokyonight-day") {
        Some((owned("tokyo-night"), owned("tokyo-night-day")))
    } else if str_eq(n, "gruvbox") || str_eq(n, "gruvbox-dark") || str_eq(n, "gruvbox-light") {
        Some((owned("gruvbox"), owned("gruvbox-light")))
    } else if str_eq(n, "one-dark") || str_eq(n, "onedark") || str_eq(n, "one-light") || str_eq(n, "onelight") {
        Some((owned("one-dark"), owned("one-light")))
    } else if str_eq(n, "solarized") || str_eq(n, "solarized-dark") || str_eq(n, "solarized-light") {
        Some((owned("solarized"), owned("solarized-light")))
    } else if str_eq(n, "kanagawa") || str_eq(n, "kanagawa-lotus") || str_eq(n, "lotus") {
        Some((owned("kanagawa"), owned("kanagawa-lotus")))
    } else if str_eq(n, "rose-pine") || str_eq(n, "rosepine") || str_eq(n, "rose-pine-dawn") || str_eq(n, "rosepine-dawn") || str_eq(n, "dawn") {
        Some((owned("rose-pine"), owned("rose-pine-dawn")))
    } else {
        None
    }
}

/// The colors of a built-in theme.
pub open spec fn builtin_palette(theme: BuiltinTheme) -> Palette {
    match theme {
        BuiltinTheme::Catppuccin => Palette::catppuccin(),
        BuiltinTheme::CatppuccinLatte => Palette::catppuccin_latte(),
        BuiltinTheme::Terminal => Palette::terminal(),
        BuiltinTheme::TokyoNight => Palette::tokyo_night(),
        BuiltinTheme::TokyoNightDay => Palette::tokyo_night_day(),
        BuiltinTheme::Dracula => Palette::dracula(),
        BuiltinTheme::Nord => Palette::nord(),
        BuiltinTheme::Gruvbox => Palette::gruvbox(),
        BuiltinTheme::GruvboxLight => Palette::gruvbox_light(),
        BuiltinTheme::OneDark => Palette::one_dark(),
        BuiltinTheme::OneLight => Palette::one_light(),
        BuiltinTheme::Solarized => Palette::solarized(),
        BuiltinTheme::SolarizedLight => Palette::solarized_light(),
        BuiltinTheme::Kanagawa => Palette::kanagawa(),
        BuiltinTheme::KanagawaLotus => Palette::kanagawa_lotus(),
        BuiltinTheme::RosePine => Palette::rose_pine(),
        BuiltinTheme::RosePineDawn => Palette::rose_pine_dawn(),
        BuiltinTheme::Vesper => Palette::vesper(),
    }
}

impl Palette {
    /// Catppuccin Mocha - the default.
    #[verifier::allow_in_spec]
    pub fn catppuccin() -> Palette
        returns
            (Palette {
                accent: Color::Rgb(137, 180, 250),
                panel_bg: Color::Rgb(24, 24, 37),
                sidebar_bg: Color::Reset,
                active_row_bg: Color::Rgb(30, 30, 46),
                selection_bg: Color::Rgb(49, 50, 68),
                surface0: Color::Rgb(49, 50, 68),
                surface1: Color::Rgb(69, 71, 90),
                surface_dim: Color::Rgb(30, 30, 46),
                overlay0: Color::Rgb(108, 112, 134),
                overlay1: Color::Rgb(127, 132, 156),
                text: Color::Rgb(205, 214, 244),
                subtext0: Color::Rgb(166, 173, 200),
                mauve: Color::Rgb(203, 166, 247),
                green: Color::Rgb(166, 227, 161),
                yellow: Color::Rgb(249, 226, 175),
                red: Color::Rgb(243, 139, 168),
                blue: Color::Rgb(137, 180, 250),
                teal: Color::Rgb(148, 226, 213),
                peach: Color::Rgb(250, 179, 135),
            }),
    {
        Palette {
            accent: Color::Rgb(137, 180, 250),
            panel_bg: Color::Rgb(24, 24, 37),
            sidebar_bg: Color::Reset,
            active_row_bg: Color::Rgb(30, 30, 46),
            selection_bg: Color::Rgb(49, 50, 68),
            surface0: Color::Rgb(49, 50, 68),
            surface1: Color::Rgb(69, 71, 90),
            surface_dim: Color::Rgb(30, 30, 46),
            overlay0: Color::Rgb(108, 112, 134),
            overlay1: Color::Rgb(127, 132, 156),
            text: Color::Rgb(205, 214, 244),
            subtext0: Color::Rgb(166, 173, 200),
            mauve: Color::Rgb(203, 166, 247),
            green: Color::Rgb(166, 227, 161),
            yellow: Color::Rgb(249, 226, 175),
            red: Color::Rgb(243, 139, 168),
            blue: Color::Rgb(137, 180, 250),
            teal: Color::Rgb(148, 226, 213),
            peach: Color::Rgb(250, 179, 135),
        }
    }

    /// Catppuccin Latte - the light Catppuccin flavor.
    #[verifier::allow_in_spec]
    pub fn catppuccin_latte() -> Palette
        returns
            (Palette {
                accent: Color::Rgb(30, 102, 245),
                panel_bg: Color::Rgb(239, 241, 245),
                sidebar_bg: Color::Reset,
                active_row_bg: Color::Rgb(230, 233, 239),
                selection_bg: Color::Rgb(189, 208, 245),
                surface0: Color::Rgb(204, 208, 218),
                surface1: Color::Rgb(188, 192, 204),
                surface_dim: Color::Rgb(230, 233, 239),
                overlay0: Color::Rgb(156, 160, 176),
                overlay1: Color::Rgb(140, 143, 161),
                text: Color::Rgb(76, 79, 105),
                subtext0: Color::Rgb(108, 111, 133),
                mauve: Color::Rgb(136, 57, 239),
                green: Color::Rgb(64, 160, 43),
                yellow: Color::Rgb(223, 142, 29),
                red: Color::Rgb(210, 15, 57),
                blue: Color::Rgb(30, 102, 245),
                teal: Color::Rgb(23, 146, 153),
                peach: Color::Rgb(254, 100, 11),
            }),
    {
        Palette {
            accent: Color::Rgb(30, 102, 245),
            panel_bg: Color::Rgb(239, 241, 245),
            sidebar_bg: Color::Reset,
            active_row_bg: Color::Rgb(230, 233, 239),
            selection_bg: Color::Rgb(189, 208, 245),
            surface0: Color::Rgb(204, 208, 218),
            surface1: Color::Rgb(188, 192, 204),
            surface_dim: Color::Rgb(230, 233, 239),
            overlay0: Color::Rgb(156, 160, 176),
            overlay1: Color::Rgb(140, 143, 161),
            text: Color::Rgb(76, 79, 105),
            subtext0: Color::Rgb(108, 111, 133),
            mauve: Color::Rgb(136, 57, 239),
            green: Color::Rgb(64, 160, 43),
            yellow: Color::Rgb(223, 142, 29),
            red: Color::Rgb(210, 15, 57),
            blue: Color::Rgb(30, 102, 245),
            teal: Color::Rgb(23, 146, 153),
            peach: Color::Rgb(254, 100, 11),
        }
    }

    /// Terminal 16-color theme.
    #[verifier::allow_in_spec]
    pub fn terminal() -> Palette
        returns
            (Palette {
                accent: Color::Blue,
                panel_bg: Color::Reset,
                sidebar_bg: Color::Reset,
                active_row_bg: Color::DarkGray,
                selection_bg: Color::Reset,
                surface0: Color::DarkGray,
                surface1: Color::DarkGray,
                surface_dim: Color::DarkGray,
                overlay0: Color::Gray,
                overlay1: Color::White,
                text: Color::Reset,
                subtext0: Color::Gray,
                mauve: Color::Magenta,
                green: Color::Green,
                yellow: Color::Yellow,
                red: Color::LightRed,
                blue: Color::Blue,
                teal: Color::Cyan,
                peach: Color::Yellow,
            }),
    {
        Palette {
            accent: Color::Blue,
            panel_bg: Color::Reset,
            sidebar_bg: Color::Reset,
            active_row_bg: Color::DarkGray,
            selection_bg: Color::Reset,
            surface0: Color::DarkGray,
            surface1: Color::DarkGray,
            surface_dim: Color::DarkGray,
            overlay0: Color::Gray,
            overlay1: Color::White,
            text: Color::Reset,
            subtext0: Color::Gray,
            mauve: Color::Magenta,
            green: Color::Green,
            yellow: Color::Yellow,
            red: Color::LightRed,
            blue: Color::Blue,
            teal: Color::Cyan,
            peach: Color::Yellow,
        }
    }

    /// Tokyo Night - blue-purple aesthetic.
    #[verifier::allow_in_spec]
    pub fn tokyo_night() -> Palette
        returns
            (Palette {
                accent: Color::Rgb(122, 162, 247),
                panel_bg: Color::Rgb(26, 27, 38),
                sidebar_bg: Color::Reset,
                active_row_bg: Color::Rgb(35, 38, 54),
                selection_bg: Color::Rgb(45, 54, 80),
                surface0: Color::Rgb(36, 40, 59),
                surface1: Color::Rgb(65, 72, 104),
                surface_dim: Color::Rgb(26, 27, 38),
                overlay0: Color::Rgb(86, 95, 137),
                overlay1: Color::Rgb(105, 113, 150),
                text: Color::Rgb(192, 202, 245),
                subtext0: Color::Rgb(169, 177, 214),
                mauve: Color::Rgb(187, 154, 247),
                green: Color::Rgb(158, 206, 106),
                yellow: Color::Rgb(224, 175, 104),
                red: Color::Rgb(247, 118, 142),
                blue: Color::Rgb(122, 162, 247),
                teal: Color::Rgb(125, 207, 255),
                peach: Color::Rgb(255, 158, 100),
            }),
    {
        Palette {
            accent: Color::Rgb(122, 162, 247),
            panel_bg: Color::Rgb(26, 27, 38),
            sidebar_bg: Color::Reset,
            active_row_bg: Color::Rgb(35, 38, 54),
            selection_bg: Color::Rgb(45, 54, 80),
            surface0: Color::Rgb(36, 40, 59),
            surface1: Color::Rgb(65, 72, 104),
            surface_dim: Color::Rgb(26, 27, 38),
            overlay0: Color::Rgb(86, 95, 137),
            overlay1: Color::Rgb(105, 113, 150),
            text: Color::Rgb(192, 202, 245),
            subtext0: Color::Rgb(169, 177, 214),
            mauve: Color::Rgb(187, 154, 247),
            green: Color::Rgb(158, 206, 106),
            yellow: Color::Rgb(224, 175, 104),
            red: Color::Rgb(247, 118, 142),
            blue: Color::Rgb(122, 162, 247),
            teal: Color::Rgb(125, 207, 255),
            peach: Color::Rgb(255, 158, 100),
        }
    }

    /// Tokyo Night Day - the light Tokyo Night style.
    #[verifier::allow_in_spec]
    pub fn tokyo_night_day() -> Palette
        returns
            (Palette {
                accent: Color::Rgb(46, 125, 233),
                panel_bg: Color::Rgb(225, 226, 231),
                sidebar_bg: Color::Reset,
                active_row_bg: Color::Rgb(210, 211, 218),
                selection_bg: Color::Rgb(182, 202, 231),
                surface0: Color::Rgb(196, 200, 218),
                surface1: Color::Rgb(168, 174, 203),
                surface_dim: Color::Rgb(210, 211, 218),
                overlay0: Color::Rgb(137, 144, 179),
                overlay1: Color::Rgb(104, 112, 154),
                text: Color::Rgb(55, 96, 191),
                subtext0: Color::Rgb(97, 114, 176),
                mauve: Color::Rgb(120, 71, 189),
                green: Color::Rgb(88, 117, 57),
                yellow: Color::Rgb(140, 108, 62),
                red: Color::Rgb(245, 42, 101),
                blue: Color::Rgb(46, 125, 233),
                teal: Color::Rgb(17, 140, 116),
                peach: Color::Rgb(177, 92, 0),
            }),
    {
        Palette {
            accent: Color::Rgb(46, 125, 233),
            panel_bg: Color::Rgb(225, 226, 231),
            sidebar_bg: Color::Reset,
            active_row_bg: Color::Rgb(210, 211, 218),
            selection_bg: Color::Rgb(182, 202, 231),
            surface0: Color::Rgb(196, 200, 218),
            surface1: Color::Rgb(168, 174, 203),
            surface_dim: Color::Rgb(210, 211, 218),
            overlay0: Color::Rgb(137, 144, 179),
            overlay1: Color::Rgb(104, 112, 154),
            text: Color::Rgb(55, 96, 191),
            subtext0: Color::Rgb(97, 114, 176),
            mauve: Color::Rgb(120, 71, 189),
            green: Color::Rgb(88, 117, 57),
            yellow: Color::Rgb(140, 108, 62),
            red: Color::Rgb(245, 42, 101),
            blue: Color::Rgb(46, 125, 233),
            teal: Color::Rgb(17, 140, 116),
            peach: Color::Rgb(177, 92, 0),
        }
    }

    /// Dracula - purple/pink/green.
    #[verifier::allow_in_spec]
    pub fn dracula() -> Palette
        returns
            (Palette {
                accent: Color::Rgb(189, 147, 249),
                panel_bg: Color::Rgb(40, 42, 54),
                sidebar_bg: Color::Reset,
                active_row_bg: Color::Rgb(55, 60, 82),
                selection_bg: Color::Rgb(70, 63, 93),
                surface0: Color::Rgb(68, 71, 90),
                surface1: Color::Rgb(98, 114, 164),
                surface_dim: Color::Rgb(40, 42, 54),
                overlay0: Color::Rgb(98, 114, 164),
                overlay1: Color::Rgb(130, 140, 180),
                text: Color::Rgb(248, 248, 242),
                subtext0: Color::Rgb(210, 210, 220),
                mauve: Color::Rgb(255, 121, 198),
                green: Color::Rgb(80, 250, 123),
                yellow: Color::Rgb(241, 250, 140),
                red: Color::Rgb(255, 85, 85),
                blue: Color::Rgb(139, 233, 253),
                teal: Color::Rgb(139, 233, 253),
                peach: Color::Rgb(255, 184, 108),
            }),
    {
        Palette {
            accent: Color::Rgb(189, 147, 249),
            panel_bg: Color::Rgb(40, 42, 54),
            sidebar_bg: Color::Reset,
            active_row_bg: Color::Rgb(55, 60, 82),
            selection_bg: Color::Rgb(70, 63, 93),
            surface0: Color::Rgb(68, 71, 90),
            surface1: Color::Rgb(98, 114, 164),
            surface_dim: Color::Rgb(40, 42, 54),
            overlay0: Color::Rgb(98, 114, 164),
            overlay1: Color::Rgb(130, 140, 180),
            text: Color::Rgb(248, 248, 242),
            subtext0: Color::Rgb(210, 210, 220),
            mauve: Color::Rgb(255, 121, 198),
            green: Color::Rgb(80, 250, 123),
            yellow: Color::Rgb(241, 250, 140),
            red: Color::Rgb(255, 85, 85),
            blue: Color::Rgb(139, 233, 253),
            teal: Color::Rgb(139, 233, 253),
            peach: Color::Rgb(255, 184, 108),
        }
    }

    /// Nord - frosty blue palette.
    #[verifier::allow_in_spec]
    pub fn nord() -> Palette
        returns
            (Palette {
                accent: Color::Rgb(136, 192, 208),
                panel_bg: Color::Rgb(46, 52, 64),
                sidebar_bg: Color::Reset,
                active_row_bg: Color::Rgb(67, 76, 94),
                selection_bg: Color::Rgb(64, 80, 93),
                surface0: Color::Rgb(59, 66, 82),
                surface1: Color::Rgb(67, 76, 94),
                surface_dim: Color::Rgb(46, 52, 64),
                overlay0: Color::Rgb(76, 86, 106),
                overlay1: Color::Rgb(100, 110, 130),
                text: Color::Rgb(236, 239, 244),
                subtext0: Color::Rgb(216, 222, 233),
                mauve: Color::Rgb(180, 142, 173),
                green: Color::Rgb(163, 190, 140),
                yellow: Color::Rgb(235, 203, 139),
                red: Color::Rgb(191, 97, 106),
                blue: Color::Rgb(129, 161, 193),
                teal: Color::Rgb(143, 188, 187),
                peach: Color::Rgb(208, 135, 112),
            }),
    {
        Palette {
            accent: Color::Rgb(136, 192, 208),
            panel_bg: Color::Rgb(46, 52, 64),
            sidebar_bg: Color::Reset,
            active_row_bg: Color::Rgb(67, 76, 94),
            selection_bg: Color::Rgb(64, 80, 93),
            surface0: Color::Rgb(59, 66, 82),
            surface1: Color::Rgb(67, 76, 94),
            surface_dim: Color::Rgb(46, 52, 64),
            overlay0: Color::Rgb(76, 86, 106),
            overlay1: Color::Rgb(100, 110, 130),
            text: Color::Rgb(236, 239, 244),
            subtext0: Color::Rgb(216, 222, 233),
            mauve: Color::Rgb(180, 142, 173),
            green: Color::Rgb(163, 190, 140),
            yellow: Color::Rgb(235, 203, 139),
            red: Color::Rgb(191, 97, 106),
            blue: Color::Rgb(129, 161, 193),
            teal: Color::Rgb(143, 188, 187),
            peach: Color::Rgb(208, 135, 112),
        }
    }

    /// Gruvbox Dark - warm retro palette.
    #[verifier::allow_in_spec]
    pub fn gruvbox() -> Palette
        returns
            (Palette {
                accent: Color::Rgb(215, 153, 33),
                panel_bg: Color::Rgb(40, 40, 40),
                sidebar_bg: Color::Reset,
                active_row_bg: Color::Rgb(50, 49, 48),
                selection_bg: Color::Rgb(75, 63, 39),
                surface0: Color::Rgb(60, 56, 54),
                surface1: Color::Rgb(80, 73, 69),
                surface_dim: Color::Rgb(40, 40, 40),
                overlay0: Color::Rgb(146, 131, 116),
                overlay1: Color::Rgb(168, 153, 132),
                text: Color::Rgb(235, 219, 178),
                subtext0: Color::Rgb(213, 196, 161),
                mauve: Color::Rgb(211, 134, 155),
                green: Color::Rgb(184, 187, 38),
                yellow: Color::Rgb(250, 189, 47),
                red: Color::Rgb(251, 73, 52),
                blue: Color::Rgb(131, 165, 152),
                teal: Color::Rgb(142, 192, 124),
                peach: Color::Rgb(254, 128, 25),
            }),
    {
        Palette {
            accent: Color::Rgb(215, 153, 33),
            panel_bg: Color::Rgb(40, 40, 40),
            sidebar_bg: Color::Reset,
            active_row_bg: Color::Rgb(50, 49, 48),
            selection_bg: Color::Rgb(75, 63, 39),
            surface0: Color::Rgb(60, 56, 54),
            surface1: Color::Rgb(80, 73, 69),
            surface_dim: Color::Rgb(40, 40, 40),
            overlay0: Color::Rgb(146, 131, 116),
            overlay1: Color::Rgb(168, 153, 132),
            text: Color::Rgb(235, 219, 178),
            subtext0: Color::Rgb(213, 196, 161),
            mauve: Color::Rgb(211, 134, 155),
            green: Color::Rgb(184, 187, 38),
            yellow: Color::Rgb(250, 189, 47),
            red: Color::Rgb(251, 73, 52),
            blue: Color::Rgb(131, 165, 152),
            teal: Color::Rgb(142, 192, 124),
            peach: Color::Rgb(254, 128, 25),
        }
    }

    /// Gruvbox Light - the light retro palette.
    #[verifier::allow_in_spec]
    pub fn gruvbox_light() -> Palette
        returns
            (Palette {
                accent: Color::Rgb(7, 102, 120),
                panel_bg: Color::Rgb(251, 241, 199),
                sidebar_bg: Color::Reset,
                active_row_bg: Color::Rgb(242, 229, 188),
                selection_bg: Color::Rgb(235, 219, 178),
                surface0: Color::Rgb(235, 219, 178),
                surface1: Color::Rgb(213, 196, 161),
                surface_dim: Color::Rgb(242, 229, 188),
                overlay0: Color::Rgb(146, 131, 116),
                overlay1: Color::Rgb(124, 111, 100),
                text: Color::Rgb(60, 56, 54),
                subtext0: Color::Rgb(80, 73, 69),
                mauve: Color::Rgb(143, 63, 113),
                green: Color::Rgb(121, 116, 14),
                yellow: Color::Rgb(181, 118, 20),
                red: Color::Rgb(157, 0, 6),
                blue: Color::Rgb(7, 102, 120),
                teal: Color::Rgb(66, 123, 88),
                peach: Color::Rgb(175, 58, 3),
            }),
    {
        Palette {
            accent: Color::Rgb(7, 102, 120),
            panel_bg: Color::Rgb(251, 241, 199),
            sidebar_bg: Color::Reset,
            active_row_bg: Color::Rgb(242, 229, 188),
            selection_bg: Color::Rgb(235, 219, 178),
            surface0: Color::Rgb(235, 219, 178),
            surface1: Color::Rgb(213, 196, 161),
            surface_dim: Color::Rgb(242, 229, 188),
            overlay0: Color::Rgb(146, 131, 116),
            overlay1: Color::Rgb(124, 111, 100),
            text: Color::Rgb(60, 56, 54),
            subtext0: Color::Rgb(80, 73, 69),
            mauve: Color::Rgb(143, 63, 113),
            green: Color::Rgb(121, 116, 14),
            yellow: Color::Rgb(181, 118, 20),
            red: Color::Rgb(157, 0, 6),
            blue: Color::Rgb(7, 102, 120),
            teal: Color::Rgb(66, 123, 88),
            peach: Color::Rgb(175, 58, 3),
        }
    }

    /// One Dark - Atom's classic dark theme.
    #[verifier::allow_in_spec]
    pub fn one_dark() -> Palette
        returns
            (Palette {
                accent: Color::Rgb(97, 175, 239),
                panel_bg: Color::Rgb(40, 44, 52),
                sidebar_bg: Color::Reset,
                active_row_bg: Color::Rgb(49, 54, 64),
                selection_bg: Color::Rgb(51, 70, 89),
                surface0: Color::Rgb(44, 49, 58),
                surface1: Color::Rgb(62, 68, 81),
                surface_dim: Color::Rgb(40, 44, 52),
                overlay0: Color::Rgb(92, 99, 112),
                overlay1: Color::Rgb(115, 122, 135),
                text: Color::Rgb(171, 178, 191),
                subtext0: Color::Rgb(150, 156, 168),
                mauve: Color::Rgb(198, 120, 221),
                green: Color::Rgb(152, 195, 121),
                yellow: Color::Rgb(229, 192, 123),
                red: Color::Rgb(224, 108, 117),
                blue: Color::Rgb(97, 175, 239),
                teal: Color::Rgb(86, 182, 194),
                peach: Color::Rgb(209, 154, 102),
            }),
    {
        Palette {
            accent: Color::Rgb(97, 175, 239),
            panel_bg: Color::Rgb(40, 44, 52),
            sidebar_bg: Color::Reset,
            active_row_bg: Color::Rgb(49, 54, 64),
            selection_bg: Color::Rgb(51, 70, 89),
            surface0: Color::Rgb(44, 49, 58),
            surface1: Color::Rgb(62, 68, 81),
            surface_dim: Color::Rgb(40, 44, 52),
            overlay0: Color::Rgb(92, 99, 112),
            overlay1: Color::Rgb(115, 122, 135),
            text: Color::Rgb(171, 178, 191),
            subtext0: Color::Rgb(150, 156, 168),
            mauve: Color::Rgb(198, 120, 221),
            green: Color::Rgb(152, 195, 121),
            yellow: Color::Rgb(229, 192, 123),
            red: Color::Rgb(224, 108, 117),
            blue: Color::Rgb(97, 175, 239),
            teal: Color::Rgb(86, 182, 194),
            peach: Color::Rgb(209, 154, 102),
        }
    }

    /// One Light - Atom's classic light theme.
    #[verifier::allow_in_spec]
    pub fn one_light() -> Palette
        returns
            (Palette {
                accent: Color::Rgb(64, 120, 242),
                panel_bg: Color::Rgb(250, 250, 250),
                sidebar_bg: Color::Reset,
                active_row_bg: Color::Rgb(216, 219, 226),
                selection_bg: Color::Rgb(205, 219, 248),
                surface0: Color::Rgb(240, 240, 241),
                surface1: Color::Rgb(229, 229, 230),
                surface_dim: Color::Rgb(245, 245, 246),
                overlay0: Color::Rgb(160, 161, 167),
                overlay1: Color::Rgb(104, 107, 119),
                text: Color::Rgb(56, 58, 66),
                subtext0: Color::Rgb(104, 107, 119),
                mauve: Color::Rgb(166, 38, 164),
                green: Color::Rgb(80, 161, 79),
                yellow: Color::Rgb(193, 132, 1),
                red: Color::Rgb(228, 86, 73),
                blue: Color::Rgb(64, 120, 242),
                teal: Color::Rgb(1, 132, 188),
                peach: Color::Rgb(152, 104, 1),
            }),
    {
        Palette {
            accent: Color::Rgb(64, 120, 242),
            panel_bg: Color::Rgb(250, 250, 250),
            sidebar_bg: Color::Reset,
            active_row_bg: Color::Rgb(216, 219, 226),
            selection_bg: Color::Rgb(205, 219, 248),
            surface0: Color::Rgb(240, 240, 241),
            surface1: Color::Rgb(229, 229, 230),
            surface_dim: Color::Rgb(245, 245, 246),
            overlay0: Color::Rgb(160, 161, 167),
            overlay1: Color::Rgb(104, 107, 119),
            text: Color::Rgb(56, 58, 66),
            subtext0: Color::Rgb(104, 107, 119),
            mauve: Color::Rgb(166, 38, 164),
            green: Color::Rgb(80, 161, 79),
            yellow: Color::Rgb(193, 132, 1),
            red: Color::Rgb(228, 86, 73),
            blue: Color::Rgb(64, 120, 242),
            teal: Color::Rgb(1, 132, 188),
            peach: Color::Rgb(152, 104, 1),
        }
    }

    /// Solarized Dark - Ethan Schoonover's classic.
    #[verifier::allow_in_spec]
    pub fn solarized() -> Palette
        returns
            (Palette {
                accent: Color::Rgb(38, 139, 210),
                panel_bg: Color::Rgb(0, 43, 54),
                sidebar_bg: Color::Reset,
                active_row_bg: Color::Rgb(22, 75, 87),
                selection_bg: Color::Rgb(8, 62, 85),
                surface0: Color::Rgb(7, 54, 66),
                surface1: Color::Rgb(88, 110, 117),
                surface_dim: Color::Rgb(0, 43, 54),
                overlay0: Color::Rgb(88, 110, 117),
                overlay1: Color::Rgb(101, 123, 131),
                text: Color::Rgb(147, 161, 161),
                subtext0: Color::Rgb(131, 148, 150),
                mauve: Color::Rgb(211, 54, 130),
                green: Color::Rgb(133, 153, 0),
                yellow: Color::Rgb(181, 137, 0),
                red: Color::Rgb(220, 50, 47),
                blue: Color::Rgb(38, 139, 210),
                teal: Color::Rgb(42, 161, 152),
                peach: Color::Rgb(203, 75, 22),
            }),
    {
        Palette {
            accent: Color::Rgb(38, 139, 210),
            panel_bg: Color::Rgb(0, 43, 54),
            sidebar_bg: Color::Reset,
            active_row_bg: Color::Rgb(22, 75, 87),
            selection_bg: Color::Rgb(8, 62, 85),
            surface0: Color::Rgb(7, 54, 66),
            surface1: Color::Rgb(88, 110, 117),
            surface_dim: Color::Rgb(0, 43, 54),
            overlay0: Color::Rgb(88, 110, 117),
            overlay1: Color::Rgb(101, 123, 131),
            text: Color::Rgb(147, 161, 161),
            subtext0: Color::Rgb(131, 148, 150),
            mauve: Color::Rgb(211, 54, 130),
            green: Color::Rgb(133, 153, 0),
            yellow: Color::Rgb(181, 137, 0),
            red: Color::Rgb(220, 50, 47),
            blue: Color::Rgb(38, 139, 210),
            teal: Color::Rgb(42, 161, 152),
            peach: Color::Rgb(203, 75, 22),
        }
    }

    /// Solarized Light - Ethan Schoonover's light variant.
    #[verifier::allow_in_spec]
    pub fn solarized_light() -> Palette
        returns
            (Palette {
                accent: Color::Rgb(38, 139, 210),
                panel_bg: Color::Rgb(253, 246, 227),
                sidebar_bg: Color::Reset,
                active_row_bg: Color::Rgb(238, 232, 213),
                selection_bg: Color::Rgb(201, 220, 223),
                surface0: Color::Rgb(238, 232, 213),
                surface1: Color::Rgb(147, 161, 161),
                surface_dim: Color::Rgb(238, 232, 213),
                overlay0: Color::Rgb(147, 161, 161),
                overlay1: Color::Rgb(88, 110, 117),
                text: Color::Rgb(101, 123, 131),
                subtext0: Color::Rgb(131, 148, 150),
                mauve: Color::Rgb(211, 54, 130),
                green: Color::Rgb(133, 153, 0),
                yellow: Color::Rgb(181, 137, 0),
                red: Color::Rgb(220, 50, 47),
                blue: Color::Rgb(38, 139, 210),
                teal: Color::Rgb(42, 161, 152),
                peach: Color::Rgb(203, 75, 22),
            }),
    {
        Palette {
            accent: Color::Rgb(38, 139, 210),
            panel_bg: Color::Rgb(253, 246, 227),
            sidebar_bg: Color::Reset,
            active_row_bg: Color::Rgb(238, 232, 213),
            selection_bg: Color::Rgb(201, 220, 223),
            surface0: Color::Rgb(238, 232, 213),
            surface1: Color::Rgb(147, 161, 161),
            surface_dim: Color::Rgb(238, 232, 213),
            overlay0: Color::Rgb(147, 161, 161),
            overlay1: Color::Rgb(88, 110, 117),
            text: Color::Rgb(101, 123, 131),
            subtext0: Color::Rgb(131, 148, 150),
            mauve: Color::Rgb(211, 54, 130),
            green: Color::Rgb(133, 153, 0),
            yellow: Color::Rgb(181, 137, 0),
            red: Color::Rgb(220, 50, 47),
            blue: Color::Rgb(38, 139, 210),
            teal: Color::Rgb(42, 161, 152),
            peach: Color::Rgb(203, 75, 22),
        }
    }

    /// Kanagawa - inspired by Katsushika Hokusai.
    #[verifier::allow_in_spec]
    pub fn kanagawa() -> Palette
        returns
            (Palette {
                accent: Color::Rgb(126, 156, 216),
                panel_bg: Color::Rgb(31, 31, 40),
                sidebar_bg: Color::Reset,
                active_row_bg: Color::Rgb(54, 54, 70),
                selection_bg: Color::Rgb(50, 56, 75),
                surface0: Color::Rgb(42, 42, 55),
                surface1: Color::Rgb(54, 54, 70),
                surface_dim: Color::Rgb(31, 31, 40),
                overlay0: Color::Rgb(114, 113, 105),
                overlay1: Color::Rgb(135, 134, 125),
                text: Color::Rgb(220, 215, 186),
                subtext0: Color::Rgb(200, 195, 170),
                mauve: Color::Rgb(149, 127, 184),
                green: Color::Rgb(118, 148, 106),
                yellow: Color::Rgb(192, 163, 110),
                red: Color::Rgb(195, 64, 67),
                blue: Color::Rgb(126, 156, 216),
                teal: Color::Rgb(127, 180, 202),
                peach: Color::Rgb(255, 160, 102),
            }),
    {
        Palette {
            accent: Color::Rgb(126, 156, 216),
            panel_bg: Color::Rgb(31, 31, 40),
            sidebar_bg: Color::Reset,
            active_row_bg: Color::Rgb(54, 54, 70),
            selection_bg: Color::Rgb(50, 56, 75),
            surface0: Color::Rgb(42, 42, 55),
            surface1: Color::Rgb(54, 54, 70),
            surface_dim: Color::Rgb(31, 31, 40),
            overlay0: Color::Rgb(114, 113, 105),
            overlay1: Color::Rgb(135, 134, 125),
            text: Color::Rgb(220, 215, 186),
            subtext0: Color::Rgb(200, 195, 170),
            mauve: Color::Rgb(149, 127, 184),
            green: Color::Rgb(118, 148, 106),
            yellow: Color::Rgb(192, 163, 110),
            red: Color::Rgb(195, 64, 67),
            blue: Color::Rgb(126, 156, 216),
            teal: Color::Rgb(127, 180, 202),
            peach: Color::Rgb(255, 160, 102),
        }
    }

    /// Kanagawa Lotus - the light Kanagawa variant.
    #[verifier::allow_in_spec]
    pub fn kanagawa_lotus() -> Palette
        returns
            (Palette {
                accent: Color::Rgb(77, 105, 155),
                panel_bg: Color::Rgb(242, 236, 188),
                sidebar_bg: Color::Reset,
                active_row_bg: Color::Rgb(213, 206, 163),
                selection_bg: Color::Rgb(220, 213, 172),
                surface0: Color::Rgb(220, 213, 172),
                surface1: Color::Rgb(201, 203, 209),
                surface_dim: Color::Rgb(213, 206, 163),
                overlay0: Color::Rgb(160, 156, 172),
                overlay1: Color::Rgb(138, 137, 128),
                text: Color::Rgb(84, 84, 100),
                subtext0: Color::Rgb(67, 67, 108),
                mauve: Color::Rgb(98, 76, 131),
                green: Color::Rgb(111, 137, 78),
                yellow: Color::Rgb(119, 113, 63),
                red: Color::Rgb(200, 64, 83),
                blue: Color::Rgb(77, 105, 155),
                teal: Color::Rgb(78, 140, 162),
                peach: Color::Rgb(204, 109, 0),
            }),
    {
        Palette {
            accent: Color::Rgb(77, 105, 155),
            panel_bg: Color::Rgb(242, 236, 188),
            sidebar_bg: Color::Reset,
            active_row_bg: Color::Rgb(213, 206, 163),
            selection_bg: Color::Rgb(220, 213, 172),
            surface0: Color::Rgb(220, 213, 172),
            surface1: Color::Rgb(201, 203, 209),
            surface_dim: Color::Rgb(213, 206, 163),
            overlay0: Color::Rgb(160, 156, 172),
            overlay1: Color::Rgb(138, 137, 128),
            text: Color::Rgb(84, 84, 100),
            subtext0: Color::Rgb(67, 67, 108),
            mauve: Color::Rgb(98, 76, 131),
            green: Color::Rgb(111, 137, 78),
            yellow: Color::Rgb(119, 113, 63),
            red: Color::Rgb(200, 64, 83),
            blue: Color::Rgb(77, 105, 155),
            teal: Color::Rgb(78, 140, 162),
            peach: Color::Rgb(204, 109, 0),
        }
    }

    /// Rose Pine - muted, elegant.
    #[verifier::allow_in_spec]
    pub fn rose_pine() -> Palette
        returns
            (Palette {
                accent: Color::Rgb(196, 167, 231),
                panel_bg: Color::Rgb(25, 23, 36),
                sidebar_bg: Color::Reset,
                active_row_bg: Color::Rgb(38, 35, 58),
                selection_bg: Color::Rgb(59, 52, 75),
                surface0: Color::Rgb(31, 29, 46),
                surface1: Color::Rgb(38, 35, 58),
                surface_dim: Color::Rgb(38, 35, 58),
                overlay0: Color::Rgb(110, 106, 134),
                overlay1: Color::Rgb(144, 140, 170),
                text: Color::Rgb(224, 222, 244),
                subtext0: Color::Rgb(200, 197, 220),
                mauve: Color::Rgb(196, 167, 231),
                green: Color::Rgb(49, 116, 143),
                yellow: Color::Rgb(246, 193, 119),
                red: Color::Rgb(235, 111, 146),
                blue: Color::Rgb(49, 116, 143),
                teal: Color::Rgb(156, 207, 216),
                peach: Color::Rgb(234, 154, 151),
            }),
    {
        Palette {
            accent: Color::Rgb(196, 167, 231),
            panel_bg: Color::Rgb(25, 23, 36),
            sidebar_bg: Color::Reset,
            active_row_bg: Color::Rgb(38, 35, 58),
            selection_bg: Color::Rgb(59, 52, 75),
            surface0: Color::Rgb(31, 29, 46),
            surface1: Color::Rgb(38, 35, 58),
            surface_dim: Color::Rgb(38, 35, 58),
            overlay0: Color::Rgb(110, 106, 134),
            overlay1: Color::Rgb(144, 140, 170),
            text: Color::Rgb(224, 222, 244),
            subtext0: Color::Rgb(200, 197, 220),
            mauve: Color::Rgb(196, 167, 231),
            green: Color::Rgb(49, 116, 143),
            yellow: Color::Rgb(246, 193, 119),
            red: Color::Rgb(235, 111, 146),
            blue: Color::Rgb(49, 116, 143),
            teal: Color::Rgb(156, 207, 216),
            peach: Color::Rgb(234, 154, 151),
        }
    }

    /// Rose Pine Dawn - the light Rose Pine variant.
    #[verifier::allow_in_spec]
    pub fn rose_pine_dawn() -> Palette
        returns
            (Palette {
                accent: Color::Rgb(144, 122, 169),
                panel_bg: Color::Rgb(250, 244, 237),
                sidebar_bg: Color::Reset,
                active_row_bg: Color::Rgb(227, 217, 207),
                selection_bg: Color::Rgb(242, 233, 225),
                surface0: Color::Rgb(242, 233, 225),
                surface1: Color::Rgb(255, 250, 243),
                surface_dim: Color::Rgb(242, 233, 225),
                overlay0: Color::Rgb(152, 147, 165),
                overlay1: Color::Rgb(121, 117, 147),
                text: Color::Rgb(70, 66, 97),
                subtext0: Color::Rgb(121, 117, 147),
                mauve: Color::Rgb(144, 122, 169),
                green: Color::Rgb(40, 105, 131),
                yellow: Color::Rgb(234, 157, 52),
                red: Color::Rgb(180, 99, 122),
                blue: Color::Rgb(40, 105, 131),
                teal: Color::Rgb(86, 148, 159),
                peach: Color::Rgb(215, 130, 126),
            }),
    {
        Palette {
            accent: Color::Rgb(144, 122, 169),
            panel_bg: Color::Rgb(250, 244, 237),
            sidebar_bg: Color::Reset,
            active_row_bg: Color::Rgb(227, 217, 207),
            selection_bg: Color::Rgb(242, 233, 225),
            surface0: Color::Rgb(242, 233, 225),
            surface1: Color::Rgb(255, 250, 243),
            surface_dim: Color::Rgb(242, 233, 225),
            overlay0: Color::Rgb(152, 147, 165),
            overlay1: Color::Rgb(121, 117, 147),
            text: Color::Rgb(70, 66, 97),
            subtext0: Color::Rgb(121, 117, 147),
            mauve: Color::Rgb(144, 122, 169),
            green: Color::Rgb(40, 105, 131),
            yellow: Color::Rgb(234, 157, 52),
            red: Color::Rgb(180, 99, 122),
            blue: Color::Rgb(40, 105, 131),
            teal: Color::Rgb(86, 148, 159),
            peach: Color::Rgb(215, 130, 126),
        }
    }

    /// Vesper - minimal high-contrast monochrome with peach and mint accents.
    #[verifier::allow_in_spec]
    pub fn vesper() -> Palette
        returns
            (Palette {
                accent: Color::Rgb(255, 199, 153),
                panel_bg: Color::Rgb(26, 26, 26),
                sidebar_bg: Color::Reset,
                active_row_bg: Color::Rgb(16, 16, 16),
                selection_bg: Color::Rgb(35, 35, 35),
                surface0: Color::Rgb(35, 35, 35),
                surface1: Color::Rgb(40, 40, 40),
                surface_dim: Color::Rgb(16, 16, 16),
                overlay0: Color::Rgb(92, 92, 92),
                overlay1: Color::Rgb(126, 126, 126),
                text: Color::Rgb(255, 255, 255),
                subtext0: Color::Rgb(160, 160, 160),
                mauve: Color::Rgb(255, 209, 168),
                green: Color::Rgb(153, 255, 228),
                yellow: Color::Rgb(255, 199, 153),
                red: Color::Rgb(255, 128, 128),
                blue: Color::Rgb(176, 176, 176),
                teal: Color::Rgb(102, 221, 204),
                peach: Color::Rgb(255, 199, 153),
            }),
    {
        Palette {
            accent: Color::Rgb(255, 199, 153),
            panel_bg: Color::Rgb(26, 26, 26),
            sidebar_bg: Color::Reset,
            active_row_bg: Color::Rgb(16, 16, 16),
            selection_bg: Color::Rgb(35, 35, 35),
            surface0: Color::Rgb(35, 35, 35),
            surface1: Color::Rgb(40, 40, 40),
            surface_dim: Color::Rgb(16, 16, 16),
            overlay0: Color::Rgb(92, 92, 92),
            overlay1: Color::Rgb(126, 126, 126),
            text: Color::Rgb(255, 255, 255),
            subtext0: Color::Rgb(160, 160, 160),
            mauve: Color::Rgb(255, 209, 168),
            green: Color::Rgb(153, 255, 228),
            yellow: Color::Rgb(255, 199, 153),
            red: Color::Rgb(255, 128, 128),
            blue: Color::Rgb(176, 176, 176),
            teal: Color::Rgb(102, 221, 204),
            peach: Color::Rgb(255, 199, 153),
        }
    }

    /// The palette of a built-in theme.
    pub fn builtin(theme: BuiltinTheme) -> (p: Palette)
        ensures
            p == builtin_palette(theme),
    {
        match theme {
            BuiltinTheme::Catppuccin => Palette::catppuccin(),
            BuiltinTheme::CatppuccinLatte => Palette::catppuccin_latte(),
            BuiltinTheme::Terminal => Palette::terminal(),
            BuiltinTheme::TokyoNight => Palette::tokyo_night(),
            BuiltinTheme::TokyoNightDay => Palette::tokyo_night_day(),
            BuiltinTheme::Dracula => Palette::dracula(),
            BuiltinTheme::Nord => Palette::nord(),
            BuiltinTheme::Gruvbox => Palette::gruvbox(),
            BuiltinTheme::GruvboxLight => Palette::gruvbox_light(),
            BuiltinTheme::OneDark => Palette::one_dark(),
            BuiltinTheme::OneLight => Palette::one_light(),
            BuiltinTheme::Solarized => Palette::solarized(),
            BuiltinTheme::SolarizedLight => Palette::solarized_light(),
            BuiltinTheme::Kanagawa => Palette::kanagawa(),
            BuiltinTheme::KanagawaLotus => Palette::kanagawa_lotus(),
            BuiltinTheme::RosePine => Palette::rose_pine(),
            BuiltinTheme::RosePineDawn => Palette::rose_pine_dawn(),
            BuiltinTheme::Vesper => Palette::vesper(),
        }
    }
}

/// The built-in palette `name` names, after normalizing it; `None` for
/// names of no built-in theme.
pub open spec fn palette_named(name: Seq<char>) -> Option<Palette> {
    match theme_named(normalized_theme_name(name)) {
        Some(t) => Some(builtin_palette(t)),
        None => None,
    }
}

/// The canonical name of the built-in theme `name` names, if any.
pub fn canonical_theme_name(name: &str) -> (r: Option<&'static str>)
    ensures
        match r {
            Some(c) => exists|t: BuiltinTheme| theme_named(normalized_theme_name(name@)) == Some(t)
                && c@ == theme_canonical_name(t),
            None => theme_named(normalized_theme_name(name@)) is None,
        },
{
    let n = normalize_theme_name(name);
    match lookup_theme(n.as_str()) {
        Some(t) => Some(canonical_name_of(t)),
        None => None,
    }
}

/// The light and dark siblings of a theme family: the pair `(dark, light)`
/// of the family `name` belongs to, or `name` itself twice for a theme
/// without a sibling.
pub open spec fn sibling_pair(name: Seq<char>) -> (Seq<char>, Seq<char>) {
    match theme_family(normalized_theme_name(name)) {
        Some(p) => p,
        None => (name, name),
    }
}

/// A dark background: every channel below the middle of its range.
pub open spec fn dark_background(c: Color) -> bool {
    c matches Color::Rgb(r, g, b) && r < 128 && g < 128 && b < 128
}

/// A light background: every channel at or above the middle of its range.
pub open spec fn light_background(c: Color) -> bool {
    c matches Color::Rgb(r, g, b) && r >= 128 && g >= 128 && b >= 128
}

/// For a theme with a sibling, the pair names two built-in themes: first
/// the dark one (its panels have a dark background), then the light one
/// (a light background), and the theme that was named is one of the two.
pub proof fn law_sibling_pairs_go_dark_then_light(name: Seq<char>)
    requires
        theme_family(normalized_theme_name(name)) is Some,
    ensures
        ({
            let (dark, light) = sibling_pair(name);
            &&& theme_named(dark) is Some
            &&& theme_named(light) is Some
            &&& dark_background(builtin_palette(theme_named(dark).unwrap()).panel_bg)
            &&& light_background(builtin_palette(theme_named(light).unwrap()).panel_bg)
            &&& theme_named(normalized_theme_name(name)) == theme_named(dark)
                || theme_named(normalized_theme_name(name)) == theme_named(light)
        }),
{
    reveal_strlit("catppuccin");
    reveal_strlit("catppuccin-mocha");
    reveal_strlit("catppuccin-latte");
    reveal_strlit("latte");
    reveal_strlit("light");
    reveal_strlit("terminal");
    reveal_strlit("tokyo-night");
    reveal_strlit("tokyonight");
    reveal_strlit("tokyo-night-day");
    reveal_strlit("tokyo-day");
    reveal_strlit("tokyonight-day");
    reveal_strlit("dracula");
    reveal_strlit("nord");
    reveal_strlit("gruvbox");
    reveal_strlit("gruvbox-dark");
    reveal_strlit("gruvbox-light");
    reveal_strlit("one-dark");
    reveal_strlit("onedark");
    reveal_strlit("one-light");
    reveal_strlit("onelight");
    reveal_strlit("solarized");
    reveal_strlit("solarized-dark");
    reveal_strlit("solarized-light");
    reveal_strlit("kanagawa");
    reveal_strlit("kanagawa-lotus");
    reveal_strlit("lotus");
    reveal_strlit("rose-pine");
    reveal_strlit("rosepine");
    reveal_strlit("rose-pine-dawn");
    reveal_strlit("rosepine-dawn");
    reveal_strlit("dawn");
    reveal_strlit("vesper");
    assert("catppuccin"@.len() == 10);
    assert("catppuccin-mocha"@.len() == 16);
    assert("catppuccin-latte"@.len() == 16);
    assert("latte"@.len() == 5);
    assert("light"@.len() == 5);
    assert("terminal"@.len() == 8);
    assert("tokyo-night"@.len() == 11);
    assert("tokyonight"@.len() == 10);
    assert("tokyo-night-day"@.len() == 15);
    assert("tokyo-day"@.len() == 9);
    assert("tokyonight-day"@.len() == 14);
    assert("dracula"@.len() == 7);
    assert("nord"@.len() == 4);
    assert("gruvbox"@.len() == 7);
    assert("gruvbox-dark"@.len() == 12);
    assert("gruvbox-light"@.len() == 13);
    assert("one-dark"@.len() == 8);
    assert("onedark"@.len() == 7);
    assert("one-light"@.len() == 9);
    assert("onelight"@.len() == 8);
    assert("solarized"@.len() == 9);
    assert("solarized-dark"@.len() == 14);
    assert("solarized-light"@.len() == 15);
    assert("kanagawa"@.len() == 8);
    assert("kanagawa-lotus"@.len() == 14);
    assert("lotus"@.len() == 5);
    assert("rose-pine"@.len() == 9);
    assert("rosepine"@.len() == 8);
    assert("rose-pine-dawn"@.len() == 14);
    assert("rosepine-dawn"@.len() == 13);
    assert("dawn"@.len() == 4);
    assert("vesper"@.len() == 6);
    assert("catppuccin"@[0] != "tokyonight"@[0]);
    assert("catppuccin-mocha"@[11] != "catppuccin-latte"@[11]);
    assert("latte"@[1] != "light"@[1]);
    assert("latte"@[1] != "lotus"@[1]);
    assert("light"@[1] != "lotus"@[1]);
    assert("terminal"@[0] != "one-dark"@[0]);
    assert("terminal"@[0] != "onelight"@[0]);
    assert("terminal"@[0] != "kanagawa"@[0]);
    assert("terminal"@[0] != "rosepine"@[0]);
    assert("tokyo-night-day"@[0] != "solarized-light"@[0]);
    assert("tokyo-day"@[0] != "one-light"@[0]);
    assert("tokyo-day"@[0] != "solarized"@[0]);
    assert("tokyo-day"@[0] != "rose-pine"@[0]);
    assert("tokyonight-day"@[0] != "solarized-dark"@[0]);
    assert("tokyonight-day"@[0] != "kanagawa-lotus"@[0]);
    assert("tokyonight-day"@[0] != "rose-pine-dawn"@[0]);
    assert("dracula"@[0] != "gruvbox"@[0]);
    assert("dracula"@[0] != "onedark"@[0]);
    assert("nord"@[0] != "dawn"@[0]);
    assert("gruvbox"@[0] != "onedark"@[0]);
    assert("gruvbox-light"@[0] != "rosepine-dawn"@[0]);
    assert("one-dark"@[3] != "onelight"@[3]);
    assert("one-dark"@[0] != "kanagawa"@[0]);
    assert("one-dark"@[0] != "rosepine"@[0]);
    assert("one-light"@[0] != "solarized"@[0]);
    assert("one-light"@[0] != "rose-pine"@[0]);
    assert("onelight"@[0] != "kanagawa"@[0]);
    assert("onelight"@[0] != "rosepine"@[0]);
    assert("solarized"@[0] != "rose-pine"@[0]);
    assert("solarized-dark"@[0] != "kanagawa-lotus"@[0]);
    assert("solarized-dark"@[0] != "rose-pine-dawn"@[0]);
    assert("kanagawa"@[0] != "rosepine"@[0]);
    assert("kanagawa-lotus"@[0] != "rose-pine-dawn"@[0]);
    let n = normalized_theme_name(name);
    let (dark, light) = theme_family(n).unwrap();
    let td = theme_named(dark).unwrap();
    let tl = theme_named(light).unwrap();
    assert(dark_background(builtin_palette(td).panel_bg) && light_background(builtin_palette(tl).panel_bg)) by {
        if dark == "catppuccin"@ {
            assert(builtin_palette(td) == Palette::catppuccin());
            assert(builtin_palette(tl) == Palette::catppuccin_latte());
        } else if dark == "tokyo-night"@ {
            assert(builtin_palette(td) == Palette::tokyo_night());
            assert(builtin_palette(tl) == Palette::tokyo_night_day());
        } else if dark == "gruvbox"@ {
            assert(builtin_palette(td) == Palette::gruvbox());
            assert(builtin_palette(tl) == Palette::gruvbox_light());
        } else if dark == "one-dark"@ {
            assert(builtin_palette(td) == Palette::one_dark());
            assert(builtin_palette(tl) == Palette::one_light());
        } else if dark == "solarized"@ {
            assert(builtin_palette(td) == Palette::solarized());
            assert(builtin_palette(tl) == Palette::solarized_light());
        } else if dark == "kanagawa"@ {
            assert(builtin_palette(td) == Palette::kanagawa());
            assert(builtin_palette(tl) == Palette::kanagawa_lotus());
        } else {
            assert(builtin_palette(td) == Palette::rose_pine());
            assert(builtin_palette(tl) == Palette::rose_pine_dawn());
        }
    }

}

/// The dark and light theme names of the family `name` belongs to.
pub fn sibling_theme_names(name: &str) -> (r: (String, String))
    ensures
        (r.0@, r.1@) == sibling_pair(name@),
{
    let n = normalize_theme_name(name);
    match family_of(n.as_str()) {
        Some(p) => p,
        None => (owned(name), owned(name)),
    }
}

/// After an override of one color: unchanged when no override is given,
/// else a color that `parse_color` gives for the override's text.
pub open spec fn color_after<P: Fn(&String) -> Color>(
    parse_color: P,
    o: Option<String>,
    before: Color,
    after: Color,
) -> bool {
    match o {
        None => after == before,
        Some(s) => parse_color.ensures((&s,), after),
    }
}

/// `after` is `before` with every override of `custom` applied.
pub open spec fn overrides_applied<P: Fn(&String) -> Color>(
    parse_color: P,
    custom: CustomThemeColors,
    before: Palette,
    after: Palette,
) -> bool {
    &&& color_after(parse_color, custom.accent, before.accent, after.accent)
    &&& color_after(parse_color, custom.panel_bg, before.panel_bg, after.panel_bg)
    &&& color_after(parse_color, custom.sidebar_bg, before.sidebar_bg, after.sidebar_bg)
    &&& color_after(parse_color, custom.active_row_bg, before.active_row_bg, after.active_row_bg)
    &&& color_after(parse_color, custom.selection_bg, before.selection_bg, after.selection_bg)
    &&& color_after(parse_color, custom.surface0, before.surface0, after.surface0)
    &&& color_after(parse_color, custom.surface1, before.surface1, after.surface1)
    &&& color_after(parse_color, custom.surface_dim, before.surface_dim, after.surface_dim)
    &&& color_after(parse_color, custom.overlay0, before.overlay0, after.overlay0)
    &&& color_after(parse_color, custom.overlay1, before.overlay1, after.overlay1)
    &&& color_after(parse_color, custom.text, before.text, after.text)
    &&& color_after(parse_color, custom.subtext0, before.subtext0, after.subtext0)
    &&& color_after(parse_color, custom.mauve, before.mauve, after.mauve)
    &&& color_after(parse_color, custom.green, before.green, after.green)
    &&& color_after(parse_color, custom.yellow, before.yellow, after.yellow)
    &&& color_after(parse_color, custom.red, before.red, after.red)
    &&& color_after(parse_color, custom.blue, before.blue, after.blue)
    &&& color_after(parse_color, custom.teal, before.teal, after.teal)
    &&& color_after(parse_color, custom.peach, before.peach, after.peach)
}

fn override_color<P: Fn(&String) -> Color>(parse_color: &P, o: &Option<String>, before: Color) -> (r: Color)
    requires
        forall|s: &String| #[trigger] parse_color.requires((s,)),
    ensures
        color_after(*parse_color, *o, before, r),
{
    match o {
        Some(c) => parse_color(c),
        None => before,
    }
}

impl Palette {
    /// The palette with the custom colors of `custom` put over it; each
    /// override's text becomes a color through `parse_color`.
    pub fn with_overrides<P: Fn(&String) -> Color>(self, custom: &CustomThemeColors, parse_color: &P) -> (r: Palette)
        requires
            forall|s: &String| #[trigger] parse_color.requires((s,)),
        ensures
            overrides_applied(*parse_color, *custom, self, r),
    {
        Palette {
            accent: override_color(parse_color, &custom.accent, self.accent),
            panel_bg: override_color(parse_color, &custom.panel_bg, self.panel_bg),
            sidebar_bg: override_color(parse_color, &custom.sidebar_bg, self.sidebar_bg),
            active_row_bg: override_color(parse_color, &custom.active_row_bg, self.active_row_bg),
            selection_bg: override_color(parse_color, &custom.selection_bg, self.selection_bg),
            surface0: override_color(parse_color, &custom.surface0, self.surface0),
            surface1: override_color(parse_color, &custom.surface1, self.surface1),
            surface_dim: override_color(parse_color, &custom.surface_dim, self.surface_dim),
            overlay0: override_color(parse_color, &custom.overlay0, self.overlay0),
            overlay1: override_color(parse_color, &custom.overlay1, self.overlay1),
            text: override_color(parse_color, &custom.text, self.text),
            subtext0: override_color(parse_color, &custom.subtext0, self.subtext0),
            mauve: override_color(parse_color, &custom.mauve, self.mauve),
            green: override_color(parse_color, &custom.green, self.green),
            yellow: override_color(parse_color, &custom.yellow, self.yellow),
            red: override_color(parse_color, &custom.red, self.red),
            blue: override_color(parse_color, &custom.blue, self.blue),
            teal: override_color(parse_color, &custom.teal, self.teal),
            peach: override_color(parse_color, &custom.peach, self.peach),
        }
    }

    /// The built-in palette `name` names; `None` for unknown names.
    pub fn from_name(name: &str) -> (r: Option<Palette>)
        ensures
            r == palette_named(name@),
    {
        let n = normalize_theme_name(name);
        match lookup_theme(n.as_str()) {
            Some(t) => Some(Palette::builtin(t)),
            None => None,
        }
    }
}

fn clone_opt_string(o: &Option<String>) -> (r: Option<String>)
    ensures
        r == *o,
{
    match o {
        Some(s) => Some(s.clone()),
        None => None,
    }
}

fn clone_custom(c: &CustomThemeColors) -> (r: CustomThemeColors)
    ensures
        r == *c,
{
    CustomThemeColors {
        accent: clone_opt_string(&c.accent),
        panel_bg: clone_opt_string(&c.panel_bg),
        sidebar_bg: clone_opt_string(&c.sidebar_bg),
        active_row_bg: clone_opt_string(&c.active_row_bg),
        selection_bg: clone_opt_string(&c.selection_bg),
        surface0: clone_opt_string(&c.surface0),
        surface1: clone_opt_string(&c.surface1),
        surface_dim: clone_opt_string(&c.surface_dim),
        overlay0: clone_opt_string(&c.overlay0),
        overlay1: clone_opt_string(&c.overlay1),
        text: clone_opt_string(&c.text),
        subtext0: clone_opt_string(&c.subtext0),
        mauve: clone_opt_string(&c.mauve),
        green: clone_opt_string(&c.green),
        yellow: clone_opt_string(&c.yellow),
        red: clone_opt_string(&c.red),
        blue: clone_opt_string(&c.blue),
        teal: clone_opt_string(&c.teal),
        peach: clone_opt_string(&c.peach),
    }
}

/// The theme a session picks by hand: the configured name, else
/// `catppuccin`.
pub open spec fn manual_theme_name(theme: ThemeConfig) -> Seq<char> {
    match theme.name {
        Some(n) => n@,
        None => "catppuccin"@,
    }
}

/// The legacy `ui.accent` setting still colors the accent: only when asked
/// for, when it is not the default `cyan`, and when no custom accent is set.
pub open spec fn legacy_accent_applies(theme: ThemeConfig, ui_accent: Seq<char>, use_legacy_ui_accent: bool) -> bool {
    &&& use_legacy_ui_accent
    &&& ui_accent != "cyan"@
    &&& match theme.custom {
        Some(c) => c.accent is None,
        None => true,
    }
}

/// The runtime theme settings for the `[theme]` table `theme` and the
/// legacy `ui.accent` value `ui_accent`: the manual name (default
/// `catppuccin`), the dark and light names (defaulting to the manual
/// theme's siblings), the auto-switch flag and custom colors as set, and the
/// legacy accent when it still applies.
pub fn theme_runtime_config(theme: &ThemeConfig, ui_accent: &str, use_legacy_ui_accent: bool) -> (r: ThemeRuntimeConfig)
    ensures
        r.manual_name@ == manual_theme_name(*theme),
        r.dark_name@ == match theme.dark_name {
            Some(d) => d@,
            None => sibling_pair(manual_theme_name(*theme)).0,
        },
        r.light_name@ == match theme.light_name {
            Some(l) => l@,
            None => sibling_pair(manual_theme_name(*theme)).1,
        },
        r.auto_switch == theme.auto_switch,
        r.custom == theme.custom,
        match r.legacy_accent {
            Some(a) => legacy_accent_applies(*theme, ui_accent@, use_legacy_ui_accent) && a@ == ui_accent@,
            None => !legacy_accent_applies(*theme, ui_accent@, use_legacy_ui_accent),
        },
{
    let manual_name = match &theme.name {
        Some(n) => n.clone(),
        None => owned("catppuccin"),
    };
    let (default_dark, default_light) = sibling_theme_names(manual_name.as_str());
    let dark_name = match &theme.dark_name {
        Some(d) => d.clone(),
        None => default_dark,
    };
    let light_name = match &theme.light_name {
        Some(l) => l.clone(),
        None => default_light,
    };
    let custom = match &theme.custom {
        Some(c) => Some(clone_custom(c)),
        None => None,
    };
    let custom_accent_set = match &theme.custom {
        Some(c) => c.accent.is_some(),
        None => false,
    };
    let legacy_accent = if use_legacy_ui_accent && !str_eq(ui_accent, "cyan") && !custom_accent_set {
        Some(owned(ui_accent))
    } else {
        None
    };
    ThemeRuntimeConfig {
        manual_name,
        dark_name,
        light_name,
        auto_switch: theme.auto_switch,
        custom,
        legacy_accent,
    }
}

/// The palette a lookup of `name` starts from: its built-in palette, else
/// that of `fallback_name`, else Catppuccin.
pub open spec fn base_palette(name: Seq<char>, fallback_name: Seq<char>) -> Palette {
    match palette_named(name) {
        Some(p) => p,
        None => match palette_named(fallback_name) {
            Some(p) => p,
            None => Palette::catppuccin(),
        },
    }
}

/// `after` is `before` with the custom colors, if any, applied.
pub open spec fn custom_colors_applied<P: Fn(&String) -> Color>(
    parse_color: P,
    custom: Option<CustomThemeColors>,
    before: Palette,
    after: Palette,
) -> bool {
    match custom {
        Some(c) => overrides_applied(parse_color, c, before, after),
        None => after == before,
    }
}

/// `p` with its accent replaced by `accent`.
pub open spec fn with_accent(p: Palette, accent: Color) -> Palette {
    Palette { accent, ..p }
}

/// `p` is the palette for theme `name` (falling back to `fallback_name`)
/// under the runtime settings: the base palette with the custom colors
/// over it, and the legacy accent, when set, over those.
pub open spec fn palette_resolved<P: Fn(&String) -> Color>(
    parse_color: P,
    name: Seq<char>,
    fallback_name: Seq<char>,
    runtime: ThemeRuntimeConfig,
    p: Palette,
) -> bool {
    exists|customized: Palette| {
        &&& #[trigger] custom_colors_applied(parse_color, runtime.custom, base_palette(name, fallback_name), customized)
        &&& match runtime.legacy_accent {
            Some(a) => parse_color.ensures((&a,), p.accent) && p == with_accent(customized, p.accent),
            None => p == customized,
        }
    }
}

/// The palette for theme `name`, falling back to `fallback_name` and then
/// to Catppuccin when a name is unknown, with the session's custom colors
/// and legacy accent applied.
pub fn resolve_palette_for_theme_name<P: Fn(&String) -> Color>(
    name: &str,
    fallback_name: &str,
    runtime: &ThemeRuntimeConfig,
    parse_color: &P,
) -> (r: Palette)
    requires
        forall|s: &String| #[trigger] parse_color.requires((s,)),
    ensures
        palette_resolved(*parse_color, name@, fallback_name@, *runtime, r),
{
    let base = match Palette::from_name(name) {
        Some(p) => p,
        None => match Palette::from_name(fallback_name) {
            Some(p) => p,
            None => Palette::catppuccin(),
        },
    };
    let customized = match &runtime.custom {
        Some(c) => base.with_overrides(c, parse_color),
        None => base,
    };
    let mut palette = customized;
    if let Some(accent) = &runtime.legacy_accent {
        palette.accent = parse_color(accent);
    }
    proof {
        assert(custom_colors_applied(*parse_color, runtime.custom, base_palette(name@, fallback_name@), customized));
        assert(palette == with_accent(customized, palette.accent) || runtime.legacy_accent is None);
    }
    palette
}

/// The theme a session shows, and the theme it falls back to: with
/// auto-switch on, the dark or light theme for the host's appearance (dark
/// when unknown); otherwise the manual theme.
pub open spec fn effective_theme_names(runtime: ThemeRuntimeConfig, appearance: Option<HostAppearance>) -> (Seq<char>, Seq<char>) {
    if runtime.auto_switch {
        match appearance {
            Some(HostAppearance::Light) => (runtime.light_name@, "catppuccin-latte"@),
            _ => (runtime.dark_name@, "catppuccin"@),
        }
    } else {
        (runtime.manual_name@, "catppuccin"@)
    }
}

/// The palette the session shows for the host appearance `appearance`, and
/// the name of the theme it was resolved from.
pub fn resolve_effective_theme<P: Fn(&String) -> Color>(
    runtime: &ThemeRuntimeConfig,
    appearance: Option<HostAppearance>,
    parse_color: &P,
) -> (r: (Palette, String))
    requires
        forall|s: &String| #[trigger] parse_color.requires((s,)),
    ensures
        r.1@ == effective_theme_names(*runtime, appearance).0,
        palette_resolved(*parse_color, effective_theme_names(*runtime, appearance).0,
            effective_theme_names(*runtime, appearance).1, *runtime, r.0),
{
    let (name, fallback) = if runtime.auto_switch {
        match appearance {
            Some(HostAppearance::Light) => (&runtime.light_name, "catppuccin-latte"),
            _ => (&runtime.dark_name, "catppuccin"),
        }
    } else {
        (&runtime.manual_name, "catppuccin")
    };
    let palette = resolve_palette_for_theme_name(name.as_str(), fallback, runtime, parse_color);
    (palette, name.clone())
}

/// No built-in theme sets a sidebar background: every one keeps the
/// terminal's own.
pub proof fn law_builtin_themes_leave_sidebar_unset(theme: BuiltinTheme)
    ensures
        builtin_palette(theme).sidebar_bg == Color::Reset,
{
}

/// On every built-in theme but the 16-color terminal one, the Navigate
/// cursor row is colored apart from the active row.
pub proof fn law_builtin_selection_differs_from_active_row(theme: BuiltinTheme)
    requires
        theme != BuiltinTheme::Terminal,
    ensures
        builtin_palette(theme).selection_bg != builtin_palette(theme).active_row_bg,
{
}

/// A palette with no custom colors and no legacy accent is the built-in
/// palette of its name.
pub proof fn law_plain_settings_keep_builtin_palette<P: Fn(&String) -> Color>(
    parse_color: P,
    name: Seq<char>,
    fallback_name: Seq<char>,
    runtime: ThemeRuntimeConfig,
    p: Palette,
)
    requires
        runtime.custom is None,
        runtime.legacy_accent is None,
        palette_resolved(parse_color, name, fallback_name, runtime, p),
    ensures
        p == base_palette(name, fallback_name),
{
}

/// `custom` overrides no color.
pub open spec fn no_overrides(c: CustomThemeColors) -> bool {
    &&& c.accent is None
    &&& c.panel_bg is None
    &&& c.sidebar_bg is None
    &&& c.active_row_bg is None
    &&& c.selection_bg is None
    &&& c.surface0 is None
    &&& c.surface1 is None
    &&& c.surface_dim is None
    &&& c.overlay0 is None
    &&& c.overlay1 is None
    &&& c.text is None
    &&& c.subtext0 is None
    &&& c.mauve is None
    &&& c.green is None
    &&& c.yellow is None
    &&& c.red is None
    &&& c.blue is None
    &&& c.teal is None
    &&& c.peach is None
}

/// `parse_color` gives one color for each text.
pub open spec fn parser_deterministic<P: Fn(&String) -> Color>(parse_color: P) -> bool {
    forall|s: &String, a: Color, b: Color| #[trigger] parse_color.ensures((s,), a) && #[trigger] parse_color.ensures((s,), b) ==> a == b
}

/// Putting a table without custom colors over a palette leaves it as it
/// was.
pub proof fn law_empty_overrides_keep_palette<P: Fn(&String) -> Color>(
    parse_color: P,
    custom: CustomThemeColors,
    before: Palette,
    after: Palette,
)
    requires
        no_overrides(custom),
        overrides_applied(parse_color, custom, before, after),
    ensures
        after == before,
{
}

/// Putting the same custom colors over a palette twice gives what putting
/// them over it once gives, for a color parser that gives one color per
/// text.
pub proof fn law_overrides_are_idempotent<P: Fn(&String) -> Color>(
    parse_color: P,
    custom: CustomThemeColors,
    p: Palette,
    once: Palette,
    twice: Palette,
)
    requires
        parser_deterministic(parse_color),
        overrides_applied(parse_color, custom, p, once),
        overrides_applied(parse_color, custom, once, twice),
    ensures
        twice == once,
{
}

} // verus!
