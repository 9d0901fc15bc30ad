use bora::theme::{
    canonical_theme_name, normalize_theme_name, resolve_effective_theme,
    resolve_palette_for_theme_name, sibling_theme_names, theme_runtime_config, Color,
    CustomThemeColors, HostAppearance, Palette, ThemeConfig, ThemeRuntimeConfig,
};

const THEME_NAMES: [&str; 18] = [
    "catppuccin",
    "catppuccin-latte",
    "terminal",
    "tokyo-night",
    "tokyo-night-day",
    "dracula",
    "nord",
    "gruvbox",
    "gruvbox-light",
    "one-dark",
    "one-light",
    "solarized",
    "solarized-light",
    "kanagawa",
    "kanagawa-lotus",
    "rose-pine",
    "rose-pine-dawn",
    "vesper",
];

/// `#rrggbb` to a color; anything else to `Reset`.
fn parse_color(s: &String) -> Color {
    let hex = s.trim_start_matches('#');
    if hex.len() == 6 {
        if let (Ok(r), Ok(g), Ok(b)) = (
            u8::from_str_radix(&hex[0..2], 16),
            u8::from_str_radix(&hex[2..4], 16),
            u8::from_str_radix(&hex[4..6], 16),
        ) {
            return Color::Rgb(r, g, b);
        }
    }
    Color::Reset
}

fn runtime(name: &str) -> ThemeRuntimeConfig {
    ThemeRuntimeConfig {
        manual_name: name.to_string(),
        dark_name: "tokyo-night".to_string(),
        light_name: "tokyo-night-day".to_string(),
        auto_switch: false,
        custom: None,
        legacy_accent: None,
    }
}

#[test]
fn built_in_theme_names_resolve() {
    for name in THEME_NAMES {
        assert!(Palette::from_name(name).is_some(), "theme should resolve: {name}");
        assert_eq!(canonical_theme_name(name), Some(name));
    }
}

#[test]
fn light_theme_aliases_resolve() {
    for name in ["light", "latte", "tokyo-day", "onelight", "lotus", "dawn"] {
        assert!(Palette::from_name(name).is_some(), "theme should resolve: {name}");
    }
    assert_eq!(Palette::from_name("latte"), Some(Palette::catppuccin_latte()));
    assert_eq!(Palette::from_name("Rose Pine"), Some(Palette::rose_pine()));
    assert_eq!(Palette::from_name("TOKYO_NIGHT"), Some(Palette::tokyo_night()));
    assert_eq!(canonical_theme_name("Catppuccin Mocha"), Some("catppuccin"));
}

#[test]
fn unknown_theme_names_do_not_resolve() {
    assert_eq!(Palette::from_name("no-such-theme"), None);
    assert_eq!(canonical_theme_name("no-such-theme"), None);
}

#[test]
fn built_in_themes_leave_sidebar_background_unset() {
    for name in THEME_NAMES {
        let palette = Palette::from_name(name).unwrap();
        assert_eq!(palette.sidebar_bg, Color::Reset, "built-in theme changed the sidebar background: {name}");
    }
}

#[test]
fn built_in_selection_rows_differ_from_active_rows() {
    for name in THEME_NAMES.iter().copied().filter(|name| *name != "terminal") {
        let palette = Palette::from_name(name).unwrap();
        assert_ne!(palette.selection_bg, palette.active_row_bg, "{name}");
    }
}

#[test]
fn custom_sidebar_colors_override_the_defaults() {
    let custom = CustomThemeColors {
        sidebar_bg: Some("#181825".to_string()),
        active_row_bg: Some("#313244".to_string()),
        selection_bg: Some("#45475a".to_string()),
        ..Default::default()
    };
    let palette = Palette::catppuccin().with_overrides(&custom, &parse_color);

    assert_eq!(palette.sidebar_bg, Color::Rgb(24, 24, 37));
    assert_eq!(palette.active_row_bg, Color::Rgb(49, 50, 68));
    assert_eq!(palette.selection_bg, Color::Rgb(69, 71, 90));
    assert_eq!(palette.accent, Palette::catppuccin().accent);
    assert_eq!(palette.peach, Palette::catppuccin().peach);
}

#[test]
fn normalize_theme_name_lowercases_and_hyphenates() {
    assert_eq!(normalize_theme_name("Tokyo Night_Day"), "tokyo-night-day");
    assert_eq!(normalize_theme_name("nord"), "nord");
    assert_eq!(normalize_theme_name(""), "");
}

#[test]
fn sibling_theme_names_pair_dark_and_light_variants() {
    assert_eq!(
        sibling_theme_names("latte"),
        ("catppuccin".to_string(), "catppuccin-latte".to_string())
    );
    assert_eq!(
        sibling_theme_names("Gruvbox Light"),
        ("gruvbox".to_string(), "gruvbox-light".to_string())
    );
    assert_eq!(
        sibling_theme_names("dawn"),
        ("rose-pine".to_string(), "rose-pine-dawn".to_string())
    );
    assert_eq!(sibling_theme_names("Dracula"), ("Dracula".to_string(), "Dracula".to_string()));
}

#[test]
fn runtime_config_defaults_to_catppuccin_and_its_siblings() {
    let theme = ThemeConfig::default();
    let rt = theme_runtime_config(&theme, "cyan", true);
    assert_eq!(rt.manual_name, "catppuccin");
    assert_eq!(rt.dark_name, "catppuccin");
    assert_eq!(rt.light_name, "catppuccin-latte");
    assert!(!rt.auto_switch);
    assert_eq!(rt.custom, None);
    assert_eq!(rt.legacy_accent, None);
}

#[test]
fn runtime_config_keeps_explicit_names_and_legacy_accent_rules() {
    let theme = ThemeConfig {
        name: Some("one-light".to_string()),
        dark_name: None,
        light_name: Some("nord".to_string()),
        auto_switch: true,
        custom: None,
    };
    let rt = theme_runtime_config(&theme, "#ff0000", true);
    assert_eq!(rt.manual_name, "one-light");
    assert_eq!(rt.dark_name, "one-dark");
    assert_eq!(rt.light_name, "nord");
    assert!(rt.auto_switch);
    assert_eq!(rt.legacy_accent.as_deref(), Some("#ff0000"));
    assert_eq!(theme_runtime_config(&theme, "#ff0000", false).legacy_accent, None);
    let with_custom_accent = ThemeConfig {
        custom: Some(CustomThemeColors { accent: Some("#00ff00".to_string()), ..Default::default() }),
        ..theme.clone()
    };
    assert_eq!(theme_runtime_config(&with_custom_accent, "#ff0000", true).legacy_accent, None);
}

#[test]
fn resolve_falls_back_for_unknown_names() {
    let rt = runtime("nope");
    assert_eq!(resolve_palette_for_theme_name("nope", "nord", &rt, &parse_color), Palette::nord());
    assert_eq!(
        resolve_palette_for_theme_name("nope", "also-nope", &rt, &parse_color),
        Palette::catppuccin()
    );
    assert_eq!(resolve_palette_for_theme_name("vesper", "nord", &rt, &parse_color), Palette::vesper());
}

#[test]
fn resolve_applies_custom_colors_then_legacy_accent() {
    let mut rt = runtime("dracula");
    rt.custom = Some(CustomThemeColors {
        accent: Some("#010203".to_string()),
        text: Some("#0a0b0c".to_string()),
        ..Default::default()
    });
    rt.legacy_accent = Some("#ffffff".to_string());
    let p = resolve_palette_for_theme_name("dracula", "catppuccin", &rt, &parse_color);
    assert_eq!(p.accent, Color::Rgb(255, 255, 255));
    assert_eq!(p.text, Color::Rgb(10, 11, 12));
    assert_eq!(p.panel_bg, Palette::dracula().panel_bg);
}

#[test]
fn effective_theme_follows_host_appearance_when_auto_switching() {
    let mut rt = runtime("gruvbox");
    let (p, name) = resolve_effective_theme(&rt, Some(HostAppearance::Light), &parse_color);
    assert_eq!(name, "gruvbox");
    assert_eq!(p, Palette::gruvbox());
    rt.auto_switch = true;
    let (p, name) = resolve_effective_theme(&rt, Some(HostAppearance::Light), &parse_color);
    assert_eq!(name, "tokyo-night-day");
    assert_eq!(p, Palette::tokyo_night_day());
    let (p, name) = resolve_effective_theme(&rt, None, &parse_color);
    assert_eq!(name, "tokyo-night");
    assert_eq!(p, Palette::tokyo_night());
    rt.light_name = "bogus".to_string();
    let (p, _) = resolve_effective_theme(&rt, Some(HostAppearance::Light), &parse_color);
    assert_eq!(p, Palette::catppuccin_latte());
}

#[test]
fn empty_overrides_keep_the_palette() {
    let palette = Palette::catppuccin();
    assert_eq!(palette.with_overrides(&CustomThemeColors::default(), &parse_color), palette);
}

#[test]
fn overrides_applied_twice_equal_overrides_applied_once() {
    let custom = CustomThemeColors {
        accent: Some("#ff0000".to_string()),
        text: Some("#00ff00".to_string()),
        ..Default::default()
    };
    let once = Palette::nord().with_overrides(&custom, &parse_color);
    let twice = once.with_overrides(&custom, &parse_color);
    assert_eq!(once, twice);
    assert_eq!(once.accent, Color::Rgb(255, 0, 0));
}
