use warp_background::dither::DitherConfig;
use warp_background::theme::{
    active_theme_kind, derived_theme_kind, respect_system_theme, CustomTheme, RespectSystemTheme,
    SelectedSystemThemes, SystemTheme, SystemThemes, Theme, ThemeKind, ThemeSettings,
};
use warp_background::theme_image::{BackgroundShader, ThemeImage};

/// The user's themes directory in these tests.
const THEMES_DIR: &str = "/home/tester/.warp/themes";

fn themes_dir_join(file: &str) -> String {
    format!("{}/{}", THEMES_DIR, file)
}

fn custom(path: String) -> ThemeKind {
    ThemeKind::Custom(CustomTheme::new("Custom".to_string(), path))
}

fn custom_base16(path: String) -> ThemeKind {
    ThemeKind::CustomBase16(CustomTheme::new("Base16 Custom".to_string(), path))
}

#[test]
fn theme_kind_syncs_custom_theme_under_theme_root() {
    let setting = Theme::new(Some(custom(themes_dir_join("custom.yml"))));

    assert!(setting.current_value_is_syncable(THEMES_DIR));
}

#[test]
fn theme_kind_does_not_sync_custom_theme_outside_a_theme_root() {
    let setting = Theme::new(Some(custom("/tmp/custom.yml".to_string())));

    assert!(!setting.current_value_is_syncable(THEMES_DIR));
}

#[test]
fn theme_kind_syncs_custom_base16_theme_under_theme_root() {
    let setting = Theme::new(Some(custom_base16(themes_dir_join("base16/custom.yml"))));

    assert!(setting.current_value_is_syncable(THEMES_DIR));
}

#[test]
fn selected_system_themes_sync_when_custom_paths_are_under_theme_root() {
    let setting = SystemThemes::new(Some(SelectedSystemThemes {
        light: custom(themes_dir_join("light.yml")),
        dark: custom_base16(themes_dir_join("dark.yml")),
    }));

    assert!(setting.current_value_is_syncable(THEMES_DIR));
}

#[test]
fn selected_system_themes_do_not_sync_when_one_custom_path_is_outside_a_theme_root() {
    let setting = SystemThemes::new(Some(SelectedSystemThemes {
        light: custom(themes_dir_join("light.yml")),
        dark: custom("/tmp/dark.yml".to_string()),
    }));

    assert!(!setting.current_value_is_syncable(THEMES_DIR));
}

#[test]
fn built_in_theme_settings_remain_syncable() {
    let theme = Theme::new(Some(ThemeKind::Dark));
    let system_themes = SystemThemes::new(Some(SelectedSystemThemes {
        light: ThemeKind::Light,
        dark: ThemeKind::Dark,
    }));

    assert!(theme.current_value_is_syncable(THEMES_DIR));
    assert!(system_themes.current_value_is_syncable(THEMES_DIR));
}

#[test]
fn a_sibling_directory_with_the_same_prefix_is_not_under_the_theme_root() {
    let setting = Theme::new(Some(custom(format!("{}-old/custom.yml", THEMES_DIR))));

    assert!(!setting.current_value_is_syncable(THEMES_DIR));
}

fn dither_settings(
    size: Option<u8>,
    strength: Option<u8>,
    animated: Option<bool>,
) -> ThemeSettings {
    ThemeSettings {
        theme_kind: Theme::new(None),
        use_system_theme: false,
        selected_system_themes: SystemThemes::new(None),
        dither_enabled: None,
        dither_pixel_size: size,
        dither_strength: strength,
        dither_animated: animated,
    }
}

#[test]
fn dither_overrides_preserve_theme_defaults_until_changed() {
    let theme = DitherConfig {
        pixel_size: 7,
        strength: 42,
        animated: false,
    };
    assert_eq!(
        dither_settings(None, None, None).dither_config(theme),
        theme
    );
    assert_eq!(
        dither_settings(Some(12), Some(80), Some(true)).dither_config(theme),
        DitherConfig {
            pixel_size: 12,
            strength: 80,
            animated: true
        }
    );
}

#[test]
fn dither_overrides_clamp_config_file_values() {
    let config =
        dither_settings(Some(0), Some(255), Some(false)).dither_config(DitherConfig::default());
    assert_eq!(config.pixel_size, 1);
    assert_eq!(config.strength, 100);
    assert!(!config.should_animate(true));
    let config =
        dither_settings(Some(255), Some(0), Some(true)).dither_config(DitherConfig::default());
    assert_eq!(config.pixel_size, 32);
    assert!(!config.should_animate(true));
}

#[test]
fn dither_defaults_to_off_for_plain_images_and_on_for_legacy_shaders() {
    let settings = dither_settings(None, None, None);
    assert!(!settings.resolve_dither(None).enabled);
    assert!(
        settings
            .resolve_dither(Some(BackgroundShader::Dither(DitherConfig::default())))
            .enabled
    );
}

#[test]
fn dither_saved_boolean_overrides_apply_to_any_image() {
    let mut settings = dither_settings(Some(12), Some(65), Some(false));
    let legacy = Some(BackgroundShader::Dither(DitherConfig::default()));
    let saved_enabled = serde_json::to_string(&true).unwrap();
    settings.dither_enabled = Some(serde_json::from_str(&saved_enabled).unwrap());
    let enabled = settings.resolve_dither(None);
    assert!(enabled.enabled);
    assert_eq!(enabled.config.pixel_size, 12);
    assert_eq!(settings.resolve_dither(legacy), enabled);

    settings.dither_enabled = serde_json::from_str("false").unwrap();
    let disabled = settings.resolve_dither(legacy);
    assert!(!disabled.enabled);
    assert_eq!(disabled.config, enabled.config);
    assert_eq!(
        serde_json::to_string(&settings.dither_enabled).unwrap(),
        "false"
    );
}

#[test]
fn dither_is_unavailable_without_a_background_image() {
    let mut settings = dither_settings(None, None, None);
    settings.dither_enabled = Some(true);
    assert!(settings.background_dither(true, None).is_none());
}

#[test]
fn dither_is_unavailable_where_the_build_cannot_draw_it() {
    let settings = dither_settings(None, None, None);
    let image = ThemeImage {
        opacity: 65,
        shader: Some(BackgroundShader::Dither(DitherConfig::default())),
    };
    assert!(settings.background_dither(false, Some(image)).is_none());
    let state = settings.background_dither(true, Some(image)).unwrap();
    assert!(state.enabled);
    assert_eq!(state.config, DitherConfig::default());
}

fn selection() -> SelectedSystemThemes {
    SelectedSystemThemes {
        light: custom(themes_dir_join("light.yml")),
        dark: ThemeKind::Dark,
    }
}

#[test]
fn following_the_system_picks_the_theme_for_its_appearance() {
    let settings = ThemeSettings {
        theme_kind: Theme::new(Some(ThemeKind::Light)),
        use_system_theme: true,
        selected_system_themes: SystemThemes::new(Some(selection())),
        dither_enabled: None,
        dither_pixel_size: None,
        dither_strength: None,
        dither_animated: None,
    };
    assert_eq!(respect_system_theme(&settings), RespectSystemTheme::On(selection()));
    assert_eq!(
        derived_theme_kind(&settings, SystemTheme::Light),
        custom(themes_dir_join("light.yml"))
    );
    assert_eq!(derived_theme_kind(&settings, SystemTheme::Dark), ThemeKind::Dark);
    assert_eq!(active_theme_kind(&settings, SystemTheme::Dark), ThemeKind::Dark);
}

#[test]
fn a_fixed_theme_ignores_the_system_appearance() {
    let settings = ThemeSettings {
        theme_kind: Theme::new(Some(ThemeKind::Light)),
        use_system_theme: false,
        selected_system_themes: SystemThemes::new(Some(selection())),
        dither_enabled: None,
        dither_pixel_size: None,
        dither_strength: None,
        dither_animated: None,
    };
    assert_eq!(respect_system_theme(&settings), RespectSystemTheme::Off);
    assert_eq!(derived_theme_kind(&settings, SystemTheme::Light), ThemeKind::Light);
    assert_eq!(derived_theme_kind(&settings, SystemTheme::Dark), ThemeKind::Light);
    assert_eq!(active_theme_kind(&settings, SystemTheme::Light), ThemeKind::Light);
}

#[test]
fn unset_theme_settings_take_their_defaults() {
    assert_eq!(Theme::new(None).value(), &ThemeKind::default());
    assert_eq!(SystemThemes::new(None).value(), &SelectedSystemThemes::default());
    assert_eq!(
        SelectedSystemThemes::default(),
        SelectedSystemThemes {
            light: ThemeKind::Light,
            dark: ThemeKind::Dark
        }
    );
    let kind = custom_base16(themes_dir_join("x.yml"));
    assert_eq!(kind.duplicate(), kind);
}
