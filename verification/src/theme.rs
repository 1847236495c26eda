//! Theme selection and the global dither overrides that apply to whichever
//! theme is active.

use vstd::prelude::*;

use crate::dither::DitherConfig;
use crate::theme_image::{BackgroundShader, ThemeImage};

verus! {

/// Whether `path` lies at or below `base`, compared component by component as
/// `std::path::Path::starts_with` compares them.
pub uninterp spec fn path_starts_with(path: Seq<char>, base: Seq<char>) -> bool;

/// Calls `std::path::Path::starts_with` on `path` with `base`. The contract
/// claims only that the answer is the one `path_starts_with` names for these two
/// strings: it depends on nothing but them (no file system access is made).
#[verifier::external_body]
fn path_is_under(path: &str, base: &str) -> (r: bool)
    ensures
        r == path_starts_with(path@, base@),
{
    std::path::Path::new(path).starts_with(base)
}

/// A theme that the user made, stored as a file.
#[derive(Clone, Debug, PartialEq, Eq)]
pub struct CustomTheme {
    pub name: String,
    pub path: String,
}

impl CustomTheme {
    pub fn new(name: String, path: String) -> (r: CustomTheme)
        ensures
            r.name == name,
            r.path == path,
    {
        CustomTheme { name, path }
    }

    /// A copy of the theme reference, equal to it.
    pub fn duplicate(&self) -> (r: CustomTheme)
        ensures
            r == *self,
    {
        CustomTheme { name: self.name.clone(), path: self.path.clone() }
    }
}

/// Which theme is selected: a built-in one, or a custom theme file in the
/// native or the base16 format.
#[derive(Clone, Debug, PartialEq, Eq)]
pub enum ThemeKind {
    Dark,
    Light,
    Custom(CustomTheme),
    CustomBase16(CustomTheme),
}

/// The platform's light or dark appearance.
#[derive(Clone, Copy, Debug, PartialEq, Eq)]
pub enum SystemTheme {
    Light,
    Dark,
}

/// The themes to use for the system's light and dark appearances.
#[derive(Clone, Debug, PartialEq, Eq)]
pub struct SelectedSystemThemes {
    pub light: ThemeKind,
    pub dark: ThemeKind,
}

/// Whether the theme follows the system appearance, and with which themes.
#[derive(Clone, Debug, PartialEq, Eq)]
pub enum RespectSystemTheme {
    On(SelectedSystemThemes),
    Off,
}

/// Whether a theme reference may be synced to the cloud, given the themes
/// directory: built-in themes always may, a custom theme when its file lies
/// under that directory.
pub open spec fn theme_reference_syncable(kind: ThemeKind, themes_dir: Seq<char>) -> bool {
    match kind {
        ThemeKind::Custom(t) => path_starts_with(t.path@, themes_dir),
        ThemeKind::CustomBase16(t) => path_starts_with(t.path@, themes_dir),
        _ => true,
    }
}

impl ThemeKind {
    /// The theme a fresh profile starts from.
    pub open spec fn default_kind() -> ThemeKind {
        ThemeKind::Dark
    }

    /// A copy of the theme kind, equal to it.
    pub fn duplicate(&self) -> (r: ThemeKind)
        ensures
            r == *self,
    {
        match self {
            ThemeKind::Dark => ThemeKind::Dark,
            ThemeKind::Light => ThemeKind::Light,
            ThemeKind::Custom(t) => ThemeKind::Custom(t.duplicate()),
            ThemeKind::CustomBase16(t) => ThemeKind::CustomBase16(t.duplicate()),
        }
    }

    /// Whether this theme reference may be synced, where `themes_dir` is the
    /// user's themes directory.
    pub fn is_custom_theme_reference_syncable(&self, themes_dir: &str) -> (r: bool)
        ensures
            r == theme_reference_syncable(*self, themes_dir@),
            self matches ThemeKind::Custom(t) ==> r == path_starts_with(t.path@, themes_dir@),
            self matches ThemeKind::CustomBase16(t) ==> r == path_starts_with(t.path@, themes_dir@),
            (self is Dark || self is Light) ==> r,
    {
        match self {
            ThemeKind::Custom(t) => path_is_under(t.path.as_str(), themes_dir),
            ThemeKind::CustomBase16(t) => path_is_under(t.path.as_str(), themes_dir),
            _ => true,
        }
    }
}

impl Default for ThemeKind {
    fn default() -> (r: ThemeKind)
        ensures
            r == ThemeKind::default_kind(),
    {
        ThemeKind::Dark
    }
}

impl SelectedSystemThemes {
    /// A light theme for the light appearance and a dark one for the dark.
    pub open spec fn default_selection() -> SelectedSystemThemes {
        SelectedSystemThemes { light: ThemeKind::Light, dark: ThemeKind::Dark }
    }

    /// A copy of the selection, equal to it.
    pub fn duplicate(&self) -> (r: SelectedSystemThemes)
        ensures
            r == *self,
    {
        SelectedSystemThemes { light: self.light.duplicate(), dark: self.dark.duplicate() }
    }
}

impl Default for SelectedSystemThemes {
    fn default() -> (r: SelectedSystemThemes)
        ensures
            r == SelectedSystemThemes::default_selection(),
    {
        SelectedSystemThemes { light: ThemeKind::Light, dark: ThemeKind::Dark }
    }
}

/// The selected theme setting (`appearance.themes.theme`).
#[derive(Clone, Debug, PartialEq, Eq)]
pub struct Theme {
    pub value: ThemeKind,
}

impl Theme {
    /// The setting holding `value`, or the default theme where it is `None`.
    pub fn new(value: Option<ThemeKind>) -> (r: Theme)
        ensures
            r.value == (match value {
                Some(v) => v,
                None => ThemeKind::default_kind(),
            }),
    {
        match value {
            Some(v) => Theme { value: v },
            None => Theme { value: ThemeKind::Dark },
        }
    }

    pub fn value(&self) -> (r: &ThemeKind)
        ensures
            *r == self.value,
    {
        &self.value
    }

    /// Whether the current value may be synced, where `themes_dir` is the user's
    /// themes directory.
    pub fn current_value_is_syncable(&self, themes_dir: &str) -> (r: bool)
        ensures
            r == theme_reference_syncable(self.value, themes_dir@),
    {
        self.value.is_custom_theme_reference_syncable(themes_dir)
    }
}

/// The themes for the system appearances (`appearance.themes.selected_system_themes`).
#[derive(Clone, Debug, PartialEq, Eq)]
pub struct SystemThemes {
    pub value: SelectedSystemThemes,
}

impl SystemThemes {
    /// The setting holding `value`, or the default selection where it is `None`.
    pub fn new(value: Option<SelectedSystemThemes>) -> (r: SystemThemes)
        ensures
            r.value == (match value {
                Some(v) => v,
                None => SelectedSystemThemes::default_selection(),
            }),
    {
        match value {
            Some(v) => SystemThemes { value: v },
            None => SystemThemes { value: SelectedSystemThemes::default() },
        }
    }

    pub fn value(&self) -> (r: &SelectedSystemThemes)
        ensures
            *r == self.value,
    {
        &self.value
    }

    /// Whether both selected themes may be synced, where `themes_dir` is the
    /// user's themes directory.
    pub fn current_value_is_syncable(&self, themes_dir: &str) -> (r: bool)
        ensures
            r == (theme_reference_syncable(self.value.light, themes_dir@)
                && theme_reference_syncable(self.value.dark, themes_dir@)),
    {
        let selected = self.value();
        selected.light.is_custom_theme_reference_syncable(themes_dir)
            && selected.dark.is_custom_theme_reference_syncable(themes_dir)
    }
}

/// Whether dither is drawn over the background image, and how.
#[derive(Clone, Copy, Debug, PartialEq, Eq)]
pub struct BackgroundDitherState {
    pub enabled: bool,
    pub config: DitherConfig,
}

/// Theme selection and the global background dither overrides. A dither
/// override that is `None` leaves the active theme's value in place.
#[derive(Clone, Debug, PartialEq, Eq)]
pub struct ThemeSettings {
    pub theme_kind: Theme,
    pub use_system_theme: bool,
    pub selected_system_themes: SystemThemes,
    pub dither_enabled: Option<bool>,
    pub dither_pixel_size: Option<u8>,
    pub dither_strength: Option<u8>,
    pub dither_animated: Option<bool>,
}

/// `o`'s value, or `d` where it has none.
pub open spec fn or_else<T>(o: Option<T>, d: T) -> T {
    match o {
        Some(v) => v,
        None => d,
    }
}

/// The dither a theme ships, or the default dither where it ships none.
pub open spec fn shader_dither(shader: Option<BackgroundShader>) -> DitherConfig {
    match shader {
        Some(BackgroundShader::Dither(config)) => config,
        None => DitherConfig::default_config(),
    }
}

impl ThemeSettings {
    /// The overrides laid over `theme`, then held to the ranges the shader accepts.
    pub open spec fn overridden(self, theme: DitherConfig) -> DitherConfig {
        DitherConfig {
            pixel_size: or_else(self.dither_pixel_size, theme.pixel_size),
            strength: or_else(self.dither_strength, theme.strength),
            animated: or_else(self.dither_animated, theme.animated),
        }.clamped_config()
    }

    /// The dither state for a theme image that ships `shader`: on where the user
    /// says so, else exactly where the theme ships a dither shader; configured
    /// from the theme's dither (or the default one) under the overrides.
    pub open spec fn dither_state(self, shader: Option<BackgroundShader>) -> BackgroundDitherState {
        BackgroundDitherState {
            enabled: or_else(self.dither_enabled, shader is Some),
            config: self.overridden(shader_dither(shader)),
        }
    }

    /// Resolves the user's optional overrides against the active theme's shader defaults.
    pub fn dither_config(&self, theme: DitherConfig) -> (r: DitherConfig)
        ensures
            r == self.overridden(theme),
            r.animated == (match self.dither_animated {
                Some(v) => v,
                None => theme.animated,
            }),
            self.dither_strength is None ==> r.strength == (if theme.strength <= 100 { theme.strength } else { 100 }),
            self.dither_pixel_size is None && 1 <= theme.pixel_size <= 32 ==> r.pixel_size == theme.pixel_size,
            self.dither_strength matches Some(v) ==> (v <= 100 ==> r.strength == v),
            self.dither_pixel_size matches Some(v) ==> (1 <= v <= 32 ==> r.pixel_size == v),
    {
        let pixel_size = match self.dither_pixel_size {
            Some(v) => v,
            None => theme.pixel_size,
        };
        let strength = match self.dither_strength {
            Some(v) => v,
            None => theme.strength,
        };
        let animated = match self.dither_animated {
            Some(v) => v,
            None => theme.animated,
        };
        DitherConfig { pixel_size, strength, animated }.clamped()
    }

    /// The dither state for a theme image that ships `shader`.
    pub fn resolve_dither(&self, shader: Option<BackgroundShader>) -> (r: BackgroundDitherState)
        ensures
            r == self.dither_state(shader),
            self.dither_pixel_size is None && self.dither_strength is None && self.dither_animated is None
                ==> (shader matches Some(BackgroundShader::Dither(c)) ==> (1 <= c.pixel_size <= 32
                && c.strength <= 100 ==> r.config == c)),
            self.dither_enabled matches Some(on) ==> r.enabled == on,
            self.dither_enabled is None ==> r.enabled == (shader is Some),
            shader matches Some(BackgroundShader::Dither(c)) ==> r.config == self.overridden(c),
            shader is None ==> r.config == self.overridden(
                DitherConfig { pixel_size: 4, strength: 100, animated: true },
            ),
    {
        let defaults = match shader {
            Some(BackgroundShader::Dither(config)) => config,
            None => DitherConfig::default(),
        };
        let enabled = match self.dither_enabled {
            Some(v) => v,
            None => shader.is_some(),
        };
        BackgroundDitherState { enabled, config: self.dither_config(defaults) }
    }

    /// The dither for the active theme: nothing where the build cannot draw
    /// background effects or the theme has no background image.
    pub fn background_dither(
        &self,
        shaders_supported: bool,
        theme_image: Option<ThemeImage>,
    ) -> (r: Option<BackgroundDitherState>)
        ensures
            r == (if !shaders_supported {
                None
            } else {
                match theme_image {
                    Some(image) => Some(self.dither_state(image.shader)),
                    None => None,
                }
            }),
    {
        if !shaders_supported {
            return None;
        }
        match theme_image {
            Some(image) => Some(self.resolve_dither(image.shader)),
            None => None,
        }
    }
}

/// Whether to follow the system theme, derived from the theme settings.
pub fn respect_system_theme(theme_settings: &ThemeSettings) -> (r: RespectSystemTheme)
    ensures
        r == (if theme_settings.use_system_theme {
            RespectSystemTheme::On(theme_settings.selected_system_themes.value)
        } else {
            RespectSystemTheme::Off
        }),
{
    if theme_settings.use_system_theme {
        RespectSystemTheme::On(theme_settings.selected_system_themes.value().duplicate())
    } else {
        RespectSystemTheme::Off
    }
}

/// The theme that the settings select under the given system appearance.
pub open spec fn selected_theme(theme_settings: ThemeSettings, system_theme: SystemTheme) -> ThemeKind {
    if theme_settings.use_system_theme {
        match system_theme {
            SystemTheme::Light => theme_settings.selected_system_themes.value.light,
            SystemTheme::Dark => theme_settings.selected_system_themes.value.dark,
        }
    } else {
        theme_settings.theme_kind.value
    }
}

/// The current theme kind, based on the theme settings and the system theme.
pub fn derived_theme_kind(theme_settings: &ThemeSettings, system_theme: SystemTheme) -> (r: ThemeKind)
    ensures
        r == selected_theme(*theme_settings, system_theme),
        !theme_settings.use_system_theme ==> r == theme_settings.theme_kind.value,
        theme_settings.use_system_theme && system_theme is Light
            ==> r == theme_settings.selected_system_themes.value.light,
        theme_settings.use_system_theme && system_theme is Dark
            ==> r == theme_settings.selected_system_themes.value.dark,
{
    let respect = respect_system_theme(theme_settings);
    match respect {
        RespectSystemTheme::On(selected) => match system_theme {
            SystemTheme::Light => selected.light,
            SystemTheme::Dark => selected.dark,
        },
        RespectSystemTheme::Off => theme_settings.theme_kind.value().duplicate(),
    }
}

/// The current theme kind for the appearance that the platform reports now.
pub fn active_theme_kind(theme_settings: &ThemeSettings, system_theme: SystemTheme) -> (r: ThemeKind)
    ensures
        r == selected_theme(*theme_settings, system_theme),
{
    derived_theme_kind(theme_settings, system_theme)
}

} // verus!
