//! Properties of the background effects that span several functions.

use vstd::prelude::*;

use crate::controls::{adjustment_maximum, adjustment_value, with_adjustment, BackgroundImageAdjustment};
use crate::dither::{DitherConfig, MAX_PIXEL_SIZE, MAX_STRENGTH, MIN_PIXEL_SIZE};
use crate::effects::{min_int, BackgroundImageEffects, MAX_COLOR_PERCENT, MAX_MASK_PERCENT};
use crate::image_settings::{BackgroundImageSettings, BackgroundImageState, MAX_OPACITY};
use crate::theme::{
    path_starts_with, selected_theme, theme_reference_syncable, CustomTheme, SystemTheme, ThemeKind,
    ThemeSettings,
};
use crate::theme_image::{BackgroundShader, ThemeImage};

verus! {

/// Neutral adjustments use the original image path: the default effects are the
/// identity, and the identity sends the shader no active parameters.
pub proof fn lemma_default_effects_use_original_path()
    ensures
        BackgroundImageEffects::default_effects().identity(),
        !BackgroundImageEffects::default_effects().parameters_of().active,
{
}

/// A gradient that starts at the very bottom of the window darkens nothing: the
/// effects behave exactly as the same effects with no gradient at all.
pub proof fn lemma_gradient_at_bottom_is_no_gradient(e: BackgroundImageEffects)
    requires
        e.gradient_start >= MAX_MASK_PERCENT,
    ensures
        e.identity() == (BackgroundImageEffects { gradient_strength: 0, ..e }).identity(),
{
}

/// Whatever the stored settings hold, the resolved state stays within the
/// ranges the controls offer and the shader accepts.
pub proof fn lemma_resolved_state_in_range(s: BackgroundImageSettings, image: ThemeImage)
    ensures
        s.state_for(image).opacity <= MAX_OPACITY,
        s.state_for(image).effects.brightness <= MAX_COLOR_PERCENT,
        s.state_for(image).effects.contrast <= MAX_COLOR_PERCENT,
        s.state_for(image).effects.gradient_strength <= MAX_MASK_PERCENT,
        s.state_for(image).effects.gradient_start <= MAX_MASK_PERCENT,
        s.state_for(image).effects.vignette_strength <= MAX_MASK_PERCENT,
{
}

/// A switched-off mask draws nothing, while the switch itself is reported.
pub proof fn lemma_switched_off_mask_has_no_strength(s: BackgroundImageSettings, image: ThemeImage)
    ensures
        !s.gradient_enabled ==> s.state_for(image).effects.gradient_strength == 0,
        !s.vignette_enabled ==> s.state_for(image).effects.vignette_strength == 0,
        s.state_for(image).gradient_enabled == s.gradient_enabled,
        s.state_for(image).vignette_enabled == s.vignette_enabled,
{
}

/// Turning an effect off preserves its strength: whatever the switches were set
/// to in between, switching a mask back on draws it with the stored strength.
pub proof fn lemma_switch_preserves_strength(s: BackgroundImageSettings, gradient: bool, vignette: bool)
    ensures
        ({
            let toggled = BackgroundImageSettings { gradient_enabled: gradient, vignette_enabled: vignette, ..s };
            let back_on = BackgroundImageSettings { gradient_enabled: true, vignette_enabled: true, ..toggled };
            &&& back_on.resolved_effects().gradient_strength == min_int(s.gradient_strength as int, MAX_MASK_PERCENT as int)
            &&& back_on.resolved_effects().vignette_strength == min_int(s.vignette_strength as int, MAX_MASK_PERCENT as int)
        }),
{
}

/// The image adjustments do not depend on the theme's own dither shader: two
/// theme images with the same opacity resolve to the same state.
pub proof fn lemma_adjustments_ignore_theme_shader(s: BackgroundImageSettings, a: ThemeImage, b: ThemeImage)
    requires
        a.opacity == b.opacity,
    ensures
        s.state_for(a) == s.state_for(b),
{
}

/// Without an opacity override the image inherits the theme's opacity.
pub proof fn lemma_opacity_inherits_theme(s: BackgroundImageSettings, image: ThemeImage)
    requires
        s.opacity is None,
        image.opacity <= MAX_OPACITY,
    ensures
        s.state_for(image).opacity == image.opacity,
{
}

/// Restoring the defaults returns the image to the theme's opacity and to the
/// original image path.
pub proof fn lemma_defaults_resolve_to_theme(image: ThemeImage)
    ensures
        BackgroundImageSettings::defaults().state_for(image) == (BackgroundImageState {
            opacity: min_int(image.opacity as int, MAX_OPACITY as int) as u8,
            effects: BackgroundImageEffects::default_effects(),
            gradient_enabled: false,
            vignette_enabled: false,
        }),
        BackgroundImageSettings::defaults().state_for(image).effects.identity(),
{
}

/// A slider shows back the value it stored, as long as that value is within the
/// slider's range and, for the opacity, an image resolves to show it on.
pub proof fn lemma_slider_reads_back_its_value(
    a: BackgroundImageAdjustment,
    s: BackgroundImageSettings,
    v: u16,
    shaders_supported: bool,
    theme_image: Option<ThemeImage>,
)
    requires
        v <= adjustment_maximum(a),
        a == BackgroundImageAdjustment::Opacity ==> shaders_supported && theme_image is Some,
    ensures
        adjustment_value(a, with_adjustment(a, s, v), shaders_supported, theme_image) == v,
{
}

/// The sliders are independent: storing one leaves every other slider's value as it was.
pub proof fn lemma_sliders_are_independent(
    a: BackgroundImageAdjustment,
    b: BackgroundImageAdjustment,
    s: BackgroundImageSettings,
    v: u16,
    shaders_supported: bool,
    theme_image: Option<ThemeImage>,
)
    requires
        a != b,
    ensures
        adjustment_value(b, with_adjustment(a, s, v), shaders_supported, theme_image)
            == adjustment_value(b, s, shaders_supported, theme_image),
{
}

/// Dither overrides preserve the theme's values until they are changed.
pub proof fn lemma_absent_overrides_keep_theme_dither(ts: ThemeSettings, theme: DitherConfig)
    requires
        ts.dither_pixel_size is None,
        ts.dither_strength is None,
        ts.dither_animated is None,
        MIN_PIXEL_SIZE <= theme.pixel_size <= MAX_PIXEL_SIZE,
        theme.strength <= MAX_STRENGTH,
    ensures
        ts.overridden(theme) == theme,
{
}

/// The dither that reaches the shader is within its ranges, whatever the theme
/// or the configuration file says.
pub proof fn lemma_dither_config_in_range(ts: ThemeSettings, theme: DitherConfig)
    ensures
        MIN_PIXEL_SIZE <= ts.overridden(theme).pixel_size <= MAX_PIXEL_SIZE,
        ts.overridden(theme).strength <= MAX_STRENGTH,
{
}

/// A saved dither switch applies to any image, with or without the theme's
/// own dither shader; without one, dither is on exactly for themes that ship it.
pub proof fn lemma_dither_switch(ts: ThemeSettings, a: Option<BackgroundShader>)
    ensures
        ts.dither_enabled matches Some(on) ==> ts.dither_state(a).enabled == on,
        ts.dither_enabled is None ==> ts.dither_state(a).enabled == (a is Some),
{
}

/// The dither switch does not change the configuration it would draw with.
pub proof fn lemma_dither_switch_keeps_config(ts: ThemeSettings, on: Option<bool>, shader: Option<BackgroundShader>)
    ensures
        (ThemeSettings { dither_enabled: on, ..ts }).dither_state(shader).config == ts.dither_state(shader).config,
{
}

/// Built-in themes can always be synced.
pub proof fn lemma_built_in_themes_sync(themes_dir: Seq<char>)
    ensures
        theme_reference_syncable(ThemeKind::Dark, themes_dir),
        theme_reference_syncable(ThemeKind::Light, themes_dir),
{
}

/// When the theme does not follow the system, the system appearance does not
/// change which theme is active.
pub proof fn lemma_fixed_theme_ignores_system(ts: ThemeSettings)
    requires
        !ts.use_system_theme,
    ensures
        selected_theme(ts, SystemTheme::Light) == ts.theme_kind.value,
        selected_theme(ts, SystemTheme::Dark) == ts.theme_kind.value,
{
}

/// `x` held to at most `hi`.
pub open spec fn at_most(x: int, hi: int) -> int {
    if x <= hi {
        x
    } else {
        hi
    }
}

/// Resolving passes each stored value through to the renderer, held only to the
/// range its control offers: brightness and contrast to 200 percent, the mask
/// values and the opacity to 100 percent. A value within range arrives unchanged;
/// the opacity is the override where one is stored, else the theme's.
pub proof fn lemma_resolve_passes_values_through(s: BackgroundImageSettings, image: ThemeImage)
    ensures
        s.resolution(true, Some(image)) is Some,
        ({
            let st = s.resolution(true, Some(image))->0;
            &&& st.effects.brightness as int == at_most(s.brightness as int, 200)
            &&& st.effects.contrast as int == at_most(s.contrast as int, 200)
            &&& st.effects.gradient_start as int == at_most(s.gradient_start as int, 100)
            &&& st.effects.gradient_strength as int == (if s.gradient_enabled {
                at_most(s.gradient_strength as int, 100)
            } else {
                0
            })
            &&& st.effects.vignette_strength as int == (if s.vignette_enabled {
                at_most(s.vignette_strength as int, 100)
            } else {
                0
            })
            &&& st.opacity as int == at_most(
                (match s.opacity {
                    Some(o) => o,
                    None => image.opacity,
                }) as int,
                100,
            )
            &&& st.gradient_enabled == s.gradient_enabled
            &&& st.vignette_enabled == s.vignette_enabled
        }),
        s.contrast <= 200 ==> s.resolution(true, Some(image))->0.effects.contrast == s.contrast,
        s.brightness <= 200 ==> s.resolution(true, Some(image))->0.effects.brightness == s.brightness,
        s.resolution(false, Some(image)) is None,
        s.resolution(true, None) is None,
{
}

/// The adjustments are the identity only when brightness and contrast are both
/// exactly neutral and no mask is visible; any other brightness or contrast makes
/// the parameters active and carries the value, held to 200 percent.
pub proof fn lemma_identity_only_when_neutral(e: BackgroundImageEffects)
    ensures
        e.identity() ==> e.brightness == 100 && e.contrast == 100 && e.vignette_strength == 0
            && (e.gradient_strength == 0 || e.gradient_start >= 100),
        (e.brightness == 100 && e.contrast == 100 && e.vignette_strength == 0
            && (e.gradient_strength == 0 || e.gradient_start >= 100)) ==> e.identity(),
        e.parameters_of().active != e.identity(),
        (e.brightness != 100 || e.contrast != 100) ==> ({
            let p = e.parameters_of();
            &&& p.active
            &&& p.brightness as int == at_most(e.brightness as int, 200)
            &&& p.contrast as int == at_most(e.contrast as int, 200)
            &&& p.gradient_strength as int == at_most(e.gradient_strength as int, 100)
            &&& p.gradient_start as int == at_most(e.gradient_start as int, 100)
            &&& p.vignette_strength as int == at_most(e.vignette_strength as int, 100)
        }),
        !e.parameters_of().active ==> ({
            let p = e.parameters_of();
            p.brightness == 0 && p.contrast == 0 && p.gradient_strength == 0 && p.gradient_start == 0
                && p.vignette_strength == 0
        }),
{
}

/// Without overrides, a theme that ships its own dither is drawn with that dither
/// (held to the shader's ranges), and the default dither is used only for a theme
/// that ships none.
pub proof fn lemma_theme_dither_used_without_overrides(ts: ThemeSettings, c: DitherConfig)
    requires
        ts.dither_pixel_size is None,
        ts.dither_strength is None,
        ts.dither_animated is None,
    ensures
        ({
            let got = ts.dither_state(Some(BackgroundShader::Dither(c))).config;
            &&& got.animated == c.animated
            &&& got.strength as int == at_most(c.strength as int, 100)
            &&& got.pixel_size as int == (if c.pixel_size < 1 {
                1
            } else {
                at_most(c.pixel_size as int, 32)
            })
        }),
        1 <= c.pixel_size <= 32 && c.strength <= 100 ==> ts.dither_state(
            Some(BackgroundShader::Dither(c)),
        ).config == c,
        ts.dither_state(None).config == (DitherConfig { pixel_size: 4, strength: 100, animated: true }),
{
}

/// Each field of the resolved dither is that field's override where one is set,
/// else the theme's value of that same field, then held to the shader's range;
/// no override affects any other field.
pub proof fn lemma_dither_overrides_are_per_field(ts: ThemeSettings, theme: DitherConfig)
    ensures
        ({
            let got = ts.overridden(theme);
            let size = match ts.dither_pixel_size {
                Some(v) => v,
                None => theme.pixel_size,
            };
            let strength = match ts.dither_strength {
                Some(v) => v,
                None => theme.strength,
            };
            &&& got.pixel_size as int == (if size < 1 {
                1
            } else {
                at_most(size as int, 32)
            })
            &&& got.strength as int == at_most(strength as int, 100)
            &&& got.animated == (match ts.dither_animated {
                Some(v) => v,
                None => theme.animated,
            })
        }),
{
}

/// Setting or clearing one dither override leaves the other resolved fields as they were.
pub proof fn lemma_dither_overrides_are_independent(
    ts: ThemeSettings,
    theme: DitherConfig,
    size: Option<u8>,
    strength: Option<u8>,
    animated: Option<bool>,
)
    ensures
        (ThemeSettings { dither_pixel_size: size, ..ts }).overridden(theme).strength == ts.overridden(theme).strength,
        (ThemeSettings { dither_pixel_size: size, ..ts }).overridden(theme).animated == ts.overridden(theme).animated,
        (ThemeSettings { dither_strength: strength, ..ts }).overridden(theme).pixel_size == ts.overridden(theme).pixel_size,
        (ThemeSettings { dither_strength: strength, ..ts }).overridden(theme).animated == ts.overridden(theme).animated,
        (ThemeSettings { dither_animated: animated, ..ts }).overridden(theme).pixel_size == ts.overridden(theme).pixel_size,
        (ThemeSettings { dither_animated: animated, ..ts }).overridden(theme).strength == ts.overridden(theme).strength,
{
}

/// A custom theme reference of either format is synced exactly when its file
/// lies under the themes directory: the format does not matter.
pub proof fn lemma_custom_themes_sync_only_under_themes_dir(t: CustomTheme, themes_dir: Seq<char>)
    ensures
        theme_reference_syncable(ThemeKind::Custom(t), themes_dir) == path_starts_with(t.path@, themes_dir),
        theme_reference_syncable(ThemeKind::CustomBase16(t), themes_dir) == path_starts_with(t.path@, themes_dir),
        theme_reference_syncable(ThemeKind::CustomBase16(t), themes_dir)
            == theme_reference_syncable(ThemeKind::Custom(t), themes_dir),
{
}

} // verus!
