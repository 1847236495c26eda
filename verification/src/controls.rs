//! The rows of the background image section of the appearance page: what each
//! row shows, where it is found by search, and what editing it stores.

use vstd::prelude::*;

use crate::effects::{min_int, MAX_COLOR_PERCENT};
use crate::image_settings::{BackgroundImageSettings, BackgroundImageState};
use crate::theme_image::ThemeImage;

verus! {

/// A slider of the background image section.
#[derive(Clone, Copy, Debug, PartialEq, Eq)]
pub enum BackgroundImageAdjustment {
    Opacity,
    Brightness,
    Contrast,
    GradientStrength,
    GradientStart,
    VignetteStrength,
}

/// A switch of the background image section.
#[derive(Clone, Copy, Debug, PartialEq, Eq)]
pub enum ImageToggleKind {
    Gradient,
    Vignette,
}

/// A row of the background image section.
#[derive(Clone, Copy, Debug, PartialEq, Eq)]
pub enum BackgroundImageWidget {
    Slider(BackgroundImageAdjustment),
    Toggle(ImageToggleKind),
    Reset,
}

/// The shown name of a slider.
pub open spec fn adjustment_label(a: BackgroundImageAdjustment) -> Seq<char> {
    match a {
        BackgroundImageAdjustment::Opacity => "Image opacity"@,
        BackgroundImageAdjustment::Brightness => "Brightness"@,
        BackgroundImageAdjustment::Contrast => "Contrast"@,
        BackgroundImageAdjustment::GradientStrength => "Bottom darkening strength"@,
        BackgroundImageAdjustment::GradientStart => "Gradient start from top"@,
        BackgroundImageAdjustment::VignetteStrength => "Vignette strength"@,
    }
}

/// The words by which search finds a slider; they also identify its row.
pub open spec fn adjustment_search_terms(a: BackgroundImageAdjustment) -> Seq<char> {
    match a {
        BackgroundImageAdjustment::Opacity => "background image opacity transparency mix"@,
        BackgroundImageAdjustment::Brightness => "background image brightness color exposure"@,
        BackgroundImageAdjustment::Contrast => "background image contrast color"@,
        BackgroundImageAdjustment::GradientStrength => "background image bottom darkening gradient strength intensity"@,
        BackgroundImageAdjustment::GradientStart => "background image gradient start position top"@,
        BackgroundImageAdjustment::VignetteStrength => "background image vignette strength intensity edges"@,
    }
}

/// The largest value a slider offers, in percent.
pub open spec fn adjustment_maximum(a: BackgroundImageAdjustment) -> u16 {
    match a {
        BackgroundImageAdjustment::Brightness => MAX_COLOR_PERCENT,
        BackgroundImageAdjustment::Contrast => MAX_COLOR_PERCENT,
        _ => 100,
    }
}

/// The value a slider shows before it is held to its maximum: the opacity that
/// resolves for the active theme (100 where there is no image to resolve
/// against), or the stored setting.
pub open spec fn raw_adjustment_value(
    a: BackgroundImageAdjustment,
    settings: BackgroundImageSettings,
    shaders_supported: bool,
    theme_image: Option<ThemeImage>,
) -> int {
    match a {
        BackgroundImageAdjustment::Opacity => match settings.resolution(shaders_supported, theme_image) {
            Some(state) => state.opacity as int,
            None => 100,
        },
        BackgroundImageAdjustment::Brightness => settings.brightness as int,
        BackgroundImageAdjustment::Contrast => settings.contrast as int,
        BackgroundImageAdjustment::GradientStrength => settings.gradient_strength as int,
        BackgroundImageAdjustment::GradientStart => settings.gradient_start as int,
        BackgroundImageAdjustment::VignetteStrength => settings.vignette_strength as int,
    }
}

/// The value a slider shows.
pub open spec fn adjustment_value(
    a: BackgroundImageAdjustment,
    settings: BackgroundImageSettings,
    shaders_supported: bool,
    theme_image: Option<ThemeImage>,
) -> u16 {
    min_int(
        raw_adjustment_value(a, settings, shaders_supported, theme_image),
        adjustment_maximum(a) as int,
    ) as u16
}

/// The settings after a slider stores `v`, which is within its range.
pub open spec fn with_adjustment(
    a: BackgroundImageAdjustment,
    settings: BackgroundImageSettings,
    v: u16,
) -> BackgroundImageSettings {
    match a {
        BackgroundImageAdjustment::Opacity => BackgroundImageSettings { opacity: Some(v as u8), ..settings },
        BackgroundImageAdjustment::Brightness => BackgroundImageSettings { brightness: v, ..settings },
        BackgroundImageAdjustment::Contrast => BackgroundImageSettings { contrast: v, ..settings },
        BackgroundImageAdjustment::GradientStrength => BackgroundImageSettings { gradient_strength: v as u8, ..settings },
        BackgroundImageAdjustment::GradientStart => BackgroundImageSettings { gradient_start: v as u8, ..settings },
        BackgroundImageAdjustment::VignetteStrength => BackgroundImageSettings { vignette_strength: v as u8, ..settings },
    }
}

impl BackgroundImageAdjustment {
    pub fn label(self) -> (r: &'static str)
        ensures
            r@ == adjustment_label(self),
    {
        match self {
            BackgroundImageAdjustment::Opacity => "Image opacity",
            BackgroundImageAdjustment::Brightness => "Brightness",
            BackgroundImageAdjustment::Contrast => "Contrast",
            BackgroundImageAdjustment::GradientStrength => "Bottom darkening strength",
            BackgroundImageAdjustment::GradientStart => "Gradient start from top",
            BackgroundImageAdjustment::VignetteStrength => "Vignette strength",
        }
    }

    pub fn search_terms(self) -> (r: &'static str)
        ensures
            r@ == adjustment_search_terms(self),
    {
        match self {
            BackgroundImageAdjustment::Opacity => "background image opacity transparency mix",
            BackgroundImageAdjustment::Brightness => "background image brightness color exposure",
            BackgroundImageAdjustment::Contrast => "background image contrast color",
            BackgroundImageAdjustment::GradientStrength => "background image bottom darkening gradient strength intensity",
            BackgroundImageAdjustment::GradientStart => "background image gradient start position top",
            BackgroundImageAdjustment::VignetteStrength => "background image vignette strength intensity edges",
        }
    }

    pub fn maximum(self) -> (r: u16)
        ensures
            r == adjustment_maximum(self),
            (self is Brightness || self is Contrast) ==> r == 200,
            !(self is Brightness || self is Contrast) ==> r == 100,
    {
        match self {
            BackgroundImageAdjustment::Brightness | BackgroundImageAdjustment::Contrast => MAX_COLOR_PERCENT,
            BackgroundImageAdjustment::Opacity
            | BackgroundImageAdjustment::GradientStrength
            | BackgroundImageAdjustment::GradientStart
            | BackgroundImageAdjustment::VignetteStrength => 100,
        }
    }

    /// The value the slider shows, in percent, for the settings and the active
    /// theme's background image.
    pub fn value(
        self,
        settings: &BackgroundImageSettings,
        shaders_supported: bool,
        theme_image: Option<ThemeImage>,
    ) -> (r: u16)
        ensures
            r == adjustment_value(self, *settings, shaders_supported, theme_image),
            r <= adjustment_maximum(self),
            self is Brightness ==> r == (if settings.brightness <= 200 { settings.brightness } else { 200 }),
            self is Contrast ==> r == (if settings.contrast <= 200 { settings.contrast } else { 200 }),
            self is GradientStrength ==> r == (if settings.gradient_strength <= 100 { settings.gradient_strength as u16 } else { 100 }),
            self is GradientStart ==> r == (if settings.gradient_start <= 100 { settings.gradient_start as u16 } else { 100 }),
            self is VignetteStrength ==> r == (if settings.vignette_strength <= 100 { settings.vignette_strength as u16 } else { 100 }),
            self is Opacity && !(shaders_supported && theme_image is Some) ==> r == 100,
            self is Opacity && shaders_supported && theme_image is Some ==> r == (match settings.opacity {
                Some(o) => if o <= 100 { o as u16 } else { 100 },
                None => if theme_image->0.opacity <= 100 { theme_image->0.opacity as u16 } else { 100 },
            }),
    {
        let raw: u16 = match self {
            BackgroundImageAdjustment::Opacity => match settings.resolve(shaders_supported, theme_image) {
                Some(state) => state.opacity as u16,
                None => 100,
            },
            BackgroundImageAdjustment::Brightness => settings.brightness,
            BackgroundImageAdjustment::Contrast => settings.contrast,
            BackgroundImageAdjustment::GradientStrength => settings.gradient_strength as u16,
            BackgroundImageAdjustment::GradientStart => settings.gradient_start as u16,
            BackgroundImageAdjustment::VignetteStrength => settings.vignette_strength as u16,
        };
        let maximum = self.maximum();
        if raw < maximum {
            raw
        } else {
            maximum
        }
    }

    /// Stores the slider position `value`, a whole number of percent, held to
    /// the slider's range `0..=maximum`.
    pub fn set(self, value: i64, settings: &mut BackgroundImageSettings)
        ensures
            *final(settings) == with_adjustment(
                self,
                *old(settings),
                if value < 0 {
                    0u16
                } else if value > adjustment_maximum(self) {
                    adjustment_maximum(self)
                } else {
                    value as u16
                },
            ),
            self is Opacity ==> *final(settings) == (BackgroundImageSettings { opacity: Some((if value < 0 { 0u8 } else if value > 100 { 100u8 } else { value as u8 })), ..*old(settings) }),
            self is Brightness ==> *final(settings) == (BackgroundImageSettings { brightness: (if value < 0 { 0u16 } else if value > 200 { 200u16 } else { value as u16 }), ..*old(settings) }),
            self is Contrast ==> *final(settings) == (BackgroundImageSettings { contrast: (if value < 0 { 0u16 } else if value > 200 { 200u16 } else { value as u16 }), ..*old(settings) }),
            self is GradientStrength ==> *final(settings) == (BackgroundImageSettings { gradient_strength: (if value < 0 { 0u8 } else if value > 100 { 100u8 } else { value as u8 }), ..*old(settings) }),
            self is GradientStart ==> *final(settings) == (BackgroundImageSettings { gradient_start: (if value < 0 { 0u8 } else if value > 100 { 100u8 } else { value as u8 }), ..*old(settings) }),
            self is VignetteStrength ==> *final(settings) == (BackgroundImageSettings { vignette_strength: (if value < 0 { 0u8 } else if value > 100 { 100u8 } else { value as u8 }), ..*old(settings) }),
    {
        let maximum = self.maximum();
        let v: u16 = if value < 0 {
            0
        } else if value > maximum as i64 {
            maximum
        } else {
            value as u16
        };
        match self {
            BackgroundImageAdjustment::Opacity => settings.opacity = Some(v as u8),
            BackgroundImageAdjustment::Brightness => settings.brightness = v,
            BackgroundImageAdjustment::Contrast => settings.contrast = v,
            BackgroundImageAdjustment::GradientStrength => settings.gradient_strength = v as u8,
            BackgroundImageAdjustment::GradientStart => settings.gradient_start = v as u8,
            BackgroundImageAdjustment::VignetteStrength => settings.vignette_strength = v as u8,
        }
    }
}

/// The shown name of a switch.
pub open spec fn toggle_label(kind: ImageToggleKind) -> Seq<char> {
    match kind {
        ImageToggleKind::Gradient => "Bottom darkening"@,
        ImageToggleKind::Vignette => "Vignette"@,
    }
}

/// The stable identifier of a switch's row.
pub open spec fn toggle_widget_id(kind: ImageToggleKind) -> Seq<char> {
    match kind {
        ImageToggleKind::Gradient => "BackgroundImageGradientToggle"@,
        ImageToggleKind::Vignette => "BackgroundImageVignetteToggle"@,
    }
}

/// The words by which search finds a switch.
pub open spec fn toggle_search_terms(kind: ImageToggleKind) -> Seq<char> {
    match kind {
        ImageToggleKind::Gradient => "background image bottom darkening gradient enable disable on off"@,
        ImageToggleKind::Vignette => "background image vignette enable disable on off"@,
    }
}

/// The words by which search finds the restore row.
pub open spec fn reset_search_terms() -> Seq<char> {
    "background image restore reset defaults"@
}

impl ImageToggleKind {
    pub fn label(self) -> (r: &'static str)
        ensures
            r@ == toggle_label(self),
    {
        match self {
            ImageToggleKind::Gradient => "Bottom darkening",
            ImageToggleKind::Vignette => "Vignette",
        }
    }

    /// Whether the switch shows as on: only where an image resolves and its
    /// effect is switched on.
    pub fn is_checked(self, state: Option<BackgroundImageState>) -> (r: bool)
        ensures
            r == (match state {
                Some(s) => match self {
                    ImageToggleKind::Gradient => s.gradient_enabled,
                    ImageToggleKind::Vignette => s.vignette_enabled,
                },
                None => false,
            }),
    {
        match state {
            Some(s) => match self {
                ImageToggleKind::Gradient => s.gradient_enabled,
                ImageToggleKind::Vignette => s.vignette_enabled,
            },
            None => false,
        }
    }
}

impl BackgroundImageWidget {
    /// The row's own stable identifier. A slider is identified by its search
    /// terms; the restore row has none of its own and takes the page's default.
    pub fn widget_id(&self) -> (r: Option<&'static str>)
        ensures
            match *self {
                BackgroundImageWidget::Slider(a) => r is Some && r->0@ == adjustment_search_terms(a),
                BackgroundImageWidget::Toggle(k) => r is Some && r->0@ == toggle_widget_id(k),
                BackgroundImageWidget::Reset => r is None,
            },
    {
        match self {
            BackgroundImageWidget::Slider(a) => Some(a.search_terms()),
            BackgroundImageWidget::Toggle(ImageToggleKind::Gradient) => Some("BackgroundImageGradientToggle"),
            BackgroundImageWidget::Toggle(ImageToggleKind::Vignette) => Some("BackgroundImageVignetteToggle"),
            BackgroundImageWidget::Reset => None,
        }
    }

    pub fn search_terms(&self) -> (r: &'static str)
        ensures
            r@ == (match *self {
                BackgroundImageWidget::Slider(a) => adjustment_search_terms(a),
                BackgroundImageWidget::Toggle(k) => toggle_search_terms(k),
                BackgroundImageWidget::Reset => reset_search_terms(),
            }),
    {
        match self {
            BackgroundImageWidget::Slider(a) => a.search_terms(),
            BackgroundImageWidget::Toggle(ImageToggleKind::Gradient) => {
                "background image bottom darkening gradient enable disable on off"
            },
            BackgroundImageWidget::Toggle(ImageToggleKind::Vignette) => {
                "background image vignette enable disable on off"
            },
            BackgroundImageWidget::Reset => "background image restore reset defaults",
        }
    }

    /// Every row shows exactly when a background image resolves.
    pub fn should_render(
        &self,
        settings: &BackgroundImageSettings,
        shaders_supported: bool,
        theme_image: Option<ThemeImage>,
    ) -> (r: bool)
        ensures
            r == settings.resolution(shaders_supported, theme_image) is Some,
    {
        has_background_image(settings, shaders_supported, theme_image)
    }
}

/// Whether the active theme has a background image that the effects apply to.
pub fn has_background_image(
    settings: &BackgroundImageSettings,
    shaders_supported: bool,
    theme_image: Option<ThemeImage>,
) -> (r: bool)
    ensures
        r == settings.resolution(shaders_supported, theme_image) is Some,
        r == (shaders_supported && theme_image is Some),
{
    settings.resolve(shaders_supported, theme_image).is_some()
}

/// The rows of the section, in the order they are shown.
pub open spec fn section_rows() -> Seq<BackgroundImageWidget> {
    seq![
        BackgroundImageWidget::Slider(BackgroundImageAdjustment::Opacity),
        BackgroundImageWidget::Slider(BackgroundImageAdjustment::Brightness),
        BackgroundImageWidget::Slider(BackgroundImageAdjustment::Contrast),
        BackgroundImageWidget::Toggle(ImageToggleKind::Gradient),
        BackgroundImageWidget::Slider(BackgroundImageAdjustment::GradientStrength),
        BackgroundImageWidget::Slider(BackgroundImageAdjustment::GradientStart),
        BackgroundImageWidget::Toggle(ImageToggleKind::Vignette),
        BackgroundImageWidget::Slider(BackgroundImageAdjustment::VignetteStrength),
        BackgroundImageWidget::Reset,
    ]
}

/// The rows of the background image section.
pub fn widgets() -> (r: Vec<BackgroundImageWidget>)
    ensures
        r@ == section_rows(),
{
    let mut rows: Vec<BackgroundImageWidget> = Vec::new();
    rows.push(BackgroundImageWidget::Slider(BackgroundImageAdjustment::Opacity));
    rows.push(BackgroundImageWidget::Slider(BackgroundImageAdjustment::Brightness));
    rows.push(BackgroundImageWidget::Slider(BackgroundImageAdjustment::Contrast));
    rows.push(BackgroundImageWidget::Toggle(ImageToggleKind::Gradient));
    rows.push(BackgroundImageWidget::Slider(BackgroundImageAdjustment::GradientStrength));
    rows.push(BackgroundImageWidget::Slider(BackgroundImageAdjustment::GradientStart));
    rows.push(BackgroundImageWidget::Toggle(ImageToggleKind::Vignette));
    rows.push(BackgroundImageWidget::Slider(BackgroundImageAdjustment::VignetteStrength));
    rows.push(BackgroundImageWidget::Reset);
    rows
}

} // verus!
