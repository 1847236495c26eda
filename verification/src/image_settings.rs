//! User overrides for the background image, kept apart from the theme so that
//! adjusting an image never reloads its theme or asset.

use vstd::prelude::*;

use crate::effects::{
    min_int, min_u16, min_u8, BackgroundImageEffects, MAX_COLOR_PERCENT, MAX_MASK_PERCENT,
};
use crate::theme_image::ThemeImage;

verus! {

/// Largest image opacity, in percent.
pub const MAX_OPACITY: u8 = 100;

/// The background image settings group (`[appearance.background_image]`).
/// `opacity` is `None` where the theme's opacity applies.
#[derive(Clone, Copy, Debug, PartialEq, Eq)]
pub struct BackgroundImageSettings {
    pub opacity: Option<u8>,
    pub brightness: u16,
    pub contrast: u16,
    pub gradient_enabled: bool,
    pub gradient_strength: u8,
    pub gradient_start: u8,
    pub vignette_enabled: bool,
    pub vignette_strength: u8,
}

/// The background image as the renderer draws it: the settings resolved against
/// the active theme's image.
#[derive(Clone, Copy, Debug, PartialEq, Eq)]
pub struct BackgroundImageState {
    pub opacity: u8,
    pub effects: BackgroundImageEffects,
    pub gradient_enabled: bool,
    pub vignette_enabled: bool,
}

impl BackgroundImageSettings {
    /// Every setting at its default: theme opacity, neutral color, both masks off
    /// with their default strengths, and the gradient starting half way down.
    pub open spec fn defaults() -> BackgroundImageSettings {
        BackgroundImageSettings {
            opacity: None,
            brightness: 100,
            contrast: 100,
            gradient_enabled: false,
            gradient_strength: 60,
            gradient_start: 50,
            vignette_enabled: false,
            vignette_strength: 40,
        }
    }

    /// The opacity that applies to `image`: the override if one is set, else the
    /// theme's, held to at most 100.
    pub open spec fn resolved_opacity(self, image: ThemeImage) -> u8 {
        let chosen = match self.opacity {
            Some(o) => o,
            None => image.opacity,
        };
        min_int(chosen as int, MAX_OPACITY as int) as u8
    }

    /// The effects the settings give: brightness and contrast held to 200, mask
    /// values to 100, and the strength of a switched-off mask zero.
    pub open spec fn resolved_effects(self) -> BackgroundImageEffects {
        BackgroundImageEffects {
            brightness: min_int(self.brightness as int, MAX_COLOR_PERCENT as int) as u16,
            contrast: min_int(self.contrast as int, MAX_COLOR_PERCENT as int) as u16,
            gradient_strength: if self.gradient_enabled {
                min_int(self.gradient_strength as int, MAX_MASK_PERCENT as int) as u8
            } else {
                0
            },
            gradient_start: min_int(self.gradient_start as int, MAX_MASK_PERCENT as int) as u8,
            vignette_strength: if self.vignette_enabled {
                min_int(self.vignette_strength as int, MAX_MASK_PERCENT as int) as u8
            } else {
                0
            },
        }
    }

    /// The state the settings give for a theme with `image`.
    pub open spec fn state_for(self, image: ThemeImage) -> BackgroundImageState {
        BackgroundImageState {
            opacity: self.resolved_opacity(image),
            effects: self.resolved_effects(),
            gradient_enabled: self.gradient_enabled,
            vignette_enabled: self.vignette_enabled,
        }
    }

    /// What `resolve` returns: nothing where the build cannot draw background
    /// effects or the theme has no image, else the state for that image.
    pub open spec fn resolution(
        self,
        shaders_supported: bool,
        theme_image: Option<ThemeImage>,
    ) -> Option<BackgroundImageState> {
        if !shaders_supported {
            None
        } else {
            match theme_image {
                Some(image) => Some(self.state_for(image)),
                None => None,
            }
        }
    }

    /// The settings as a fresh profile has them.
    pub fn new_with_defaults() -> (r: BackgroundImageSettings)
        ensures
            r == BackgroundImageSettings::defaults(),
            r.opacity is None && r.brightness == 100 && r.contrast == 100,
            !r.gradient_enabled && r.gradient_strength == 60 && r.gradient_start == 50,
            !r.vignette_enabled && r.vignette_strength == 40,
    {
        BackgroundImageSettings {
            opacity: None,
            brightness: 100,
            contrast: 100,
            gradient_enabled: false,
            gradient_strength: 60,
            gradient_start: 50,
            vignette_enabled: false,
            vignette_strength: 40,
        }
    }

    /// Resolves the settings against the active theme's background image.
    /// `shaders_supported` is whether this build can render background effects.
    pub fn resolve(
        &self,
        shaders_supported: bool,
        theme_image: Option<ThemeImage>,
    ) -> (r: Option<BackgroundImageState>)
        ensures
            r == self.resolution(shaders_supported, theme_image),
            r is Some <==> shaders_supported && theme_image is Some,
            r matches Some(st) ==> {
                &&& st.effects.brightness == (if self.brightness <= 200 { self.brightness } else { 200 })
                &&& st.effects.contrast == (if self.contrast <= 200 { self.contrast } else { 200 })
                &&& st.effects.gradient_start == (if self.gradient_start <= 100 { self.gradient_start } else { 100 })
                &&& st.effects.gradient_strength == (if !self.gradient_enabled {
                    0
                } else if self.gradient_strength <= 100 {
                    self.gradient_strength
                } else {
                    100
                })
                &&& st.effects.vignette_strength == (if !self.vignette_enabled {
                    0
                } else if self.vignette_strength <= 100 {
                    self.vignette_strength
                } else {
                    100
                })
                &&& st.gradient_enabled == self.gradient_enabled
                &&& st.vignette_enabled == self.vignette_enabled
                &&& st.opacity == (match self.opacity {
                    Some(o) => if o <= 100 { o } else { 100 },
                    None => if theme_image->0.opacity <= 100 { theme_image->0.opacity } else { 100 },
                })
            },
    {
        if !shaders_supported {
            return None;
        }
        match theme_image {
            None => None,
            Some(image) => {
                let chosen = match self.opacity {
                    Some(o) => o,
                    None => image.opacity,
                };
                let effects = BackgroundImageEffects {
                    brightness: min_u16(self.brightness, MAX_COLOR_PERCENT),
                    contrast: min_u16(self.contrast, MAX_COLOR_PERCENT),
                    gradient_strength: if self.gradient_enabled {
                        min_u8(self.gradient_strength, MAX_MASK_PERCENT)
                    } else {
                        0
                    },
                    gradient_start: min_u8(self.gradient_start, MAX_MASK_PERCENT),
                    vignette_strength: if self.vignette_enabled {
                        min_u8(self.vignette_strength, MAX_MASK_PERCENT)
                    } else {
                        0
                    },
                };
                Some(
                    BackgroundImageState {
                        opacity: min_u8(chosen, MAX_OPACITY),
                        effects,
                        gradient_enabled: self.gradient_enabled,
                        vignette_enabled: self.vignette_enabled,
                    },
                )
            },
        }
    }

    /// Restores every setting of this group to its default. Other settings
    /// (the dither among them) are not part of this group and stay as they are.
    pub fn reset(&mut self)
        ensures
            *final(self) == BackgroundImageSettings::defaults(),
            final(self).opacity is None && final(self).brightness == 100 && final(self).contrast == 100,
            !final(self).gradient_enabled && final(self).gradient_strength == 60 && final(self).gradient_start == 50,
            !final(self).vignette_enabled && final(self).vignette_strength == 40,
    {
        *self = BackgroundImageSettings::new_with_defaults();
    }
}

impl Default for BackgroundImageSettings {
    fn default() -> (r: BackgroundImageSettings)
        ensures
            r == BackgroundImageSettings::defaults(),
    {
        BackgroundImageSettings::new_with_defaults()
    }
}

} // verus!
