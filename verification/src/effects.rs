//! Static adjustments applied only to workspace background images.

use vstd::prelude::*;

verus! {

/// Neutral brightness and contrast, in percent.
pub const NEUTRAL_PERCENT: u16 = 100;

/// Largest brightness or contrast, in percent.
pub const MAX_COLOR_PERCENT: u16 = 200;

/// Largest strength or position of a mask, in percent.
pub const MAX_MASK_PERCENT: u8 = 100;

/// Static adjustments applied only to workspace background images.
/// Brightness and contrast are percentages where 100 is neutral; the gradient
/// (bottom darkening) and vignette strengths and the gradient start are
/// percentages of the window.
#[derive(Clone, Copy, Debug, PartialEq, Eq)]
pub struct BackgroundImageEffects {
    pub brightness: u16,
    pub contrast: u16,
    pub gradient_strength: u8,
    pub gradient_start: u8,
    pub vignette_strength: u8,
}

/// The integer form of the shader parameters: every value is a percentage that
/// the renderer divides by 100, and `active` says whether the adjusted path
/// runs at all. When it does not, every value is zero.
#[derive(Clone, Copy, Debug, PartialEq, Eq)]
pub struct ImageEffectParameters {
    pub brightness: u16,
    pub contrast: u16,
    pub gradient_strength: u16,
    pub gradient_start: u16,
    pub vignette_strength: u16,
    pub active: bool,
}

/// The smaller of two integers.
pub open spec fn min_int(a: int, b: int) -> int {
    if a < b {
        a
    } else {
        b
    }
}

impl BackgroundImageEffects {
    /// Neutral adjustments: no color change and no masks.
    pub open spec fn default_effects() -> BackgroundImageEffects {
        BackgroundImageEffects {
            brightness: 100,
            contrast: 100,
            gradient_strength: 0,
            gradient_start: 50,
            vignette_strength: 0,
        }
    }

    /// The adjustments leave every pixel as the original image path draws it:
    /// neutral color, and a gradient that is either off or starts at the very
    /// bottom of the window, and no vignette.
    pub open spec fn identity(self) -> bool {
        &&& self.brightness == NEUTRAL_PERCENT
        &&& self.contrast == NEUTRAL_PERCENT
        &&& (self.gradient_strength == 0 || self.gradient_start >= MAX_MASK_PERCENT)
        &&& self.vignette_strength == 0
    }

    /// The parameters the shader receives, as percentages.
    pub open spec fn parameters_of(self) -> ImageEffectParameters {
        if self.identity() {
            ImageEffectParameters {
                brightness: 0,
                contrast: 0,
                gradient_strength: 0,
                gradient_start: 0,
                vignette_strength: 0,
                active: false,
            }
        } else {
            ImageEffectParameters {
                brightness: min_int(self.brightness as int, MAX_COLOR_PERCENT as int) as u16,
                contrast: min_int(self.contrast as int, MAX_COLOR_PERCENT as int) as u16,
                gradient_strength: min_int(self.gradient_strength as int, MAX_MASK_PERCENT as int) as u16,
                gradient_start: min_int(self.gradient_start as int, MAX_MASK_PERCENT as int) as u16,
                vignette_strength: min_int(self.vignette_strength as int, MAX_MASK_PERCENT as int) as u16,
                active: true,
            }
        }
    }

    /// Whether the adjustments change nothing, so that the original image path can be used.
    pub fn is_identity(self) -> (r: bool)
        ensures
            r == self.identity(),
            r ==> self.brightness == 100 && self.contrast == 100 && self.vignette_strength == 0,
            (self.brightness == 100 && self.contrast == 100 && self.vignette_strength == 0
                && (self.gradient_strength == 0 || self.gradient_start >= 100)) ==> r,
    {
        self.brightness == NEUTRAL_PERCENT
            && self.contrast == NEUTRAL_PERCENT
            && (self.gradient_strength == 0 || self.gradient_start >= MAX_MASK_PERCENT)
            && self.vignette_strength == 0
    }

    /// The shader parameters in percent, with brightness and contrast held to at
    /// most 200 and the mask values to at most 100. Identity adjustments give all
    /// zeros, which selects the original image path.
    pub fn parameter_percents(self) -> (r: ImageEffectParameters)
        ensures
            r == self.parameters_of(),
            r.active == !self.identity(),
            r.brightness <= MAX_COLOR_PERCENT,
            r.contrast <= MAX_COLOR_PERCENT,
            r.gradient_strength <= MAX_MASK_PERCENT,
            r.gradient_start <= MAX_MASK_PERCENT,
            r.vignette_strength <= MAX_MASK_PERCENT,
            (self.brightness != 100 || self.contrast != 100) ==> r.active
                && r.brightness == (if self.brightness <= 200 { self.brightness } else { 200 })
                && r.contrast == (if self.contrast <= 200 { self.contrast } else { 200 }),
            r.active ==> r.gradient_strength == (if self.gradient_strength <= 100 { self.gradient_strength } else { 100 })
                && r.gradient_start == (if self.gradient_start <= 100 { self.gradient_start } else { 100 })
                && r.vignette_strength == (if self.vignette_strength <= 100 { self.vignette_strength } else { 100 })
                && r.brightness == (if self.brightness <= 200 { self.brightness } else { 200 })
                && r.contrast == (if self.contrast <= 200 { self.contrast } else { 200 }),
            !r.active ==> r.brightness == 0 && r.contrast == 0 && r.gradient_strength == 0
                && r.gradient_start == 0 && r.vignette_strength == 0,
    {
        if self.is_identity() {
            return ImageEffectParameters {
                brightness: 0,
                contrast: 0,
                gradient_strength: 0,
                gradient_start: 0,
                vignette_strength: 0,
                active: false,
            };
        }
        ImageEffectParameters {
            brightness: min_u16(self.brightness, MAX_COLOR_PERCENT),
            contrast: min_u16(self.contrast, MAX_COLOR_PERCENT),
            gradient_strength: min_u8(self.gradient_strength, MAX_MASK_PERCENT) as u16,
            gradient_start: min_u8(self.gradient_start, MAX_MASK_PERCENT) as u16,
            vignette_strength: min_u8(self.vignette_strength, MAX_MASK_PERCENT) as u16,
            active: true,
        }
    }
}

/// The smaller of two `u16` values.
pub fn min_u16(a: u16, b: u16) -> (r: u16)
    ensures
        r == min_int(a as int, b as int),
{
    if a < b {
        a
    } else {
        b
    }
}

/// The smaller of two `u8` values.
pub fn min_u8(a: u8, b: u8) -> (r: u8)
    ensures
        r == min_int(a as int, b as int),
{
    if a < b {
        a
    } else {
        b
    }
}

impl Default for BackgroundImageEffects {
    fn default() -> (r: BackgroundImageEffects)
        ensures
            r == BackgroundImageEffects::default_effects(),
            r.brightness == 100 && r.contrast == 100 && r.gradient_strength == 0,
            r.gradient_start == 50 && r.vignette_strength == 0,
    {
        BackgroundImageEffects {
            brightness: 100,
            contrast: 100,
            gradient_strength: 0,
            gradient_start: 50,
            vignette_strength: 0,
        }
    }
}

} // verus!
