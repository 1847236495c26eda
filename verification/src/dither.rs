//! The dot-and-cross dither that can be drawn over a background image.

use vstd::prelude::*;

verus! {

/// Parameters for the dot-and-cross background shader. Sizes are in logical pixels.
#[derive(Clone, Copy, Debug, PartialEq, Eq)]
pub struct DitherConfig {
    pub pixel_size: u8,
    pub strength: u8,
    pub animated: bool,
}

/// Smallest grain size, in logical pixels, that the shader draws.
pub const MIN_PIXEL_SIZE: u8 = 1;

/// Largest grain size, in logical pixels, that the shader draws.
pub const MAX_PIXEL_SIZE: u8 = 32;

/// Largest dither strength, in percent.
pub const MAX_STRENGTH: u8 = 100;

/// `x` held to the range `lo..=hi`.
pub open spec fn clamp_int(x: int, lo: int, hi: int) -> int {
    if x < lo {
        lo
    } else if x > hi {
        hi
    } else {
        x
    }
}

impl DitherConfig {
    /// The configuration a theme without its own dither settings uses.
    pub open spec fn default_config() -> DitherConfig {
        DitherConfig { pixel_size: 4, strength: 100, animated: true }
    }

    /// The configuration with its grain size held to `1..=32` and its strength to `0..=100`.
    pub open spec fn clamped_config(self) -> DitherConfig {
        DitherConfig {
            pixel_size: clamp_int(self.pixel_size as int, MIN_PIXEL_SIZE as int, MAX_PIXEL_SIZE as int) as u8,
            strength: clamp_int(self.strength as int, 0, MAX_STRENGTH as int) as u8,
            animated: self.animated,
        }
    }

    /// The values the shader receives, before they are scaled to device pixels:
    /// the grain size held to `1..=32` logical pixels and the strength to at most
    /// 100 percent. Whether time drives the effect is `animated` itself.
    pub fn clamped(self) -> (r: DitherConfig)
        ensures
            r == self.clamped_config(),
            MIN_PIXEL_SIZE <= r.pixel_size <= MAX_PIXEL_SIZE,
            r.strength <= MAX_STRENGTH,
            r.animated == self.animated,
            1 <= self.pixel_size <= 32 ==> r.pixel_size == self.pixel_size,
            self.pixel_size == 0 ==> r.pixel_size == 1,
            self.pixel_size > 32 ==> r.pixel_size == 32,
            self.strength <= 100 ==> r.strength == self.strength,
            self.strength > 100 ==> r.strength == 100,
    {
        let pixel_size = if self.pixel_size < MIN_PIXEL_SIZE {
            MIN_PIXEL_SIZE
        } else if self.pixel_size > MAX_PIXEL_SIZE {
            MAX_PIXEL_SIZE
        } else {
            self.pixel_size
        };
        let strength = if self.strength > MAX_STRENGTH {
            MAX_STRENGTH
        } else {
            self.strength
        };
        DitherConfig { pixel_size, strength, animated: self.animated }
    }

    /// Whether the effect needs repaints at the animation frame interval: only an
    /// animated, visible dither in the active window does.
    pub fn should_animate(self, window_active: bool) -> (r: bool)
        ensures
            r == (self.animated && self.strength > 0 && window_active),
            !window_active ==> !r,
            self.strength == 0 ==> !r,
            !self.animated ==> !r,
    {
        self.animated && self.strength > 0 && window_active
    }
}

impl Default for DitherConfig {
    fn default() -> (r: DitherConfig)
        ensures
            r == DitherConfig::default_config(),
            r.pixel_size == 4 && r.strength == 100 && r.animated,
    {
        DitherConfig { pixel_size: 4, strength: 100, animated: true }
    }
}

} // verus!
