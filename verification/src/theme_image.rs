//! What the active theme says about its background image.

use vstd::prelude::*;

use crate::dither::DitherConfig;

verus! {

/// A shader that a theme ships for its background image.
#[derive(Clone, Copy, Debug, PartialEq, Eq)]
pub enum BackgroundShader {
    Dither(DitherConfig),
}

/// The background image of a theme, as far as the effects read it: its opacity
/// in percent (an imported image defaults to 30) and the shader it ships, if any.
#[derive(Clone, Copy, Debug, PartialEq, Eq)]
pub struct ThemeImage {
    pub opacity: u8,
    pub shader: Option<BackgroundShader>,
}

} // verus!
