//! Background image adjustments and the dither effect that a terminal window
//! draws over its theme's background image: the settings that hold them, how
//! they resolve against the active theme, and the controls that edit them.

pub mod controls;
pub mod dither;
pub mod effects;
pub mod image_settings;
pub mod laws;
pub mod theme;
pub mod theme_image;
