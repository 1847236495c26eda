use std::time::Duration;

use warp_background::dither::DitherConfig;

/// The shader parameters as the renderer computes them from the clamped configuration.
fn parameters(config: DitherConfig, elapsed: Duration, scale_factor: f32) -> [f32; 4] {
    let c = config.clamped();
    [
        if c.animated { elapsed.as_secs_f32() } else { 0.0 },
        f32::from(c.strength) / 100.0,
        (f32::from(c.pixel_size) * scale_factor).round().max(1.0),
        if c.animated { 1.0 } else { 0.0 },
    ]
}

#[test]
fn clamps_extreme_config_and_aligns_grain_to_device_pixels() {
    let config = DitherConfig {
        pixel_size: 0,
        strength: 255,
        animated: true,
    };
    assert_eq!(
        parameters(config, Duration::from_secs(2), 1.5),
        [2.0, 1.0, 2.0, 1.0]
    );
    let config = DitherConfig {
        pixel_size: 255,
        ..config
    };
    assert_eq!(
        parameters(config, Duration::ZERO, 2.0),
        [0.0, 1.0, 64.0, 1.0]
    );
}

#[test]
fn static_effect_has_no_time_or_motion() {
    let config = DitherConfig {
        animated: false,
        ..Default::default()
    };
    assert_eq!(
        parameters(config, Duration::from_secs(500), 2.0),
        [0.0, 1.0, 8.0, 0.0]
    );
    assert!(!config.should_animate(true));
}

#[test]
fn inactive_window_does_not_schedule_animation() {
    assert!(!DitherConfig::default().should_animate(false));
    assert!(DitherConfig::default().should_animate(true));
}

#[test]
fn disabled_effect_does_not_schedule_animation() {
    let config = DitherConfig {
        strength: 0,
        ..Default::default()
    };
    assert!(!config.should_animate(true));
}

#[test]
fn default_dither_is_fine_animated_and_full_strength() {
    assert_eq!(
        DitherConfig::default(),
        DitherConfig {
            pixel_size: 4,
            strength: 100,
            animated: true
        }
    );
}

#[test]
fn clamped_keeps_values_in_range_and_the_animation_flag() {
    let c = DitherConfig {
        pixel_size: 7,
        strength: 42,
        animated: false,
    };
    assert_eq!(c.clamped(), c);
    let c = DitherConfig {
        pixel_size: 33,
        strength: 101,
        animated: true,
    }
    .clamped();
    assert_eq!(
        c,
        DitherConfig {
            pixel_size: 32,
            strength: 100,
            animated: true
        }
    );
    let c = DitherConfig {
        pixel_size: 1,
        strength: 0,
        animated: false,
    }
    .clamped();
    assert_eq!(c.pixel_size, 1);
    assert_eq!(c.strength, 0);
}
