use std::collections::HashSet;

use warp_background::controls::{
    has_background_image, widgets, BackgroundImageAdjustment, BackgroundImageWidget,
    ImageToggleKind,
};
use warp_background::image_settings::BackgroundImageSettings;
use warp_background::theme_image::ThemeImage;

/// Search on the settings page: every word of the query is one of the terms.
fn search_terms_match(terms: &str, query: &str) -> bool {
    let terms = terms.to_lowercase();
    let words: Vec<&str> = terms.split_whitespace().collect();
    query
        .to_lowercase()
        .split_whitespace()
        .all(|q| words.contains(&q))
}

#[test]
fn background_image_search_and_ids_are_independent() {
    let widgets = widgets();
    let ids: HashSet<_> = widgets.iter().map(|widget| widget.widget_id()).collect();
    assert_eq!(ids.len(), 9);
    for query in [
        "image opacity",
        "brightness",
        "contrast",
        "gradient off",
        "gradient strength",
        "gradient start",
        "vignette off",
        "vignette strength",
        "restore defaults",
    ] {
        assert_eq!(
            widgets
                .iter()
                .filter(|widget| search_terms_match(widget.search_terms(), query))
                .count(),
            1,
            "{query}"
        );
    }
    assert_eq!(
        widgets
            .iter()
            .filter(|widget| search_terms_match(widget.search_terms(), "background image"))
            .count(),
        9
    );
}

#[test]
fn image_rows_follow_image_availability() {
    let settings = BackgroundImageSettings::default();
    let image = ThemeImage {
        opacity: 100,
        shader: None,
    };
    assert!(has_background_image(&settings, true, Some(image)));
    assert!(!has_background_image(&settings, true, None));
    assert!(!has_background_image(&settings, false, Some(image)));
    let shown = widgets()
        .iter()
        .filter(|w| w.should_render(&settings, true, Some(image)))
        .count();
    assert_eq!(shown, 9);
    let shown = widgets()
        .iter()
        .filter(|w| w.should_render(&settings, true, None))
        .count();
    assert_eq!(shown, 0);
}

#[test]
fn sliders_read_back_what_they_store() {
    let image = Some(ThemeImage {
        opacity: 30,
        shader: None,
    });
    let mut settings = BackgroundImageSettings::default();
    assert_eq!(BackgroundImageAdjustment::Opacity.value(&settings, true, image), 30);
    assert_eq!(BackgroundImageAdjustment::Opacity.value(&settings, true, None), 100);
    BackgroundImageAdjustment::Opacity.set(83, &mut settings);
    assert_eq!(settings.opacity, Some(83));
    assert_eq!(BackgroundImageAdjustment::Opacity.value(&settings, true, image), 83);
    BackgroundImageAdjustment::Brightness.set(500, &mut settings);
    assert_eq!(settings.brightness, 200);
    BackgroundImageAdjustment::Contrast.set(-4, &mut settings);
    assert_eq!(settings.contrast, 0);
    BackgroundImageAdjustment::GradientStrength.set(77, &mut settings);
    BackgroundImageAdjustment::GradientStart.set(101, &mut settings);
    BackgroundImageAdjustment::VignetteStrength.set(62, &mut settings);
    assert_eq!(settings.gradient_strength, 77);
    assert_eq!(settings.gradient_start, 100);
    assert_eq!(settings.vignette_strength, 62);
    assert_eq!(BackgroundImageAdjustment::Brightness.value(&settings, true, image), 200);
    assert_eq!(BackgroundImageAdjustment::GradientStrength.value(&settings, true, image), 77);
    assert_eq!(settings.opacity, Some(83));
}

#[test]
fn slider_values_are_held_to_their_maximum() {
    let mut settings = BackgroundImageSettings::default();
    settings.brightness = 900;
    settings.vignette_strength = 255;
    assert_eq!(BackgroundImageAdjustment::Brightness.value(&settings, true, None), 200);
    assert_eq!(BackgroundImageAdjustment::VignetteStrength.value(&settings, true, None), 100);
    assert_eq!(BackgroundImageAdjustment::Brightness.maximum(), 200);
    assert_eq!(BackgroundImageAdjustment::Contrast.maximum(), 200);
    assert_eq!(BackgroundImageAdjustment::Opacity.maximum(), 100);
    assert_eq!(BackgroundImageAdjustment::GradientStart.maximum(), 100);
}

#[test]
fn rows_have_their_labels_and_identifiers() {
    assert_eq!(BackgroundImageAdjustment::Opacity.label(), "Image opacity");
    assert_eq!(
        BackgroundImageAdjustment::GradientStrength.label(),
        "Bottom darkening strength"
    );
    assert_eq!(ImageToggleKind::Vignette.label(), "Vignette");
    assert_eq!(
        BackgroundImageWidget::Toggle(ImageToggleKind::Gradient).widget_id(),
        Some("BackgroundImageGradientToggle")
    );
    assert_eq!(
        BackgroundImageWidget::Slider(BackgroundImageAdjustment::Contrast).widget_id(),
        Some("background image contrast color")
    );
    assert_eq!(BackgroundImageWidget::Reset.widget_id(), None);
    assert_eq!(
        BackgroundImageWidget::Reset.search_terms(),
        "background image restore reset defaults"
    );
}

#[test]
fn switches_show_the_resolved_state() {
    let mut settings = BackgroundImageSettings::default();
    settings.gradient_enabled = true;
    let image = Some(ThemeImage {
        opacity: 30,
        shader: None,
    });
    let state = settings.resolve(true, image);
    assert!(ImageToggleKind::Gradient.is_checked(state));
    assert!(!ImageToggleKind::Vignette.is_checked(state));
    assert!(!ImageToggleKind::Gradient.is_checked(None));
}
