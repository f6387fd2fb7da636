//! Tests for the options resolver: sizing precedence, resource directory
//! resolution, background parsing and quality-selector validation.

use svg_raster::{
    RawOptions, InputOrigin, SizingMode, ConfigError, Rgba, ShapeRendering, TextRendering,
    ImageRendering, parse_options, parse_shape_rendering, parse_text_rendering,
    parse_image_rendering, shape_rendering_name, text_rendering_name, image_rendering_name,
};

fn base_options() -> RawOptions {
    RawOptions {
        width: None,
        height: None,
        zoom: None,
        dpi: 96,
        background: None,
        languages: vec!["en".to_string()],
        shape_rendering: "geometric_precision".to_string(),
        text_rendering: "optimize_legibility".to_string(),
        image_rendering: "optimize_quality".to_string(),
        resources_dir: Some("/tmp".to_string()),
        font_family: None,
        font_size: 12,
        serif_family: None,
        sans_serif_family: None,
        cursive_family: None,
        fantasy_family: None,
        monospace_family: None,
        font_files: Vec::new(),
        font_dirs: Vec::new(),
        skip_system_fonts: true,
    }
}

#[test]
fn width_and_height_take_precedence() {
    let mut options = base_options();
    options.width = Some(30);
    options.height = Some(40);
    options.zoom = Some(2000);
    let plan = parse_options(InputOrigin::NoInput, options).unwrap();
    assert_eq!(plan.sizing, SizingMode::Size(30, 40));
    assert_eq!((plan.default_width, plan.default_height), (30, 40));
}

#[test]
fn width_alone_beats_zoom() {
    let mut options = base_options();
    options.width = Some(30);
    options.zoom = Some(2000);
    let plan = parse_options(InputOrigin::NoInput, options).unwrap();
    assert_eq!(plan.sizing, SizingMode::Width(30));
    assert_eq!((plan.default_width, plan.default_height), (30, 100));
}

#[test]
fn height_alone_beats_zoom() {
    let mut options = base_options();
    options.height = Some(40);
    options.zoom = Some(2000);
    let plan = parse_options(InputOrigin::NoInput, options).unwrap();
    assert_eq!(plan.sizing, SizingMode::Height(40));
    assert_eq!((plan.default_width, plan.default_height), (100, 40));
}

#[test]
fn zoom_applies_when_no_dimension_is_given() {
    let mut options = base_options();
    options.zoom = Some(2000);
    let plan = parse_options(InputOrigin::NoInput, options).unwrap();
    assert_eq!(plan.sizing, SizingMode::Zoom(2000));
    assert_eq!((plan.default_width, plan.default_height), (100, 100));
}

#[test]
fn nothing_given_keeps_original_size() {
    let plan = parse_options(InputOrigin::NoInput, base_options()).unwrap();
    assert_eq!(plan.sizing, SizingMode::Original);
    assert_eq!((plan.default_width, plan.default_height), (100, 100));
}

#[test]
fn explicit_resources_dir_is_used_verbatim() {
    let mut options = base_options();
    options.resources_dir = Some("/somewhere/else".to_string());
    let origin = InputOrigin::FromFile { canonical_parent: Some("/from/file".to_string()) };
    let plan = parse_options(origin, options).unwrap();
    assert_eq!(plan.resources_dir, Some("/somewhere/else".to_string()));
}

#[test]
fn file_input_falls_back_to_canonical_parent() {
    let mut options = base_options();
    options.resources_dir = None;
    let origin = InputOrigin::FromFile { canonical_parent: Some("/parent/dir".to_string()) };
    let plan = parse_options(origin, options).unwrap();
    assert_eq!(plan.resources_dir, Some("/parent/dir".to_string()));
}

#[test]
fn text_input_without_resources_dir_fails() {
    let mut options = base_options();
    options.resources_dir = None;
    let r = parse_options(InputOrigin::FromText, options);
    assert_eq!(r.unwrap_err(), ConfigError::MissingResourcesDir);
}

#[test]
fn no_input_without_resources_dir_fails() {
    let mut options = base_options();
    options.resources_dir = None;
    let r = parse_options(InputOrigin::NoInput, options);
    assert_eq!(r.unwrap_err(), ConfigError::MissingResourcesDir);
}

#[test]
fn named_background_color_parses() {
    let mut options = base_options();
    options.background = Some("red".to_string());
    let plan = parse_options(InputOrigin::NoInput, options).unwrap();
    assert_eq!(plan.background, Some(Rgba { red: 255, green: 0, blue: 0, alpha: 255 }));
}

#[test]
fn hex_background_color_parses() {
    let mut options = base_options();
    options.background = Some("#0000ff".to_string());
    let plan = parse_options(InputOrigin::NoInput, options).unwrap();
    assert_eq!(plan.background, Some(Rgba { red: 0, green: 0, blue: 255, alpha: 255 }));
}

#[test]
fn malformed_background_color_fails() {
    let mut options = base_options();
    options.background = Some("no-such-color".to_string());
    match parse_options(InputOrigin::NoInput, options) {
        Err(ConfigError::InvalidBackground { input, .. }) => {
            assert_eq!(input, "no-such-color".to_string());
        }
        other => panic!("expected an invalid-background error, got {:?}", other),
    }
}

#[test]
fn quality_selectors_are_validated() {
    let mut options = base_options();
    options.shape_rendering = "optimize_speed".to_string();
    options.text_rendering = "geometric_precision".to_string();
    options.image_rendering = "optimize_speed".to_string();
    let plan = parse_options(InputOrigin::NoInput, options).unwrap();
    assert_eq!(plan.shape_rendering, ShapeRendering::OptimizeSpeed);
    assert_eq!(plan.text_rendering, TextRendering::GeometricPrecision);
    assert_eq!(plan.image_rendering, ImageRendering::OptimizeSpeed);
}

#[test]
fn unknown_shape_rendering_fails() {
    let mut options = base_options();
    options.shape_rendering = "blurry".to_string();
    match parse_options(InputOrigin::NoInput, options) {
        Err(ConfigError::UnknownShapeRendering { input }) => {
            assert_eq!(input, "blurry".to_string());
        }
        other => panic!("expected an unknown-shape-rendering error, got {:?}", other),
    }
}

#[test]
fn unknown_text_rendering_fails() {
    let mut options = base_options();
    options.text_rendering = "fuzzy".to_string();
    match parse_options(InputOrigin::NoInput, options) {
        Err(ConfigError::UnknownTextRendering { input }) => {
            assert_eq!(input, "fuzzy".to_string());
        }
        other => panic!("expected an unknown-text-rendering error, got {:?}", other),
    }
}

#[test]
fn unknown_image_rendering_fails() {
    let mut options = base_options();
    options.image_rendering = "pixelated".to_string();
    match parse_options(InputOrigin::NoInput, options) {
        Err(ConfigError::UnknownImageRendering { input }) => {
            assert_eq!(input, "pixelated".to_string());
        }
        other => panic!("expected an unknown-image-rendering error, got {:?}", other),
    }
}

#[test]
fn font_family_defaults_to_times_new_roman() {
    let plan = parse_options(InputOrigin::NoInput, base_options()).unwrap();
    assert_eq!(plan.font_family, "Times New Roman".to_string());

    let mut options = base_options();
    options.font_family = Some("Courier New".to_string());
    let plan = parse_options(InputOrigin::NoInput, options).unwrap();
    assert_eq!(plan.font_family, "Courier New".to_string());
}

#[test]
fn plain_settings_are_carried_through() {
    let mut options = base_options();
    options.dpi = 120;
    options.font_size = 17;
    options.languages = vec!["de".to_string(), "fr".to_string()];
    options.serif_family = Some("My Serif".to_string());
    options.font_files = vec!["/a.ttf".to_string()];
    options.font_dirs = vec!["/fonts".to_string()];
    options.skip_system_fonts = true;
    let plan = parse_options(InputOrigin::NoInput, options).unwrap();
    assert_eq!(plan.dpi, 120);
    assert_eq!(plan.font_size, 17);
    assert_eq!(plan.languages, vec!["de".to_string(), "fr".to_string()]);
    assert_eq!(plan.fonts.serif_family, Some("My Serif".to_string()));
    assert_eq!(plan.fonts.font_files, vec!["/a.ttf".to_string()]);
    assert_eq!(plan.fonts.font_dirs, vec!["/fonts".to_string()]);
    assert!(plan.fonts.skip_system_fonts);
}

#[test]
fn zero_dimension_is_clamped_in_default_size_only() {
    let mut options = base_options();
    options.width = Some(0);
    options.height = Some(40);
    let plan = parse_options(InputOrigin::NoInput, options).unwrap();
    // The sizing mode keeps the zero and stays fatal at fit time; only the
    // fallback document size is forced positive.
    assert_eq!(plan.sizing, SizingMode::Size(0, 40));
    assert_eq!((plan.default_width, plan.default_height), (1, 40));
}

#[test]
fn selector_names_parse_back_to_their_methods() {
    for m in [
        ShapeRendering::OptimizeSpeed,
        ShapeRendering::CrispEdges,
        ShapeRendering::GeometricPrecision,
    ] {
        assert_eq!(parse_shape_rendering(&shape_rendering_name(m)), Some(m));
    }
    for m in [
        TextRendering::OptimizeSpeed,
        TextRendering::OptimizeLegibility,
        TextRendering::GeometricPrecision,
    ] {
        assert_eq!(parse_text_rendering(&text_rendering_name(m)), Some(m));
    }
    for m in [ImageRendering::OptimizeQuality, ImageRendering::OptimizeSpeed] {
        assert_eq!(parse_image_rendering(&image_rendering_name(m)), Some(m));
    }
}
