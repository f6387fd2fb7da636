//! Tests for the font catalog builder and the font listing.

use svg_raster::{FontProperties, RenderError, build_catalog, catalog_for_document,
    collect_font_lines};

fn empty_settings() -> FontProperties {
    FontProperties {
        font_files: Vec::new(),
        font_dirs: Vec::new(),
        serif_family: None,
        sans_serif_family: None,
        cursive_family: None,
        fantasy_family: None,
        monospace_family: None,
        skip_system_fonts: true,
    }
}

#[test]
fn listing_with_nothing_to_load_is_empty() {
    let lines = collect_font_lines(&empty_settings()).unwrap();
    assert_eq!(lines, Vec::<String>::new());
}

#[test]
fn one_explicit_file_lists_exactly_its_faces() {
    let path = "/usr/share/fonts/truetype/dejavu/DejaVuSerif.ttf";
    let mut settings = empty_settings();
    settings.font_files = vec![path.to_string()];
    let lines = collect_font_lines(&settings).unwrap();
    assert_eq!(lines.len(), 1);
    assert!(lines[0].starts_with(path));
    assert!(lines[0].contains("DejaVu Serif"));
}

#[test]
fn unreadable_font_file_fails_fast_naming_the_path() {
    let mut settings = empty_settings();
    settings.font_files = vec!["/no/such/font.ttf".to_string()];
    match collect_font_lines(&settings) {
        Err(RenderError::FontFile { path, .. }) => {
            assert_eq!(path, "/no/such/font.ttf".to_string());
        }
        other => panic!("expected a font-file error, got {:?}", other),
    }
}

#[test]
fn unreadable_font_dir_is_skipped_best_effort() {
    let mut settings = empty_settings();
    settings.font_dirs = vec!["/no/such/dir".to_string()];
    let lines = collect_font_lines(&settings).unwrap();
    assert_eq!(lines, Vec::<String>::new());
}

#[test]
fn catalog_is_built_even_with_nothing_to_load() {
    assert!(build_catalog(&empty_settings()).is_ok());
}

#[test]
fn document_without_text_builds_no_catalog() {
    // The settings would trigger a system scan; a text-free document must
    // not pay for it.
    let mut settings = empty_settings();
    settings.skip_system_fonts = false;
    let r = catalog_for_document(false, &settings);
    assert!(matches!(r, Ok(None)));
}

#[test]
fn document_with_text_builds_a_catalog() {
    let r = catalog_for_document(true, &empty_settings());
    assert!(matches!(r, Ok(Some(_))));
}
