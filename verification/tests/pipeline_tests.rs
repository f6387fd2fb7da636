//! End-to-end tests of the rendering pipeline: source bytes to PNG bytes,
//! with each stage's failure mapped to its own error.

use svg_raster::{
    FontProperties, RenderError, SizingMode, prepare_tree, tree_int_size, plan_target,
    rasterize_tree, filter_identified, QueryNode, Rgba,
};

fn no_fonts() -> FontProperties {
    FontProperties {
        font_files: Vec::new(),
        font_dirs: Vec::new(),
        serif_family: None,
        sans_serif_family: None,
        cursive_family: None,
        fantasy_family: None,
        monospace_family: None,
        skip_system_fonts: true,
    }
}

fn transform_of(scale: svg_raster::ScaleRatio) -> tiny_skia::Transform {
    tiny_skia::Transform::from_scale(
        scale.x_num as f32 / scale.x_den as f32,
        scale.y_num as f32 / scale.y_den as f32,
    )
}

const SIMPLE_SVG: &str = "<svg xmlns='http://www.w3.org/2000/svg' width='10' height='10'>\
<rect width='10' height='10' fill='green'/></svg>";

#[test]
fn renders_a_simple_document_to_png_bytes() {
    let tree = prepare_tree(
        SIMPLE_SVG.as_bytes().to_vec(),
        &no_fonts(),
        usvg::Options::default(),
    )
    .unwrap();
    assert_eq!(tree_int_size(&tree), (10, 10));

    let geometry = plan_target(SizingMode::Size(3, 4), 10, 10).unwrap();
    assert_eq!((geometry.width(), geometry.height()), (3, 4));

    let png = rasterize_tree(&tree, &geometry, None, transform_of(geometry.scale())).unwrap();
    assert_eq!(&png[..8], &[0x89, b'P', b'N', b'G', 0x0d, 0x0a, 0x1a, 0x0a]);

    let pixmap = tiny_skia::Pixmap::decode_png(&png).unwrap();
    assert_eq!((pixmap.width(), pixmap.height()), (3, 4));
}

#[test]
fn background_pre_fills_the_buffer() {
    let empty_svg =
        "<svg xmlns='http://www.w3.org/2000/svg' width='2' height='2'></svg>";
    let tree = prepare_tree(
        empty_svg.as_bytes().to_vec(),
        &no_fonts(),
        usvg::Options::default(),
    )
    .unwrap();
    let geometry = plan_target(SizingMode::Original, 2, 2).unwrap();
    let background = Some(Rgba { red: 255, green: 0, blue: 0, alpha: 255 });
    let png = rasterize_tree(&tree, &geometry, background, transform_of(geometry.scale()))
        .unwrap();
    let pixmap = tiny_skia::Pixmap::decode_png(&png).unwrap();
    let pixel = pixmap.pixel(0, 0).unwrap();
    assert_eq!((pixel.red(), pixel.green(), pixel.blue(), pixel.alpha()), (255, 0, 0, 255));
}

#[test]
fn bad_gzip_stream_is_a_decompression_error_not_a_parse_error() {
    let r = prepare_tree(
        vec![0x1f, 0x8b, 0x00, 0x00, 0x01],
        &no_fonts(),
        usvg::Options::default(),
    );
    assert!(matches!(r, Err(RenderError::Decompress { .. })));
}

#[test]
fn non_utf8_bytes_are_an_encoding_error() {
    let r = prepare_tree(vec![0xff, 0xfe, 0x00], &no_fonts(), usvg::Options::default());
    assert_eq!(r.unwrap_err(), RenderError::Encoding);
}

#[test]
fn malformed_markup_is_a_parse_error() {
    let r = prepare_tree(
        b"this is not markup".to_vec(),
        &no_fonts(),
        usvg::Options::default(),
    );
    assert!(matches!(r, Err(RenderError::Parse { .. })));
}

#[test]
fn zero_target_is_fatal_before_any_buffer_work() {
    let r = plan_target(SizingMode::Width(0), 10, 10);
    assert_eq!(r.unwrap_err(), RenderError::ZeroTarget);
    let r = plan_target(SizingMode::Zoom(1), 10, 10);
    assert_eq!(r.unwrap_err(), RenderError::ZeroTarget);
}

#[test]
fn bad_font_file_fails_the_pipeline_with_its_path() {
    let text_svg = "<svg xmlns='http://www.w3.org/2000/svg' width='10' height='10'>\
<text x='0' y='5'>hi</text></svg>";
    let mut fonts = no_fonts();
    fonts.font_files = vec!["/no/such/font.ttf".to_string()];
    let r = prepare_tree(text_svg.as_bytes().to_vec(), &fonts, usvg::Options::default());
    match r {
        Err(RenderError::FontFile { path, .. }) => {
            assert_eq!(path, "/no/such/font.ttf".to_string());
        }
        other => panic!("expected a font-file error, got {:?}", other),
    }
}

#[test]
fn graphics_only_document_ignores_broken_font_settings() {
    // The same broken font file is irrelevant for a document without text,
    // because no catalog is built for it.
    let mut fonts = no_fonts();
    fonts.font_files = vec!["/no/such/font.ttf".to_string()];
    let r = prepare_tree(SIMPLE_SVG.as_bytes().to_vec(), &fonts, usvg::Options::default());
    assert!(r.is_ok());
}

#[test]
fn query_reports_only_identified_children_rounded_to_thousandths() {
    let svg = "<svg xmlns='http://www.w3.org/2000/svg' width='20' height='20'>\
<rect id='a' x='1.0005' y='2' width='10' height='5' fill='red'/>\
<rect x='3' y='3' width='4' height='4' fill='blue'/></svg>";
    let tree = prepare_tree(svg.as_bytes().to_vec(), &no_fonts(), usvg::Options::default())
        .unwrap();

    let mut nodes: Vec<QueryNode> = Vec::new();
    for node in tree.root().children() {
        let bbox = node.abs_stroke_bounding_box();
        nodes.push(QueryNode {
            id: node.id().to_string(),
            x_milli: (bbox.x() * 1000.0).round() as i64,
            y_milli: (bbox.y() * 1000.0).round() as i64,
            width_milli: (bbox.width() * 1000.0).round() as i64,
            height_milli: (bbox.height() * 1000.0).round() as i64,
        });
    }

    let reported = filter_identified(&nodes);
    assert_eq!(reported.len(), 1);
    assert_eq!(reported[0].id, "a".to_string());
    // 1.0005 sits on a rounding boundary that binary floats do not represent
    // exactly; both neighbours are acceptable.
    assert!(reported[0].x_milli == 1000 || reported[0].x_milli == 1001);
    assert_eq!(reported[0].y_milli, 2000);
    assert_eq!(reported[0].width_milli, 10000);
    assert_eq!(reported[0].height_milli, 5000);
}

#[test]
fn gzip_compressed_source_is_inflated_before_parsing() {
    // A gzip stream holding:
    // <svg xmlns='http://www.w3.org/2000/svg' width='4' height='4'>
    //   <rect width='4' height='4' fill='blue'/></svg>
    let compressed: Vec<u8> = vec![
        0x1f, 0x8b, 0x08, 0x00, 0x00, 0x00, 0x00, 0x00, 0x02, 0x03, 0x6d, 0x8c, 0xbb, 0x0e, 0x80,
        0x20, 0x0c, 0x00, 0x7f, 0xa5, 0x5b, 0x37, 0x4a, 0xd4, 0xc9, 0x00, 0x1f, 0xa3, 0x22, 0x90,
        0xe0, 0x23, 0x50, 0xad, 0x9f, 0xaf, 0xec, 0x6e, 0x97, 0xdc, 0xe5, 0x4c, 0xbd, 0x03, 0x3c,
        0x5b, 0xde, 0xab, 0xc5, 0xc8, 0x7c, 0x8e, 0x44, 0x22, 0xa2, 0xa4, 0x57, 0x47, 0x09, 0xd4,
        0x69, 0xad, 0xe9, 0x2b, 0x10, 0x24, 0x2d, 0x1c, 0x2d, 0x0e, 0x08, 0xd1, 0xa7, 0x10, 0xb9,
        0xa1, 0x33, 0xc5, 0xcf, 0xfc, 0xab, 0x60, 0x4d, 0x39, 0x5b, 0x9c, 0xf2, 0xe5, 0x91, 0x9c,
        0x69, 0x0f, 0xf7, 0x02, 0x64, 0xb0, 0xb6, 0x5f, 0x6b, 0x00, 0x00, 0x00,
    ];
    let tree = prepare_tree(compressed, &no_fonts(), usvg::Options::default()).unwrap();
    assert_eq!(tree_int_size(&tree), (4, 4));
}
