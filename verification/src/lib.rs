//! Rendering-configuration resolution and pipeline orchestration for turning
//! SVG documents into PNG images.
//!
//! The crate validates a raw configuration into an immutable rendering plan,
//! computes the output size and scale from a sizing mode, assembles a font
//! catalog only when a document actually needs one, and sequences the
//! load / decompress / parse / font-resolve / build / rasterize / encode
//! stages behind a uniform error channel.

mod document;
mod errors;
mod fit;
mod fonts;
mod plan;
mod query;
mod raster;

pub use query::{QueryNode, reported, filter_identified};

pub use document::{
    svgz_decoded, xml_parses, gzip_prefixed, source_bytes_spec, source_text_spec, tree_int_size,
    prepare_tree,
};
pub use raster::{RenderGeometry, plan_target, rasterize_tree};

pub use errors::{ConfigError, RenderError};
pub use fonts::{
    face_lines, generic_families, family_or, expected_families, loads_nothing, build_catalog,
    catalog_for_document, collect_font_lines,
};
pub use plan::{
    RawOptions, InputOrigin, ShapeRendering, TextRendering, ImageRendering, Rgba, FontProperties,
    ResolvedPlan, DEFAULT_DIMENSION, color_of, sizing_mode_spec, positive_dim, default_size_spec,
    resources_dir_spec, shape_rendering_spec, text_rendering_spec, image_rendering_spec,
    parse_shape_rendering, parse_text_rendering, parse_image_rendering, resolves_ok, parse_options,
    shape_rendering_name_spec, text_rendering_name_spec, image_rendering_name_spec,
    shape_rendering_name, text_rendering_name, image_rendering_name,
    lemma_shape_rendering_round_trip, lemma_text_rendering_round_trip,
    lemma_image_rendering_round_trip,
};
pub use fit::{
    SizingMode, ScaleRatio, ZOOM_ONE, ceil_div, round_div, sat_u32, uniform_other_dim, zoomed_dim,
    fit_size_spec, fit_transform_spec, fit_to_size, fit_to_transform, lemma_fit_size_positive,
    lemma_size_mode_exact, lemma_width_mode_aspect, lemma_height_mode_aspect, lemma_zoom_unit,
};
