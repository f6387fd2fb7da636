//! The options resolver: validates and normalizes a raw configuration plus an
//! input origin into a single immutable rendering plan.

use vstd::prelude::*;
use crate::errors::ConfigError;
use crate::fit::SizingMode;

verus! {

/// The default document dimension assumed when the caller fixes only part of
/// the size, and the default pixel size of a document with no intrinsic size.
pub const DEFAULT_DIMENSION: u32 = 100;

/// The user-supplied raw configuration, consumed exactly once per call.
/// The zoom factor is in thousandths, so 1000 means a factor of one.
#[derive(Clone, Debug)]
pub struct RawOptions {
    pub width: Option<u32>,
    pub height: Option<u32>,
    pub zoom: Option<u32>,
    pub dpi: u32,
    pub background: Option<String>,
    pub languages: Vec<String>,
    pub shape_rendering: String,
    pub text_rendering: String,
    pub image_rendering: String,
    pub resources_dir: Option<String>,
    pub font_family: Option<String>,
    pub font_size: u32,
    pub serif_family: Option<String>,
    pub sans_serif_family: Option<String>,
    pub cursive_family: Option<String>,
    pub fantasy_family: Option<String>,
    pub monospace_family: Option<String>,
    pub font_files: Vec<String>,
    pub font_dirs: Vec<String>,
    pub skip_system_fonts: bool,
}

/// Where the source document comes from. This decides how the resource
/// directory is defaulted when none is given explicitly.
#[derive(Clone, PartialEq, Eq, Debug)]
pub enum InputOrigin {
    /// The document is read from a file. The caller supplies the canonical
    /// parent directory of the file's path, or `None` when canonicalization
    /// failed; path canonicalization is filesystem work and happens at the
    /// host boundary.
    FromFile { canonical_parent: Option<String> },
    /// The document is passed as inline text.
    FromText,
    /// No document is involved, as when only fonts are listed.
    NoInput,
}

/// The default shape rendering method for elements that do not choose one.
#[derive(Clone, Copy, PartialEq, Eq, Structural, Debug)]
pub enum ShapeRendering {
    OptimizeSpeed,
    CrispEdges,
    GeometricPrecision,
}

/// The default text rendering method for elements that do not choose one.
#[derive(Clone, Copy, PartialEq, Eq, Structural, Debug)]
pub enum TextRendering {
    OptimizeSpeed,
    OptimizeLegibility,
    GeometricPrecision,
}

/// The default image rendering method for elements that do not choose one.
#[derive(Clone, Copy, PartialEq, Eq, Structural, Debug)]
pub enum ImageRendering {
    OptimizeQuality,
    OptimizeSpeed,
}

/// A parsed RGBA color.
#[derive(Clone, Copy, PartialEq, Eq, Structural, Debug)]
pub struct Rgba {
    pub red: u8,
    pub green: u8,
    pub blue: u8,
    pub alpha: u8,
}

/// Which fonts go into a font catalog: the explicit files, the directories,
/// the five generic family bindings, and whether system fonts are scanned.
#[derive(Clone, Debug)]
pub struct FontProperties {
    pub font_files: Vec<String>,
    pub font_dirs: Vec<String>,
    pub serif_family: Option<String>,
    pub sans_serif_family: Option<String>,
    pub cursive_family: Option<String>,
    pub fantasy_family: Option<String>,
    pub monospace_family: Option<String>,
    pub skip_system_fonts: bool,
}

/// The validated, immutable rendering plan. Created once per call and
/// read-only afterwards; nothing of it survives the call.
#[derive(Clone, Debug)]
pub struct ResolvedPlan {
    pub sizing: SizingMode,
    /// Document width assumed when the source declares no intrinsic size.
    pub default_width: u32,
    /// Document height assumed when the source declares no intrinsic size.
    pub default_height: u32,
    pub resources_dir: Option<String>,
    pub background: Option<Rgba>,
    pub dpi: u32,
    pub font_family: String,
    pub font_size: u32,
    pub languages: Vec<String>,
    pub shape_rendering: ShapeRendering,
    pub text_rendering: TextRendering,
    pub image_rendering: ImageRendering,
    pub fonts: FontProperties,
}

/// What a textual color spec denotes, if anything: red, green, blue and alpha.
pub uninterp spec fn color_of(s: Seq<char>) -> Option<(u8, u8, u8, u8)>;

/// Relies on svgtypes::Color and its FromStr impl: parses a CSS-style color
/// string into RGBA; the result depends on the characters alone.
#[verifier::external_body]
fn parse_color_str(s: &String) -> (r: Result<(u8, u8, u8, u8), String>)
    ensures
        r is Ok <==> color_of(s@) is Some,
        r is Ok ==> r.unwrap() == color_of(s@).unwrap(),
{
    match s.parse::<svgtypes::Color>() {
        Ok(c) => Ok((c.red, c.green, c.blue, c.alpha)),
        Err(e) => Err(e.to_string()),
    }
}

/// The sizing mode derived from which of width, height and zoom were given:
/// width and height together win over width alone, then height alone, then
/// zoom; with none of them the source size is kept.
pub open spec fn sizing_mode_spec(
    width: Option<u32>,
    height: Option<u32>,
    zoom: Option<u32>,
) -> SizingMode {
    if width is Some && height is Some {
        SizingMode::Size(width.unwrap(), height.unwrap())
    } else if width is Some {
        SizingMode::Width(width.unwrap())
    } else if height is Some {
        SizingMode::Height(height.unwrap())
    } else if zoom is Some {
        SizingMode::Zoom(zoom.unwrap())
    } else {
        SizingMode::Original
    }
}

/// A dimension forced to be positive, so that the default document size is
/// always a valid size. A zero stays fatal at fit time, not here.
pub open spec fn positive_dim(v: u32) -> u32 {
    if v == 0 {
        1u32
    } else {
        v
    }
}

/// The default document size paired with the sizing mode: a given dimension
/// is used as supplied, a missing one falls back to `DEFAULT_DIMENSION`.
pub open spec fn default_size_spec(width: Option<u32>, height: Option<u32>) -> (u32, u32) {
    (
        if width is Some {
            positive_dim(width.unwrap())
        } else {
            DEFAULT_DIMENSION
        },
        if height is Some {
            positive_dim(height.unwrap())
        } else {
            DEFAULT_DIMENSION
        },
    )
}

/// The resolved resource directory: an explicit directory is used verbatim;
/// otherwise file input falls back to the canonical parent of the input path,
/// and text or absent input makes the omission an error.
pub open spec fn resources_dir_spec(
    explicit: Option<String>,
    origin: InputOrigin,
) -> Result<Option<String>, ()> {
    if explicit is Some {
        Ok(explicit)
    } else {
        match origin {
            InputOrigin::FromFile { canonical_parent } => Ok(canonical_parent),
            _ => Err(()),
        }
    }
}

/// The shape-rendering method a selector string denotes, if it is recognized.
pub open spec fn shape_rendering_spec(s: Seq<char>) -> Option<ShapeRendering> {
    if s == "optimize_speed"@ {
        Some(ShapeRendering::OptimizeSpeed)
    } else if s == "crisp_edges"@ {
        Some(ShapeRendering::CrispEdges)
    } else if s == "geometric_precision"@ {
        Some(ShapeRendering::GeometricPrecision)
    } else {
        None
    }
}

/// The text-rendering method a selector string denotes, if it is recognized.
pub open spec fn text_rendering_spec(s: Seq<char>) -> Option<TextRendering> {
    if s == "optimize_speed"@ {
        Some(TextRendering::OptimizeSpeed)
    } else if s == "optimize_legibility"@ {
        Some(TextRendering::OptimizeLegibility)
    } else if s == "geometric_precision"@ {
        Some(TextRendering::GeometricPrecision)
    } else {
        None
    }
}

/// The image-rendering method a selector string denotes, if it is recognized.
pub open spec fn image_rendering_spec(s: Seq<char>) -> Option<ImageRendering> {
    if s == "optimize_quality"@ {
        Some(ImageRendering::OptimizeQuality)
    } else if s == "optimize_speed"@ {
        Some(ImageRendering::OptimizeSpeed)
    } else {
        None
    }
}

/// Parses a shape-rendering selector against the recognized value set.
pub fn parse_shape_rendering(s: &String) -> (r: Option<ShapeRendering>)
    ensures
        r == shape_rendering_spec(s@),
{
    if *s == "optimize_speed".to_owned() {
        Some(ShapeRendering::OptimizeSpeed)
    } else if *s == "crisp_edges".to_owned() {
        Some(ShapeRendering::CrispEdges)
    } else if *s == "geometric_precision".to_owned() {
        Some(ShapeRendering::GeometricPrecision)
    } else {
        None
    }
}

/// Parses a text-rendering selector against the recognized value set.
pub fn parse_text_rendering(s: &String) -> (r: Option<TextRendering>)
    ensures
        r == text_rendering_spec(s@),
{
    if *s == "optimize_speed".to_owned() {
        Some(TextRendering::OptimizeSpeed)
    } else if *s == "optimize_legibility".to_owned() {
        Some(TextRendering::OptimizeLegibility)
    } else if *s == "geometric_precision".to_owned() {
        Some(TextRendering::GeometricPrecision)
    } else {
        None
    }
}

/// Parses an image-rendering selector against the recognized value set.
pub fn parse_image_rendering(s: &String) -> (r: Option<ImageRendering>)
    ensures
        r == image_rendering_spec(s@),
{
    if *s == "optimize_quality".to_owned() {
        Some(ImageRendering::OptimizeQuality)
    } else if *s == "optimize_speed".to_owned() {
        Some(ImageRendering::OptimizeSpeed)
    } else {
        None
    }
}

/// Whether a raw configuration resolves without error against an origin:
/// the resource directory is resolvable, the background color (when given)
/// parses, and the three rendering-quality selectors are recognized.
pub open spec fn resolves_ok(origin: InputOrigin, config: RawOptions) -> bool {
    &&& resources_dir_spec(config.resources_dir, origin) is Ok
    &&& (config.background is Some ==> color_of(config.background.unwrap()@) is Some)
    &&& shape_rendering_spec(config.shape_rendering@) is Some
    &&& text_rendering_spec(config.text_rendering@) is Some
    &&& image_rendering_spec(config.image_rendering@) is Some
}

/// Resolves a raw configuration plus an input origin into a rendering plan.
///
/// The sizing mode follows the width-and-height over width over height over
/// zoom precedence; the resource directory follows the origin rule; a
/// malformed background color or an unrecognized rendering-quality selector
/// fails resolution. The resolver performs no I/O.
pub fn parse_options(origin: InputOrigin, config: RawOptions) -> (r: Result<ResolvedPlan, ConfigError>)
    ensures
        r is Ok <==> resolves_ok(origin, config),
        resources_dir_spec(config.resources_dir, origin) is Err ==> r == Err::<ResolvedPlan, _>(
            ConfigError::MissingResourcesDir,
        ),
        ({
            &&& resources_dir_spec(config.resources_dir, origin) is Ok
            &&& config.background is Some
            &&& color_of(config.background.unwrap()@) is None
        }) ==> (r matches Err(ConfigError::InvalidBackground { input, .. }) && input
            == config.background.unwrap()),
        ({
            &&& resources_dir_spec(config.resources_dir, origin) is Ok
            &&& (config.background is Some ==> color_of(config.background.unwrap()@) is Some)
            &&& shape_rendering_spec(config.shape_rendering@) is None
        }) ==> r == Err::<ResolvedPlan, _>(
            ConfigError::UnknownShapeRendering { input: config.shape_rendering },
        ),
        ({
            &&& resources_dir_spec(config.resources_dir, origin) is Ok
            &&& (config.background is Some ==> color_of(config.background.unwrap()@) is Some)
            &&& shape_rendering_spec(config.shape_rendering@) is Some
            &&& text_rendering_spec(config.text_rendering@) is None
        }) ==> r == Err::<ResolvedPlan, _>(
            ConfigError::UnknownTextRendering { input: config.text_rendering },
        ),
        ({
            &&& resources_dir_spec(config.resources_dir, origin) is Ok
            &&& (config.background is Some ==> color_of(config.background.unwrap()@) is Some)
            &&& shape_rendering_spec(config.shape_rendering@) is Some
            &&& text_rendering_spec(config.text_rendering@) is Some
            &&& image_rendering_spec(config.image_rendering@) is None
        }) ==> r == Err::<ResolvedPlan, _>(
            ConfigError::UnknownImageRendering { input: config.image_rendering },
        ),
        r is Ok ==> {
            let plan = r.unwrap();
            &&& plan.sizing == sizing_mode_spec(config.width, config.height, config.zoom)
            &&& (plan.default_width, plan.default_height) == default_size_spec(
                config.width,
                config.height,
            )
            &&& plan.resources_dir == resources_dir_spec(config.resources_dir, origin).unwrap()
            &&& (config.background is None ==> plan.background is None)
            &&& (config.background is Some ==> (plan.background matches Some(c) && (
            c.red,
            c.green,
            c.blue,
            c.alpha,
            ) == color_of(config.background.unwrap()@).unwrap()))
            &&& plan.dpi == config.dpi
            &&& (config.font_family is Some ==> plan.font_family == config.font_family.unwrap())
            &&& (config.font_family is None ==> plan.font_family@ == "Times New Roman"@)
            &&& plan.font_size == config.font_size
            &&& plan.languages == config.languages
            &&& plan.shape_rendering == shape_rendering_spec(config.shape_rendering@).unwrap()
            &&& plan.text_rendering == text_rendering_spec(config.text_rendering@).unwrap()
            &&& plan.image_rendering == image_rendering_spec(config.image_rendering@).unwrap()
            &&& plan.fonts.font_files == config.font_files
            &&& plan.fonts.font_dirs == config.font_dirs
            &&& plan.fonts.serif_family == config.serif_family
            &&& plan.fonts.sans_serif_family == config.sans_serif_family
            &&& plan.fonts.cursive_family == config.cursive_family
            &&& plan.fonts.fantasy_family == config.fantasy_family
            &&& plan.fonts.monospace_family == config.monospace_family
            &&& plan.fonts.skip_system_fonts == config.skip_system_fonts
        },
{
    let (sizing, default_size) = derive_sizing(config.width, config.height, config.zoom);

    let resources_dir: Option<String> = match config.resources_dir {
        Some(dir) => Some(dir),
        None => match origin {
            InputOrigin::FromFile { canonical_parent } => canonical_parent,
            InputOrigin::FromText | InputOrigin::NoInput => {
                return Err(ConfigError::MissingResourcesDir);
            },
        },
    };

    let background: Option<Rgba> = match config.background {
        Some(color_str) => match parse_color_str(&color_str) {
            Ok(c) => Some(Rgba { red: c.0, green: c.1, blue: c.2, alpha: c.3 }),
            Err(message) => {
                return Err(ConfigError::InvalidBackground { input: color_str, message });
            },
        },
        None => None,
    };

    let shape_rendering = match parse_shape_rendering(&config.shape_rendering) {
        Some(v) => v,
        None => {
            return Err(ConfigError::UnknownShapeRendering { input: config.shape_rendering });
        },
    };
    let text_rendering = match parse_text_rendering(&config.text_rendering) {
        Some(v) => v,
        None => {
            return Err(ConfigError::UnknownTextRendering { input: config.text_rendering });
        },
    };
    let image_rendering = match parse_image_rendering(&config.image_rendering) {
        Some(v) => v,
        None => {
            return Err(ConfigError::UnknownImageRendering { input: config.image_rendering });
        },
    };

    let font_family = match config.font_family {
        Some(name) => name,
        None => "Times New Roman".to_owned(),
    };

    Ok(
        ResolvedPlan {
            sizing,
            default_width: default_size.0,
            default_height: default_size.1,
            resources_dir,
            background,
            dpi: config.dpi,
            font_family,
            font_size: config.font_size,
            languages: config.languages,
            shape_rendering,
            text_rendering,
            image_rendering,
            fonts: FontProperties {
                font_files: config.font_files,
                font_dirs: config.font_dirs,
                serif_family: config.serif_family,
                sans_serif_family: config.sans_serif_family,
                cursive_family: config.cursive_family,
                fantasy_family: config.fantasy_family,
                monospace_family: config.monospace_family,
                skip_system_fonts: config.skip_system_fonts,
            },
        },
    )
}

/// Derives the sizing mode and the default document size from the optional
/// width, height and zoom of the raw configuration.
fn derive_sizing(width: Option<u32>, height: Option<u32>, zoom: Option<u32>) -> (r: (
    SizingMode,
    (u32, u32),
))
    ensures
        r.0 == sizing_mode_spec(width, height, zoom),
        r.1 == default_size_spec(width, height),
{
    let default_w = match width {
        Some(w) => if w == 0 {
            1
        } else {
            w
        },
        None => DEFAULT_DIMENSION,
    };
    let default_h = match height {
        Some(h) => if h == 0 {
            1
        } else {
            h
        },
        None => DEFAULT_DIMENSION,
    };
    let mode = match (width, height) {
        (Some(w), Some(h)) => SizingMode::Size(w, h),
        (Some(w), None) => SizingMode::Width(w),
        (None, Some(h)) => SizingMode::Height(h),
        (None, None) => match zoom {
            Some(z) => SizingMode::Zoom(z),
            None => SizingMode::Original,
        },
    };
    (mode, (default_w, default_h))
}

/// The selector string that names a shape-rendering method.
pub open spec fn shape_rendering_name_spec(m: ShapeRendering) -> Seq<char> {
    match m {
        ShapeRendering::OptimizeSpeed => "optimize_speed"@,
        ShapeRendering::CrispEdges => "crisp_edges"@,
        ShapeRendering::GeometricPrecision => "geometric_precision"@,
    }
}

/// The selector string that names a text-rendering method.
pub open spec fn text_rendering_name_spec(m: TextRendering) -> Seq<char> {
    match m {
        TextRendering::OptimizeSpeed => "optimize_speed"@,
        TextRendering::OptimizeLegibility => "optimize_legibility"@,
        TextRendering::GeometricPrecision => "geometric_precision"@,
    }
}

/// The selector string that names an image-rendering method.
pub open spec fn image_rendering_name_spec(m: ImageRendering) -> Seq<char> {
    match m {
        ImageRendering::OptimizeQuality => "optimize_quality"@,
        ImageRendering::OptimizeSpeed => "optimize_speed"@,
    }
}

/// Names a shape-rendering method as the host spells it.
pub fn shape_rendering_name(m: ShapeRendering) -> (r: String)
    ensures
        r@ == shape_rendering_name_spec(m),
{
    match m {
        ShapeRendering::OptimizeSpeed => "optimize_speed".to_owned(),
        ShapeRendering::CrispEdges => "crisp_edges".to_owned(),
        ShapeRendering::GeometricPrecision => "geometric_precision".to_owned(),
    }
}

/// Names a text-rendering method as the host spells it.
pub fn text_rendering_name(m: TextRendering) -> (r: String)
    ensures
        r@ == text_rendering_name_spec(m),
{
    match m {
        TextRendering::OptimizeSpeed => "optimize_speed".to_owned(),
        TextRendering::OptimizeLegibility => "optimize_legibility".to_owned(),
        TextRendering::GeometricPrecision => "geometric_precision".to_owned(),
    }
}

/// Names an image-rendering method as the host spells it.
pub fn image_rendering_name(m: ImageRendering) -> (r: String)
    ensures
        r@ == image_rendering_name_spec(m),
{
    match m {
        ImageRendering::OptimizeQuality => "optimize_quality".to_owned(),
        ImageRendering::OptimizeSpeed => "optimize_speed".to_owned(),
    }
}

/// Round-trip law: the name of any shape-rendering method parses back to
/// exactly that method.
pub proof fn lemma_shape_rendering_round_trip(m: ShapeRendering)
    ensures
        shape_rendering_spec(shape_rendering_name_spec(m)) == Some(m),
{
    reveal_strlit("optimize_speed");
    reveal_strlit("crisp_edges");
    reveal_strlit("geometric_precision");
    assert("optimize_speed"@.len() == 14);
    assert("crisp_edges"@.len() == 11);
    assert("geometric_precision"@.len() == 19);
    assert("geometric_precision"@[0] == 'g');
    assert("optimize_speed"@[0] == 'o');
}

/// Round-trip law: the name of any text-rendering method parses back to
/// exactly that method.
pub proof fn lemma_text_rendering_round_trip(m: TextRendering)
    ensures
        text_rendering_spec(text_rendering_name_spec(m)) == Some(m),
{
    reveal_strlit("optimize_speed");
    reveal_strlit("optimize_legibility");
    reveal_strlit("geometric_precision");
    assert("optimize_speed"@.len() == 14);
    assert("optimize_legibility"@.len() == 19);
    assert("geometric_precision"@.len() == 19);
    assert("optimize_legibility"@[0] == 'o');
    assert("geometric_precision"@[0] == 'g');
}

/// Round-trip law: the name of any image-rendering method parses back to
/// exactly that method.
pub proof fn lemma_image_rendering_round_trip(m: ImageRendering)
    ensures
        image_rendering_spec(image_rendering_name_spec(m)) == Some(m),
{
    reveal_strlit("optimize_quality");
    reveal_strlit("optimize_speed");
    assert("optimize_quality"@.len() == 16);
    assert("optimize_speed"@.len() == 14);
}

/// Copies a list of strings into an independent value.
fn clone_strings(v: &Vec<String>) -> (r: Vec<String>)
    ensures
        r@ == v@,
{
    let mut out: Vec<String> = Vec::new();
    let mut i: usize = 0;
    while i < v.len()
        invariant
            i <= v@.len(),
            out@ == v@.take(i as int),
        decreases v@.len() - i,
    {
        out.push(v[i].clone());
        proof {
            assert(out@ =~= v@.take(i + 1int));
        }
        i = i + 1;
    }
    proof {
        assert(v@.take(v@.len() as int) =~= v@);
    }
    out
}

/// Copies an optional string into an independent value.
fn clone_opt_string(v: &Option<String>) -> (r: Option<String>)
    ensures
        r == *v,
{
    match v {
        Some(s) => Some(s.clone()),
        None => None,
    }
}

impl FontProperties {
    /// The font settings of a resolved plan, as an independent value of
    /// their own, so that catalog construction can outlive borrows of the
    /// plan.
    pub fn from_parsed_options(plan: &ResolvedPlan) -> (r: FontProperties)
        ensures
            r.font_files@ == plan.fonts.font_files@,
            r.font_dirs@ == plan.fonts.font_dirs@,
            r.serif_family == plan.fonts.serif_family,
            r.sans_serif_family == plan.fonts.sans_serif_family,
            r.cursive_family == plan.fonts.cursive_family,
            r.fantasy_family == plan.fonts.fantasy_family,
            r.monospace_family == plan.fonts.monospace_family,
            r.skip_system_fonts == plan.fonts.skip_system_fonts,
    {
        FontProperties {
            font_files: clone_strings(&plan.fonts.font_files),
            font_dirs: clone_strings(&plan.fonts.font_dirs),
            serif_family: clone_opt_string(&plan.fonts.serif_family),
            sans_serif_family: clone_opt_string(&plan.fonts.sans_serif_family),
            cursive_family: clone_opt_string(&plan.fonts.cursive_family),
            fantasy_family: clone_opt_string(&plan.fonts.fantasy_family),
            monospace_family: clone_opt_string(&plan.fonts.monospace_family),
            skip_system_fonts: plan.fonts.skip_system_fonts,
        }
    }
}

} // verus!
