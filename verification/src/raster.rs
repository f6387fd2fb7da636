//! The raster stage: plans the output geometry from the sizing mode and the
//! document's intrinsic size, allocates the pixel buffer, optionally fills
//! the background, rasterizes the tree and encodes the pixels.

use vstd::prelude::*;
use crate::errors::RenderError;
use crate::fit::{
    SizingMode, ScaleRatio, fit_size_spec, fit_transform_spec, fit_to_size, fit_to_transform,
    lemma_fit_size_positive,
};
use crate::plan::Rgba;

verus! {

#[verifier::external_type_specification]
#[verifier::external_body]
pub struct ExPixmap(tiny_skia::Pixmap);

#[verifier::external_type_specification]
#[verifier::external_body]
pub struct ExTransform(tiny_skia::Transform);

/// Relies on tiny_skia::Pixmap::new: allocates a zeroed pixel buffer, or
/// nothing when the dimensions are zero or the buffer size overflows.
#[verifier::external_body]
fn pixmap_new(width: u32, height: u32) -> (r: Option<tiny_skia::Pixmap>)
{
    tiny_skia::Pixmap::new(width, height)
}

/// Relies on tiny_skia::Pixmap::fill and tiny_skia::Color::from_rgba8: fills
/// the whole buffer with one color.
#[verifier::external_body]
fn pixmap_fill(pixmap: &mut tiny_skia::Pixmap, color: Rgba)
{
    pixmap.fill(tiny_skia::Color::from_rgba8(color.red, color.green, color.blue, color.alpha));
}

/// Relies on resvg::render: rasterizes the tree onto the buffer under the
/// given transform.
#[verifier::external_body]
fn render_onto(tree: &usvg::Tree, transform: tiny_skia::Transform, pixmap: &mut tiny_skia::Pixmap)
{
    resvg::render(tree, transform, &mut pixmap.as_mut());
}

/// Relies on tiny_skia::Pixmap::encode_png: encodes the buffer as PNG bytes.
#[verifier::external_body]
fn pixmap_encode_png(pixmap: &tiny_skia::Pixmap) -> (r: Result<Vec<u8>, String>)
{
    pixmap.encode_png().map_err(|e| e.to_string())
}

/// The planned output geometry of one rendering: the target pixel size and
/// the per-axis scale of the transform. A value of this type only comes out
/// of geometry planning, so its target size is never zero.
#[derive(Clone, Copy, Debug)]
pub struct RenderGeometry {
    width: u32,
    height: u32,
    scale: ScaleRatio,
}

impl RenderGeometry {
    /// The planned target width.
    pub closed spec fn target_width(self) -> u32 {
        self.width
    }

    /// The planned target height.
    pub closed spec fn target_height(self) -> u32 {
        self.height
    }

    /// The planned per-axis scale.
    pub closed spec fn target_scale(self) -> ScaleRatio {
        self.scale
    }

    /// A planned geometry is well formed when its target size is positive.
    pub open spec fn wf(self) -> bool {
        self.target_width() >= 1 && self.target_height() >= 1
    }

    /// The planned target width.
    pub fn width(&self) -> (r: u32)
        ensures
            r == self.target_width(),
    {
        self.width
    }

    /// The planned target height.
    pub fn height(&self) -> (r: u32)
        ensures
            r == self.target_height(),
    {
        self.height
    }

    /// The planned per-axis scale.
    pub fn scale(&self) -> (r: ScaleRatio)
        ensures
            r == self.target_scale(),
    {
        self.scale
    }
}

/// Plans the output geometry for a sizing mode against a source size: the
/// fitted target size and the target-over-source scale. Fails with the fatal
/// zero-target error, and with nothing else, exactly when the mode yields a
/// zero width or height; no buffer is allocated in that case, since only a
/// planned geometry can reach the rasterizer.
pub fn plan_target(mode: SizingMode, source_w: u32, source_h: u32) -> (r: Result<
    RenderGeometry,
    RenderError,
>)
    requires
        source_w >= 1,
        source_h >= 1,
    ensures
        r is Ok <==> fit_size_spec(mode, source_w, source_h) is Some,
        fit_size_spec(mode, source_w, source_h) is None ==> r == Err::<RenderGeometry, _>(
            RenderError::ZeroTarget,
        ),
        r is Ok ==> {
            let g = r.unwrap();
            &&& (g.target_width(), g.target_height()) == fit_size_spec(
                mode,
                source_w,
                source_h,
            ).unwrap()
            &&& g.target_scale() == fit_transform_spec(mode, source_w, source_h)
            &&& g.wf()
        },
{
    match fit_to_size(mode, source_w, source_h) {
        None => Err(RenderError::ZeroTarget),
        Some(t) => {
            proof {
                lemma_fit_size_positive(mode, source_w, source_h);
            }
            let scale = fit_to_transform(mode, source_w, source_h);
            Ok(RenderGeometry { width: t.0, height: t.1, scale })
        },
    }
}

/// Rasterizes a prepared document tree into PNG bytes: allocates the pixel
/// buffer of the planned size, pre-fills it with the background color when
/// one was resolved, renders the tree under the given transform, and encodes
/// the pixels. Fails only when the buffer cannot be allocated or the pixels
/// cannot be encoded.
pub fn rasterize_tree(
    tree: &usvg::Tree,
    geometry: &RenderGeometry,
    background: Option<Rgba>,
    transform: tiny_skia::Transform,
) -> (r: Result<Vec<u8>, RenderError>)
    requires
        geometry.wf(),
    ensures
        r is Err ==> (r.unwrap_err() == RenderError::BufferAlloc || r.unwrap_err() matches
            RenderError::Encode { .. }),
{
    let mut pixmap = match pixmap_new(geometry.width(), geometry.height()) {
        Some(p) => p,
        None => {
            return Err(RenderError::BufferAlloc);
        },
    };
    match background {
        Some(color) => pixmap_fill(&mut pixmap, color),
        None => {},
    }
    render_onto(tree, transform, &mut pixmap);
    match pixmap_encode_png(&pixmap) {
        Ok(bytes) => Ok(bytes),
        Err(message) => Err(RenderError::Encode { message }),
    }
}

} // verus!
