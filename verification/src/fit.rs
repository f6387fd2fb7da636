//! The fit calculator: turns a sizing mode and a source size into the output
//! pixel size and the per-axis scale of the rendering transform.
//!
//! All arithmetic is exact integer arithmetic. A zoom factor is carried in
//! thousandths, so a factor of one is `ZOOM_ONE`.

use vstd::prelude::*;

verus! {

/// A zoom factor of exactly one, in thousandths.
pub const ZOOM_ONE: u32 = 1000;

/// How a source document's intrinsic size is turned into an output pixel size.
#[derive(Clone, Copy, PartialEq, Eq, Structural, Debug)]
pub enum SizingMode {
    /// Keep the source size.
    Original,
    /// Scale uniformly so that the output width equals the given value.
    Width(u32),
    /// Scale uniformly so that the output height equals the given value.
    Height(u32),
    /// Scale to exactly the given width and height; the axes scale
    /// independently of each other.
    Size(u32, u32),
    /// Multiply both dimensions by the given factor, in thousandths.
    Zoom(u32),
}

/// The per-axis scale of the rendering transform, as exact ratios:
/// the horizontal scale is `x_num / x_den`, the vertical one `y_num / y_den`.
#[derive(Clone, Copy, PartialEq, Eq, Structural, Debug)]
pub struct ScaleRatio {
    pub x_num: u32,
    pub x_den: u32,
    pub y_num: u32,
    pub y_den: u32,
}

/// The quotient `a / b` rounded up. Meaningful for `b > 0`.
pub open spec fn ceil_div(a: int, b: int) -> int {
    (a + b - 1) / b
}

/// The quotient `a / b` rounded to the nearest integer, halves up.
/// Meaningful for `b > 0`.
pub open spec fn round_div(a: int, b: int) -> int {
    (a + b / 2) / b
}

/// Clamps a nonnegative value into the `u32` range.
pub open spec fn sat_u32(v: int) -> u32 {
    if v > u32::MAX { u32::MAX as u32 } else { v as u32 }
}

/// The height that keeps the source aspect ratio once the width is fixed:
/// `w * sh / sw`, rounded up and clamped to the `u32` range.
pub open spec fn uniform_other_dim(fixed: u32, other_src: u32, fixed_src: u32) -> u32 {
    sat_u32(ceil_div(fixed * other_src, fixed_src as int))
}

/// One dimension scaled by a zoom factor in thousandths: `dim * z / 1000`,
/// rounded to the nearest integer and clamped to the `u32` range.
pub open spec fn zoomed_dim(dim: u32, z: u32) -> u32 {
    sat_u32(round_div(dim * z, ZOOM_ONE as int))
}

/// The output pixel size for a sizing mode applied to a source size, or
/// `None` when the mode yields a zero width or height, which makes fitting
/// impossible. Meaningful for a positive source size.
pub open spec fn fit_size_spec(mode: SizingMode, sw: u32, sh: u32) -> Option<(u32, u32)> {
    match mode {
        SizingMode::Original => Some((sw, sh)),
        SizingMode::Width(w) => {
            if w == 0 {
                None
            } else {
                Some((w, uniform_other_dim(w, sh, sw)))
            }
        },
        SizingMode::Height(h) => {
            if h == 0 {
                None
            } else {
                Some((uniform_other_dim(h, sw, sh), h))
            }
        },
        SizingMode::Size(w, h) => {
            if w == 0 || h == 0 {
                None
            } else {
                Some((w, h))
            }
        },
        SizingMode::Zoom(z) => {
            let tw = zoomed_dim(sw, z);
            let th = zoomed_dim(sh, z);
            if tw == 0 || th == 0 {
                None
            } else {
                Some((tw, th))
            }
        },
    }
}

/// The per-axis scale for a sizing mode applied to a source size: the ratio
/// of the target to the source along each axis, or the identity when fitting
/// is impossible.
pub open spec fn fit_transform_spec(mode: SizingMode, sw: u32, sh: u32) -> ScaleRatio {
    match fit_size_spec(mode, sw, sh) {
        None => ScaleRatio { x_num: 1, x_den: 1, y_num: 1, y_den: 1 },
        Some(t) => ScaleRatio { x_num: t.0, x_den: sw, y_num: t.1, y_den: sh },
    }
}

/// Divides `a` by `b`, rounding up and clamping the quotient to `u32`.
fn ceil_div_sat(a: u64, b: u64) -> (r: u32)
    requires
        b >= 1,
        a + b - 1 <= u64::MAX,
    ensures
        r == sat_u32(ceil_div(a as int, b as int)),
{
    let q = (a + (b - 1)) / b;
    if q > u32::MAX as u64 {
        u32::MAX
    } else {
        q as u32
    }
}

/// Divides `a` by `b`, rounding to the nearest integer (halves up) and
/// clamping the quotient to `u32`.
fn round_div_sat(a: u64, b: u64) -> (r: u32)
    requires
        b >= 1,
        a + b / 2 <= u64::MAX,
    ensures
        r == sat_u32(round_div(a as int, b as int)),
{
    let q = (a + b / 2) / b;
    if q > u32::MAX as u64 {
        u32::MAX
    } else {
        q as u32
    }
}

/// The output pixel size for `mode` applied to a source of `source_w` by
/// `source_h` pixels, or `None` when the mode yields a zero width or height.
/// `None` must be treated by callers as a fatal zero-target condition.
pub fn fit_to_size(mode: SizingMode, source_w: u32, source_h: u32) -> (r: Option<(u32, u32)>)
    requires
        source_w >= 1,
        source_h >= 1,
    ensures
        r == fit_size_spec(mode, source_w, source_h),
{
    match mode {
        SizingMode::Original => Some((source_w, source_h)),
        SizingMode::Width(w) => {
            if w == 0 {
                None
            } else {
                proof {
                    lemma_dim_product_bound(w, source_h);
                }
                let th = ceil_div_sat(w as u64 * source_h as u64, source_w as u64);
                Some((w, th))
            }
        },
        SizingMode::Height(h) => {
            if h == 0 {
                None
            } else {
                proof {
                    lemma_dim_product_bound(h, source_w);
                }
                let tw = ceil_div_sat(h as u64 * source_w as u64, source_h as u64);
                Some((tw, h))
            }
        },
        SizingMode::Size(w, h) => {
            if w == 0 || h == 0 {
                None
            } else {
                Some((w, h))
            }
        },
        SizingMode::Zoom(z) => {
            proof {
                lemma_dim_product_bound(source_w, z);
                lemma_dim_product_bound(source_h, z);
            }
            let tw = round_div_sat(source_w as u64 * z as u64, ZOOM_ONE as u64);
            let th = round_div_sat(source_h as u64 * z as u64, ZOOM_ONE as u64);
            if tw == 0 || th == 0 {
                None
            } else {
                Some((tw, th))
            }
        },
    }
}

/// The per-axis scale for `mode` applied to a source of `source_w` by
/// `source_h` pixels: the ratio of the target to the source along each axis,
/// or the identity ratio when fitting is impossible.
pub fn fit_to_transform(mode: SizingMode, source_w: u32, source_h: u32) -> (r: ScaleRatio)
    requires
        source_w >= 1,
        source_h >= 1,
    ensures
        r == fit_transform_spec(mode, source_w, source_h),
{
    match fit_to_size(mode, source_w, source_h) {
        None => ScaleRatio { x_num: 1, x_den: 1, y_num: 1, y_den: 1 },
        Some(t) => ScaleRatio { x_num: t.0, x_den: source_w, y_num: t.1, y_den: source_h },
    }
}

/// The product of two `u32` values stays below `u64::MAX` with room for one
/// more `u32` summand.
proof fn lemma_dim_product_bound(a: u32, b: u32)
    ensures
        a * b + u32::MAX <= u64::MAX,
{
    assert(a * b <= (u32::MAX as int) * (u32::MAX as int)) by (nonlinear_arith)
        requires
            a <= u32::MAX,
            b <= u32::MAX,
    ;
}

/// A fitted size is never zero in either dimension: whenever a sizing mode
/// yields a target at all, both of its dimensions are at least one.
pub proof fn lemma_fit_size_positive(mode: SizingMode, sw: u32, sh: u32)
    requires
        sw >= 1,
        sh >= 1,
    ensures
        fit_size_spec(mode, sw, sh) is Some ==> {
            let t = fit_size_spec(mode, sw, sh).unwrap();
            t.0 >= 1 && t.1 >= 1
        },
{
    match mode {
        SizingMode::Width(w) => {
            if w != 0 {
                lemma_uniform_other_dim_positive(w, sh, sw);
            }
        },
        SizingMode::Height(h) => {
            if h != 0 {
                lemma_uniform_other_dim_positive(h, sw, sh);
            }
        },
        _ => {},
    }
}

/// Scaling a positive dimension uniformly against a positive source always
/// rounds up to at least one pixel.
proof fn lemma_uniform_other_dim_positive(fixed: u32, other_src: u32, fixed_src: u32)
    requires
        fixed >= 1,
        other_src >= 1,
        fixed_src >= 1,
    ensures
        uniform_other_dim(fixed, other_src, fixed_src) >= 1,
{
    assert(fixed * other_src >= 1) by (nonlinear_arith)
        requires
            fixed >= 1,
            other_src >= 1,
    ;
    assert(ceil_div(fixed * other_src, fixed_src as int) >= 1) by (nonlinear_arith)
        requires
            fixed * other_src >= 1,
            fixed_src >= 1,
    ;
}

/// Exact-box law: for any positive pair `(w, h)`, the `Size(w, h)` mode
/// yields exactly `(w, h)`, whatever the source aspect ratio is.
pub proof fn lemma_size_mode_exact(w: u32, h: u32, sw: u32, sh: u32)
    requires
        w >= 1,
        h >= 1,
        sw >= 1,
        sh >= 1,
    ensures
        fit_size_spec(SizingMode::Size(w, h), sw, sh) == Some((w, h)),
{
}

/// Aspect-ratio law for the width mode: the output is `(w, th)` where `th`
/// is the least height with `th / w >= sh / sw`, so the output aspect ratio
/// equals the source one up to less than one pixel of rounding.
pub proof fn lemma_width_mode_aspect(w: u32, sw: u32, sh: u32)
    requires
        w >= 1,
        sw >= 1,
        sh >= 1,
        ceil_div(w * sh, sw as int) <= u32::MAX,
    ensures
        fit_size_spec(SizingMode::Width(w), sw, sh) is Some,
        ({
            let th = fit_size_spec(SizingMode::Width(w), sw, sh).unwrap().1;
            &&& fit_size_spec(SizingMode::Width(w), sw, sh).unwrap().0 == w
            &&& th * sw >= w * sh
            &&& (th - 1) * sw < w * sh
        }),
{
    assert(w * sh >= 1) by (nonlinear_arith)
        requires
            w >= 1,
            sh >= 1,
    ;
    lemma_ceil_div_bounds(w * sh, sw as int);
}

/// Aspect-ratio law for the height mode, symmetric to the width one.
pub proof fn lemma_height_mode_aspect(h: u32, sw: u32, sh: u32)
    requires
        h >= 1,
        sw >= 1,
        sh >= 1,
        ceil_div(h * sw, sh as int) <= u32::MAX,
    ensures
        fit_size_spec(SizingMode::Height(h), sw, sh) is Some,
        ({
            let tw = fit_size_spec(SizingMode::Height(h), sw, sh).unwrap().0;
            &&& fit_size_spec(SizingMode::Height(h), sw, sh).unwrap().1 == h
            &&& tw * sh >= h * sw
            &&& (tw - 1) * sh < h * sw
        }),
{
    assert(h * sw >= 1) by (nonlinear_arith)
        requires
            h >= 1,
            sw >= 1,
    ;
    lemma_ceil_div_bounds(h * sw, sh as int);
}

/// `ceil_div(a, b)` is the least integer whose product with `b` reaches `a`.
proof fn lemma_ceil_div_bounds(a: int, b: int)
    requires
        a >= 1,
        b >= 1,
    ensures
        ceil_div(a, b) * b >= a,
        (ceil_div(a, b) - 1) * b < a,
        ceil_div(a, b) >= 1,
{
    assert(ceil_div(a, b) * b >= a && (ceil_div(a, b) - 1) * b < a && ceil_div(a, b) >= 1)
        by (nonlinear_arith)
        requires
            a >= 1,
            b >= 1,
            ceil_div(a, b) == (a + b - 1) / b,
    ;
}

/// Unit-zoom law: a zoom factor of exactly one behaves like keeping the
/// original size, for the target size and for the transform alike.
pub proof fn lemma_zoom_unit(sw: u32, sh: u32)
    requires
        sw >= 1,
        sh >= 1,
    ensures
        fit_size_spec(SizingMode::Zoom(ZOOM_ONE), sw, sh) == fit_size_spec(
            SizingMode::Original,
            sw,
            sh,
        ),
        fit_transform_spec(SizingMode::Zoom(ZOOM_ONE), sw, sh) == fit_transform_spec(
            SizingMode::Original,
            sw,
            sh,
        ),
{
    lemma_zoom_unit_dim(sw);
    lemma_zoom_unit_dim(sh);
}

/// Scaling one dimension by a unit zoom factor gives the dimension back.
proof fn lemma_zoom_unit_dim(dim: u32)
    ensures
        zoomed_dim(dim, ZOOM_ONE) == dim,
{
    assert((dim * 1000 + 500) / 1000 == dim) by (nonlinear_arith);
}

} // verus!
