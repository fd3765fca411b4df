use vstd::arithmetic::div_mod::{
    lemma_fundamental_div_mod, lemma_fundamental_div_mod_converse, lemma_multiply_divide_lt,
};
use vstd::prelude::*;

use crate::image::{ImageModel, Images};
use crate::pixel::Pixels;

verus! {

/// How one output pixel of a geometric operation is obtained from the
/// source buffer. Every operation of the library that assembles a fresh
/// grid is described by one of these rules, applied at each output
/// coordinate.
#[derive(Clone, Copy)]
pub enum PixelRule {
    /// Mirror each row: output (x, y) reads source (width-1-x, y).
    FlipH,
    /// Reverse the row order and mirror each row (a half-turn).
    FlipV,
    /// Square buffers only: output (x, y) reads source (y, width-1-x).
    RotateLeft,
    /// Square buffers only: output (x, y) reads source (y, x).
    RotateRight,
    /// Shift by the window's top-left corner.
    Crop(u32, u32),
    /// Nearest-neighbour resampling to the carried target dimensions.
    Nearest(u32, u32),
    /// Bilinear resampling to the carried target dimensions.
    Bilinear(u32, u32),
    /// The smoothing engine at window center (x + 1, y + 1).
    Smooth(crate::blur::SmoothingKernelChoices),
    /// The sharpening convolution at window center (x + 1, y + 1).
    Sharp(crate::sharpen::SharpeningKernelChoices),
    /// The edge-detecting convolution at window center (x + 1, y + 1).
    Edge(crate::edge_detection::EdgeDetectingKernelChoices),
    /// Per-pixel grayscale reduction.
    Gray(crate::gray_scale::GrayScaleAlgorithms),
    /// Morphological min (erosion, when the flag is set) or max
    /// (dilation) over the structuring element; the outer ring is left
    /// at the default pixel.
    Morph(bool, crate::morphological::MorphologicalKernelChoices),
}

/// The source pixel (or derived pixel) that `rule` yields at output
/// coordinate (x, y), reading from source model `m`.
pub open spec fn rule_pixel(m: ImageModel, rule: PixelRule, x: int, y: int) -> Pixels {
    match rule {
        PixelRule::FlipH => m.pix(m.width - 1 - x, y),
        PixelRule::FlipV => m.pix(m.width - 1 - x, m.height - 1 - y),
        PixelRule::RotateLeft => m.pix(y, m.width - 1 - x),
        PixelRule::RotateRight => m.pix(y, x),
        PixelRule::Crop(tx, ty) => m.pix(tx + x, ty + y),
        PixelRule::Nearest(nw, nh) => m.pix((x * m.width) / (nw as int), (y * m.height) / (nh as int)),
        PixelRule::Bilinear(nw, nh) => crate::resize::bilinear_pixel(m, nw as int, nh as int, x, y),
        PixelRule::Smooth(choice) => crate::blur::blur_pixel(m, choice, x + 1, y + 1),
        PixelRule::Sharp(choice) => crate::sharpen::sharpen_pixel(m, choice, x + 1, y + 1),
        PixelRule::Edge(choice) => crate::edge_detection::edge_pixel(m, choice, x + 1, y + 1),
        PixelRule::Gray(algo) => crate::gray_scale::gray_pixel(m.pix(x, y), algo),
        PixelRule::Morph(erode, choice) => if crate::morphological::morph_interior(m, x, y) {
            crate::morphological::morph_pixel(m, choice, erode, x, y)
        } else {
            Pixels { red: 0, green: 0, blue: 0, alpha: 255 }
        },
    }
}

/// What must hold of the output coordinate (x, y) for `rule` to read
/// inside the source buffer.
pub open spec fn pixel_pre(m: ImageModel, rule: PixelRule, x: int, y: int) -> bool {
    0 <= x && 0 <= y && match rule {
        PixelRule::FlipH => x < m.width && y < m.height,
        PixelRule::FlipV => x < m.width && y < m.height,
        PixelRule::RotateLeft => m.width == m.height && x < m.width && y < m.height,
        PixelRule::RotateRight => m.width == m.height && x < m.width && y < m.height,
        PixelRule::Crop(tx, ty) => tx + x < m.width && ty + y < m.height,
        PixelRule::Nearest(nw, nh) => x < nw && y < nh && 0 < m.width && 0 < m.height,
        PixelRule::Bilinear(nw, nh) => x < nw && y < nh && 0 < m.width && 0 < m.height,
        PixelRule::Smooth(_) => x + 2 < m.width && y + 2 < m.height,
        PixelRule::Sharp(_) => x + 2 < m.width && y + 2 < m.height,
        PixelRule::Edge(_) => x + 2 < m.width && y + 2 < m.height,
        PixelRule::Gray(_) => x < m.width && y < m.height,
        PixelRule::Morph(_, _) => x < m.width && y < m.height,
    }
}

/// The buffer that applying `rule` over a w-by-h output grid produces.
pub open spec fn grid_model(m: ImageModel, w: int, h: int, rule: PixelRule) -> ImageModel {
    ImageModel {
        width: w,
        height: h,
        channels: m.channels,
        data: Seq::new((w * h) as nat, |i: int| rule_pixel(m, rule, i % w, i / w)),
    }
}

/// Every assembled grid has exactly the stated dimensions and one pixel
/// per cell, so a windowed filter output is two pixels shorter on each
/// axis, a morphological output keeps its input's dimensions, and a crop
/// output has the window's dimensions.
pub proof fn lemma_grid_model_dimensions(m: ImageModel, w: int, h: int, rule: PixelRule)
    requires
        0 <= w,
        0 <= h,
    ensures
        grid_model(m, w, h, rule).width == w,
        grid_model(m, w, h, rule).height == h,
        grid_model(m, w, h, rule).wf(),
{
    assert(0 <= w * h) by (nonlinear_arith)
        requires
            0 <= w,
            0 <= h,
    ;
}

/// Row-major index facts: the index of (x, y) in a w-wide grid splits
/// back into x and y, and lies below the end of row y.
pub proof fn lemma_rm_index(x: int, y: int, w: int)
    requires
        0 <= x < w,
        0 <= y,
    ensures
        (y * w + x) / w == y,
        (y * w + x) % w == x,
        y * w + x < (y + 1) * w,
{
    lemma_fundamental_div_mod_converse(y * w + x, w, y, x);
    assert((y + 1) * w == y * w + w) by (nonlinear_arith);
}

/// Split a row-major position of a w-by-h grid into its coordinates.
pub proof fn lemma_split_index(i: int, w: int, h: int)
    requires
        0 <= i < w * h,
        0 <= w,
        0 <= h,
    ensures
        0 < w,
        0 <= i % w < w,
        0 <= i / w < h,
        (i / w) * w + (i % w) == i,
{
    assert(0 < w && 0 < h) by (nonlinear_arith)
        requires
            0 <= w,
            0 <= h,
            0 < w * h,
    ;
    vstd::arithmetic::div_mod::lemma_mod_pos_bound(i, w);
    lemma_multiply_divide_lt(i, w, h);
    lemma_fundamental_div_mod(i, w);
    vstd::arithmetic::div_mod::lemma_div_pos_is_pos(i, w);
}

/// A row-major index within the grid bounds stays below the grid size.
pub proof fn lemma_rm_bound(x: int, y: int, w: int, h: int)
    requires
        0 <= x < w,
        0 <= y < h,
    ensures
        y * w + x < w * h,
{
    assert(y * w + x < w * h) by (nonlinear_arith)
        requires
            0 <= x < w,
            0 <= y < h,
    ;
}

/// Bounds-checked direct read, for loops that stay inside the buffer.
pub(crate) fn read_at(img: &Images, x: u32, y: u32) -> (p: Pixels)
    requires
        img.well_formed(),
        x < img.width,
        y < img.height,
    ensures
        p == img@.pix(x as int, y as int),
{
    let loc: u64 = crate::image::row_major_index(x, y, img.width);
    let n: usize = img.image_data.len();
    proof {
        lemma_rm_bound(x as int, y as int, img.width as int, img.height as int);
        assert(loc < n as u64);
    }
    img.image_data[loc as usize]
}

/// One output pixel of `rule` at output coordinate (x, y).
fn compute_pixel(img: &Images, x: u32, y: u32, rule: PixelRule) -> (p: Pixels)
    requires
        img.well_formed(),
        pixel_pre(img@, rule, x as int, y as int),
    ensures
        p == rule_pixel(img@, rule, x as int, y as int),
{
    match rule {
        PixelRule::FlipH => read_at(img, img.width - 1 - x, y),
        PixelRule::FlipV => read_at(img, img.width - 1 - x, img.height - 1 - y),
        PixelRule::RotateLeft => read_at(img, y, img.width - 1 - x),
        PixelRule::RotateRight => read_at(img, y, x),
        PixelRule::Crop(tx, ty) => read_at(img, tx + x, ty + y),
        PixelRule::Nearest(nw, nh) => {
            let xw: u64 = crate::image::row_major_index(0, x, img.width);
            let yh: u64 = crate::image::row_major_index(0, y, img.height);
            let sx: u64 = xw / nw as u64;
            let sy: u64 = yh / nh as u64;
            proof {
                lemma_nearest_source_in_range(x as int, img.width as int, nw as int);
                lemma_nearest_source_in_range(y as int, img.height as int, nh as int);
            }
            read_at(img, sx as u32, sy as u32)
        },
        PixelRule::Bilinear(nw, nh) => crate::resize::bilinear_pixel_at(img, x, y, nw, nh),
        PixelRule::Smooth(choice) => crate::blur::blur_pixel_at(img, x + 1, y + 1, choice),
        PixelRule::Sharp(choice) => crate::sharpen::sharpen_pixel_at(img, x + 1, y + 1, choice),
        PixelRule::Edge(choice) => crate::edge_detection::edge_pixel_at(img, x + 1, y + 1, choice),
        PixelRule::Gray(algo) => {
            let p = read_at(img, x, y);
            let v = crate::gray_scale::select_grayscale_algorithm(&algo, &p);
            Pixels { red: v, green: v, blue: v, alpha: p.alpha }
        },
        PixelRule::Morph(erode, choice) => crate::morphological::morph_pixel_at(
            img,
            x,
            y,
            erode,
            choice,
        ),
    }
}

/// The nearest-neighbour source coordinate floor(x * w / n) lies inside
/// the source extent w whenever x lies inside the target extent n.
pub(crate) proof fn lemma_nearest_source_in_range(x: int, w: int, n: int)
    requires
        0 <= x < n,
        0 < w,
    ensures
        0 <= (x * w) / n < w,
{
    assert(x * w < n * w) by (nonlinear_arith)
        requires
            x < n,
            0 < w,
    ;
    lemma_multiply_divide_lt(x * w, n, w);
    assert(0 <= x * w) by (nonlinear_arith)
        requires
            0 <= x,
            0 < w,
    ;
    assert((x * w) / n >= 0) by {
        vstd::arithmetic::div_mod::lemma_div_is_ordered(0, x * w, n);
    }
}

/// Assemble a w-by-h output grid by applying `rule` at every output
/// coordinate, in row-major order.
pub(crate) fn build_grid(img: &Images, w: u32, h: u32, rule: PixelRule) -> (r: Vec<Pixels>)
    requires
        img.well_formed(),
        forall|x: int, y: int|
            0 <= x < w && 0 <= y < h ==> pixel_pre(img@, rule, x, y),
    ensures
        r@ == grid_model(img@, w as int, h as int, rule).data,
{
    let ghost target = grid_model(img@, w as int, h as int, rule).data;
    let mut data: Vec<Pixels> = Vec::new();
    let mut y: u32 = 0;
    while y < h
        invariant
            img.well_formed(),
            forall|xx: int, yy: int|
                0 <= xx < w && 0 <= yy < h ==> pixel_pre(img@, rule, xx, yy),
            0 <= y <= h,
            data@.len() == y * w,
            forall|i: int|
                0 <= i < data@.len() ==> data@[i] == rule_pixel(img@, rule, i % (w as int), i / (w as int)),
        decreases h - y,
    {
        let mut x: u32 = 0;
        while x < w
            invariant
                img.well_formed(),
                forall|xx: int, yy: int|
                    0 <= xx < w && 0 <= yy < h ==> pixel_pre(img@, rule, xx, yy),
                0 <= y < h,
                0 <= x <= w,
                data@.len() == y * w + x,
                forall|i: int|
                    0 <= i < data@.len() ==> data@[i] == rule_pixel(img@, rule, i % (w as int), i / (w as int)),
            decreases w - x,
        {
            let p = compute_pixel(img, x, y, rule);
            proof {
                lemma_rm_index(x as int, y as int, w as int);
            }
            data.push(p);
            x = x + 1;
        }
        proof {
            assert((y + 1) * (w as int) == y * w + w) by (nonlinear_arith);
        }
        y = y + 1;
    }
    proof {
        assert(data@.len() == (w as int) * (h as int)) by (nonlinear_arith)
            requires
                data@.len() == (h as int) * (w as int),
        ;
        assert forall|i: int| 0 <= i < target.len() implies data@[i] == target[i] by {
            assert(target[i] == rule_pixel(img@, rule, i % (w as int), i / (w as int)));
        }
        assert(data@ =~= target);
    }
    data
}

} // verus!
