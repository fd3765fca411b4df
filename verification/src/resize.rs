use vstd::arithmetic::div_mod::{
    lemma_div_of0, lemma_fundamental_div_mod_converse, lemma_mod_pos_bound,
    lemma_multiply_divide_lt,
};
use vstd::prelude::*;

use crate::grid::{
    build_grid, grid_model, lemma_nearest_source_in_range, lemma_split_index, read_at, PixelRule,
};
use crate::image::{ImageError, ImageModel, Images};
use crate::pixel::{chan, sat_add, sat_sub, Pixels};

verus! {

/// Selects a resampling algorithm with its target dimensions.
#[derive(Clone, Copy)]
pub enum ResizingOperations {
    NearestNeighbours(u32, u32),
    BilinearInterpolation(u32, u32),
}

/// A resize is valid when the target is non-empty and there is a source
/// pixel to sample.
pub open spec fn resize_ok(m: ImageModel, nw: int, nh: int) -> bool {
    &&& 0 < nw
    &&& 0 < nh
    &&& 0 < m.width
    &&& 0 < m.height
}

/// The buffer nearest-neighbour resampling produces: output (x, y) is
/// source (floor(x * width / nw), floor(y * height / nh)).
pub open spec fn nearest_model(m: ImageModel, nw: u32, nh: u32) -> ImageModel {
    grid_model(m, nw as int, nh as int, PixelRule::Nearest(nw, nh))
}

/// The buffer bilinear resampling produces.
pub open spec fn bilinear_model(m: ImageModel, nw: u32, nh: u32) -> ImageModel {
    grid_model(m, nw as int, nh as int, PixelRule::Bilinear(nw, nh))
}

/// The truncated fraction `v * r / d` of a channel value.
pub open spec fn frac_mul(v: int, r: int, d: int) -> int {
    (v * r) / d
}

/// One linear blend step with saturating channel arithmetic:
/// `a + (b - a) * (r / d)`, each operation clamped to the channel range
/// and the fraction truncated.
pub open spec fn blend(a: int, b: int, r: int, d: int) -> int {
    sat_add(a, frac_mul(sat_sub(b, a), r, d))
}

/// The bilinear output pixel at target coordinate (x, y): the source
/// coordinate is split into an integer corner and a remainder fraction,
/// the four surrounding corners are blended per channel, horizontally
/// then vertically.
pub open spec fn bilinear_pixel(m: ImageModel, nw: int, nh: int, x: int, y: int) -> Pixels {
    let w = m.width;
    let h = m.height;
    let x1 = (x * w) / nw;
    let rx = (x * w) % nw;
    let y1 = (y * h) / nh;
    let ry = (y * h) % nh;
    let x2 = if x1 + 1 < w {
        x1 + 1
    } else {
        w - 1
    };
    let y2 = if y1 + 1 < h {
        y1 + 1
    } else {
        h - 1
    };
    let tl = m.pix(x1, y1);
    let tr = m.pix(x2, y1);
    let bl = m.pix(x1, y2);
    let br = m.pix(x2, y2);
    Pixels {
        red: blend(
            blend(chan(tl, 0), chan(tr, 0), rx, nw),
            blend(chan(bl, 0), chan(br, 0), rx, nw),
            ry,
            nh,
        ) as u8,
        green: blend(
            blend(chan(tl, 1), chan(tr, 1), rx, nw),
            blend(chan(bl, 1), chan(br, 1), rx, nw),
            ry,
            nh,
        ) as u8,
        blue: blend(
            blend(chan(tl, 2), chan(tr, 2), rx, nw),
            blend(chan(bl, 2), chan(br, 2), rx, nw),
            ry,
            nh,
        ) as u8,
        alpha: blend(
            blend(chan(tl, 3), chan(tr, 3), rx, nw),
            blend(chan(bl, 3), chan(br, 3), rx, nw),
            ry,
            nh,
        ) as u8,
    }
}

/// One saturating blend of two channel values by the fraction `r / d`.
fn blend_channel(a: u8, b: u8, r: u64, d: u64) -> (res: u8)
    requires
        0 < d <= u32::MAX,
        r < d,
    ensures
        res as int == blend(a as int, b as int, r as int, d as int),
        0 <= blend(a as int, b as int, r as int, d as int) <= 255,
{
    let diff: u8 = if b >= a {
        b - a
    } else {
        0
    };
    proof {
        assert((diff as int) * (r as int) <= 255 * (u32::MAX as int)) by (nonlinear_arith)
            requires
                0 <= diff <= 255,
                0 <= r <= u32::MAX,
        ;
        assert((diff as int) * (r as int) < (d as int) * 256) by (nonlinear_arith)
            requires
                0 <= diff <= 255,
                0 <= r < d,
        ;
        lemma_multiply_divide_lt((diff as int) * (r as int), d as int, 256);
        assert(0 <= (diff as int) * (r as int)) by (nonlinear_arith)
            requires
                0 <= diff,
                0 <= r,
        ;
        vstd::arithmetic::div_mod::lemma_div_pos_is_pos((diff as int) * (r as int), d as int);
    }
    let scaled: u64 = (diff as u64 * r) / d;
    let s: u64 = a as u64 + scaled;
    if s > 255 {
        255
    } else {
        s as u8
    }
}

/// The bilinear output pixel at target coordinate (x, y).
pub(crate) fn bilinear_pixel_at(img: &Images, x: u32, y: u32, nw: u32, nh: u32) -> (p: Pixels)
    requires
        img.well_formed(),
        x < nw,
        y < nh,
        0 < img.width,
        0 < img.height,
    ensures
        p == bilinear_pixel(img@, nw as int, nh as int, x as int, y as int),
{
    let w = img.width;
    let h = img.height;
    let xw: u64 = crate::image::row_major_index(0, x, w);
    let yh: u64 = crate::image::row_major_index(0, y, h);
    let x1: u64 = xw / nw as u64;
    let rx: u64 = xw % nw as u64;
    let y1: u64 = yh / nh as u64;
    let ry: u64 = yh % nh as u64;
    proof {
        lemma_nearest_source_in_range(x as int, w as int, nw as int);
        lemma_nearest_source_in_range(y as int, h as int, nh as int);
        lemma_mod_pos_bound(x as int * w as int, nw as int);
        lemma_mod_pos_bound(y as int * h as int, nh as int);
    }
    let x1u: u32 = x1 as u32;
    let y1u: u32 = y1 as u32;
    let x2u: u32 = if x1u + 1 < w {
        x1u + 1
    } else {
        w - 1
    };
    let y2u: u32 = if y1u + 1 < h {
        y1u + 1
    } else {
        h - 1
    };
    let tl = read_at(img, x1u, y1u);
    let tr = read_at(img, x2u, y1u);
    let bl = read_at(img, x1u, y2u);
    let br = read_at(img, x2u, y2u);
    let top_r = blend_channel(tl.red, tr.red, rx, nw as u64);
    let bot_r = blend_channel(bl.red, br.red, rx, nw as u64);
    let out_r = blend_channel(top_r, bot_r, ry, nh as u64);
    let top_g = blend_channel(tl.green, tr.green, rx, nw as u64);
    let bot_g = blend_channel(bl.green, br.green, rx, nw as u64);
    let out_g = blend_channel(top_g, bot_g, ry, nh as u64);
    let top_b = blend_channel(tl.blue, tr.blue, rx, nw as u64);
    let bot_b = blend_channel(bl.blue, br.blue, rx, nw as u64);
    let out_b = blend_channel(top_b, bot_b, ry, nh as u64);
    let top_a = blend_channel(tl.alpha, tr.alpha, rx, nw as u64);
    let bot_a = blend_channel(bl.alpha, br.alpha, rx, nw as u64);
    let out_a = blend_channel(top_a, bot_a, ry, nh as u64);
    Pixels { red: out_r, green: out_g, blue: out_b, alpha: out_a }
}

pub struct ResizeNearestNeighbour {
    pub new_width: u32,
    pub new_height: u32,
    pub image: Images,
}

impl ResizeNearestNeighbour {
    pub fn new(new_width: u32, new_height: u32, image: &Images) -> (r: ResizeNearestNeighbour)
        ensures
            r.new_width == new_width,
            r.new_height == new_height,
            r.image@ == image@,
    {
        ResizeNearestNeighbour {
            new_width,
            new_height,
            image: Images::new(
                image.get_width(),
                image.get_height(),
                image.get_channels(),
                image.get_image(),
            ),
        }
    }

    /// Resample the stored buffer to the target dimensions, each output
    /// pixel copied from its nearest source pixel.
    ///
    /// Succeeds exactly when the target is non-empty and the source has
    /// at least one pixel to sample.
    pub fn apply(&self) -> (r: Result<Images, ImageError>)
        requires
            self.image.well_formed(),
        ensures
            match r {
                Ok(out) => {
                    &&& resize_ok(self.image@, self.new_width as int, self.new_height as int)
                    &&& out@ == nearest_model(self.image@, self.new_width, self.new_height)
                    &&& out.well_formed()
                },
                Err(e) => {
                    &&& e == ImageError::InvalidDimensions
                    &&& !resize_ok(self.image@, self.new_width as int, self.new_height as int)
                },
            },
    {
        if self.new_width == 0 || self.new_height == 0 || self.image.width == 0 || self.image.height
            == 0 {
            return Err(ImageError::InvalidDimensions);
        }
        let data = build_grid(
            &self.image,
            self.new_width,
            self.new_height,
            PixelRule::Nearest(self.new_width, self.new_height),
        );
        let out = Images::new(self.new_width, self.new_height, self.image.channels, data);
        proof {
            assert(out@ =~= nearest_model(self.image@, self.new_width, self.new_height));
        }
        Ok(out)
    }
}

pub struct ResizeBilinearInterpolation {
    pub new_width: u32,
    pub new_height: u32,
    pub image: Images,
}

impl ResizeBilinearInterpolation {
    pub fn new(new_width: u32, new_height: u32, image: &Images) -> (r: ResizeBilinearInterpolation)
        ensures
            r.new_width == new_width,
            r.new_height == new_height,
            r.image@ == image@,
    {
        ResizeBilinearInterpolation {
            new_width,
            new_height,
            image: Images::new(
                image.get_width(),
                image.get_height(),
                image.get_channels(),
                image.get_image(),
            ),
        }
    }

    /// Resample the stored buffer to the target dimensions, each output
    /// pixel blended from its four surrounding source pixels.
    ///
    /// Succeeds exactly when the target is non-empty and the source has
    /// at least one pixel to sample.
    pub fn apply(&self) -> (r: Result<Images, ImageError>)
        requires
            self.image.well_formed(),
        ensures
            match r {
                Ok(out) => {
                    &&& resize_ok(self.image@, self.new_width as int, self.new_height as int)
                    &&& out@ == bilinear_model(self.image@, self.new_width, self.new_height)
                    &&& out.well_formed()
                },
                Err(e) => {
                    &&& e == ImageError::InvalidDimensions
                    &&& !resize_ok(self.image@, self.new_width as int, self.new_height as int)
                },
            },
    {
        if self.new_width == 0 || self.new_height == 0 || self.image.width == 0 || self.image.height
            == 0 {
            return Err(ImageError::InvalidDimensions);
        }
        let data = build_grid(
            &self.image,
            self.new_width,
            self.new_height,
            PixelRule::Bilinear(self.new_width, self.new_height),
        );
        let out = Images::new(self.new_width, self.new_height, self.image.channels, data);
        proof {
            assert(out@ =~= bilinear_model(self.image@, self.new_width, self.new_height));
        }
        Ok(out)
    }
}

/// Blending by a zero fraction returns the first argument on every
/// channel, whatever the second argument is.
proof fn lemma_blend_zero4(a: Pixels, b: Pixels, d: int)
    requires
        0 < d,
    ensures
        blend(chan(a, 0), chan(b, 0), 0, d) == chan(a, 0),
        blend(chan(a, 1), chan(b, 1), 0, d) == chan(a, 1),
        blend(chan(a, 2), chan(b, 2), 0, d) == chan(a, 2),
        blend(chan(a, 3), chan(b, 3), 0, d) == chan(a, 3),
{
    lemma_div_of0(d);
    assert(sat_sub(chan(b, 0), chan(a, 0)) * 0 == 0);
    assert(sat_sub(chan(b, 1), chan(a, 1)) * 0 == 0);
    assert(sat_sub(chan(b, 2), chan(a, 2)) * 0 == 0);
    assert(sat_sub(chan(b, 3), chan(a, 3)) * 0 == 0);
}

/// Resampling a buffer to its own dimensions with the nearest-neighbour
/// rule returns the buffer exactly.
pub proof fn lemma_nearest_identity(m: ImageModel, nw: u32, nh: u32)
    requires
        m.wf(),
        0 < m.width,
        0 < m.height,
        nw == m.width,
        nh == m.height,
    ensures
        nearest_model(m, nw, nh) == m,
{
    let w = m.width;
    let h = m.height;
    let out = nearest_model(m, nw, nh);
    assert forall|i: int| 0 <= i < out.data.len() implies out.data[i] == m.data[i] by {
        lemma_split_index(i, w, h);
        let x = i % w;
        let y = i / w;
        lemma_fundamental_div_mod_converse(x * w, w, x, 0);
        lemma_fundamental_div_mod_converse(y * h, h, y, 0);
        assert(out.data[i] == m.pix(x, y));
    }
    assert(out.data =~= m.data);
    assert(out =~= m);
}

/// Resampling a buffer to its own dimensions with the bilinear rule
/// returns the buffer exactly: every remainder fraction is zero, so each
/// blend collapses to its first corner.
pub proof fn lemma_bilinear_identity(m: ImageModel, nw: u32, nh: u32)
    requires
        m.wf(),
        0 < m.width,
        0 < m.height,
        nw == m.width,
        nh == m.height,
    ensures
        bilinear_model(m, nw, nh) == m,
{
    let w = m.width;
    let h = m.height;
    let out = bilinear_model(m, nw, nh);
    assert forall|i: int| 0 <= i < out.data.len() implies out.data[i] == m.data[i] by {
        lemma_split_index(i, w, h);
        let x = i % w;
        let y = i / w;
        lemma_fundamental_div_mod_converse(x * w, w, x, 0);
        lemma_fundamental_div_mod_converse(y * h, h, y, 0);
        let x2 = if x + 1 < w {
            x + 1
        } else {
            w - 1
        };
        let y2 = if y + 1 < h {
            y + 1
        } else {
            h - 1
        };
        let tl = m.pix(x, y);
        let tr = m.pix(x2, y);
        let bl = m.pix(x, y2);
        let br = m.pix(x2, y2);
        lemma_blend_zero4(tl, tr, w);
        lemma_blend_zero4(bl, br, w);
        lemma_blend_zero4(tl, bl, h);
        assert(out.data[i] == bilinear_pixel(m, w, h, x, y));
        assert(bilinear_pixel(m, w, h, x, y) == tl);
        assert(out.data[i] == m.data[i]);
    }
    assert(out.data =~= m.data);
    assert(out =~= m);
}

} // verus!
