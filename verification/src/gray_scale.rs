use vstd::prelude::*;

use crate::grid::{build_grid, grid_model, PixelRule};
use crate::image::{ImageModel, Images};
use crate::pixel::{chan, Pixels};

verus! {

/// Selects how the grayscale value of a pixel is computed.
#[derive(Clone, Copy)]
pub enum GrayScaleAlgorithms {
    Average,
    Luminosity,
}

/// The grayscale value of one pixel.
///
/// Average truncates (r + g + b) / 3. Luminosity truncates
/// (r * 0.299 + g * 0.5879 + b * 0.114) / 3, computed here as the exact
/// rational over 30000ths; the weights deliberately do not sum to one.
pub open spec fn gray_value(p: Pixels, algo: GrayScaleAlgorithms) -> int {
    match algo {
        GrayScaleAlgorithms::Average => (chan(p, 0) + chan(p, 1) + chan(p, 2)) / 3,
        GrayScaleAlgorithms::Luminosity => (2990 * chan(p, 0) + 5879 * chan(p, 1) + 1140 * chan(
            p,
            2,
        )) / 30000,
    }
}

/// The grayscale output pixel: the value on all three color channels,
/// alpha passed through unchanged.
pub open spec fn gray_pixel(p: Pixels, algo: GrayScaleAlgorithms) -> Pixels {
    Pixels {
        red: gray_value(p, algo) as u8,
        green: gray_value(p, algo) as u8,
        blue: gray_value(p, algo) as u8,
        alpha: p.alpha,
    }
}

/// The buffer grayscale reduction produces: the same grid, each pixel
/// reduced independently.
pub open spec fn gray_model(m: ImageModel, algo: GrayScaleAlgorithms) -> ImageModel {
    grid_model(m, m.width, m.height, PixelRule::Gray(algo))
}

/// The grayscale value of `pix` under `algo`.
pub(crate) fn select_grayscale_algorithm(algo: &GrayScaleAlgorithms, pix: &Pixels) -> (v: u8)
    ensures
        v as int == gray_value(*pix, *algo),
{
    match algo {
        GrayScaleAlgorithms::Average => {
            let sum: u32 = pix.red as u32 + pix.green as u32 + pix.blue as u32;
            (sum / 3) as u8
        },
        GrayScaleAlgorithms::Luminosity => {
            let sum: u32 = 2990 * pix.red as u32 + 5879 * pix.green as u32 + 1140 * pix.blue as u32;
            (sum / 30000) as u8
        },
    }
}

pub struct GrayScale {
    pub algo: GrayScaleAlgorithms,
}

impl GrayScale {
    pub fn new(algo: GrayScaleAlgorithms) -> (r: GrayScale)
        ensures
            r.algo == algo,
    {
        GrayScale { algo }
    }

    /// Reduce every pixel of `old_image` to its grayscale value.
    pub fn apply(&self, old_image: &Images) -> (r: Images)
        requires
            old_image.well_formed(),
        ensures
            r@ == gray_model(old_image@, self.algo),
            r.well_formed(),
    {
        let data = build_grid(
            old_image,
            old_image.width,
            old_image.height,
            PixelRule::Gray(self.algo),
        );
        let r = Images::new(old_image.width, old_image.height, old_image.channels, data);
        proof {
            assert(r@ =~= gray_model(old_image@, self.algo));
        }
        r
    }
}

impl crate::operations::Operation for GrayScale {
    /// The trait view of the grayscale reducer; see the inherent `apply`.
    fn apply(&self, old_image: &Images) -> (r: Images)
        ensures
            r@ == gray_model(old_image@, self.algo),
    {
        GrayScale::apply(self, old_image)
    }
}

} // verus!
