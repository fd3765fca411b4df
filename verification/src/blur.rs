use vstd::prelude::*;

use crate::convolution::{conv_out_h, conv_out_w};
use crate::grid::{build_grid, grid_model, PixelRule};
use crate::image::{ImageModel, Images};
use crate::pixel::{chan, clamp255, Pixels};

verus! {

/// Selects a smoothing kernel.
#[derive(Clone, Copy)]
pub enum SmoothingKernelChoices {
    Gaussian,
    BoxBlur,
}

/// The 3x3 weight presets of the smoothing kernels, row-major.
pub open spec fn smoothing_weights(choice: SmoothingKernelChoices) -> Seq<u8> {
    match choice {
        SmoothingKernelChoices::Gaussian => seq![1u8, 2u8, 1u8, 2u8, 4u8, 2u8, 1u8, 2u8, 1u8],
        SmoothingKernelChoices::BoxBlur => seq![1u8, 1u8, 1u8, 1u8, 1u8, 1u8, 1u8, 1u8, 1u8],
    }
}

/// The brightness normalizer of a smoothing kernel: the sum of all nine
/// kernel weights.
pub open spec fn smoothing_normalizer(choice: SmoothingKernelChoices) -> int {
    let k = smoothing_weights(choice);
    k[0] + k[1] + k[2] + k[3] + k[4] + k[5] + k[6] + k[7] + k[8]
}

fn select_smoothing_kernel(choice: SmoothingKernelChoices) -> (k: Vec<u8>)
    ensures
        k@ == smoothing_weights(choice),
{
    match choice {
        SmoothingKernelChoices::Gaussian => {
            let k = vec![1u8, 2u8, 1u8, 2u8, 4u8, 2u8, 1u8, 2u8, 1u8];
            proof {
                assert(k@ =~= smoothing_weights(SmoothingKernelChoices::Gaussian));
            }
            k
        },
        SmoothingKernelChoices::BoxBlur => {
            let k = vec![1u8, 1u8, 1u8, 1u8, 1u8, 1u8, 1u8, 1u8, 1u8];
            proof {
                assert(k@ =~= smoothing_weights(SmoothingKernelChoices::BoxBlur));
            }
            k
        },
    }
}

/// The smoothing engine's weighted sample sum at window center
/// (cx, cy) for channel `c`.
///
/// The engine walks window offsets 0 and 1 only, so each output pixel
/// samples the 2x2 sub-window whose kernel weights sit at row-major
/// positions 0, 1, 3 and 4; the normalizer still sums all nine weights.
pub open spec fn blur_sum(m: ImageModel, k: Seq<u8>, cx: int, cy: int, c: int) -> int {
    k[0] * chan(m.pix(cx - 1, cy - 1), c) + k[1] * chan(m.pix(cx, cy - 1), c) + k[3] * chan(
        m.pix(cx - 1, cy),
        c,
    ) + k[4] * chan(m.pix(cx, cy), c)
}

/// The smoothed output pixel for window center (cx, cy): each color
/// channel is the normalized sample sum clamped into the channel range,
/// and the alpha channel is forced fully opaque.
pub open spec fn blur_pixel(m: ImageModel, choice: SmoothingKernelChoices, cx: int, cy: int) -> Pixels {
    let k = smoothing_weights(choice);
    let n = smoothing_normalizer(choice);
    Pixels {
        red: clamp255(blur_sum(m, k, cx, cy, 0) / n) as u8,
        green: clamp255(blur_sum(m, k, cx, cy, 1) / n) as u8,
        blue: clamp255(blur_sum(m, k, cx, cy, 2) / n) as u8,
        alpha: 255,
    }
}

/// The buffer the smoothing engine produces: one pixel per interior
/// window center, so two pixels shorter on each axis.
pub open spec fn blur_model(m: ImageModel, choice: SmoothingKernelChoices) -> ImageModel {
    grid_model(m, conv_out_w(m), conv_out_h(m), PixelRule::Smooth(choice))
}

/// The smoothed output pixel at window center (cx, cy).
pub(crate) fn blur_pixel_at(img: &Images, cx: u32, cy: u32, choice: SmoothingKernelChoices) -> (p:
    Pixels)
    requires
        img.well_formed(),
        1 <= cx < img.width,
        1 <= cy < img.height,
    ensures
        p == blur_pixel(img@, choice, cx as int, cy as int),
{
    let k = select_smoothing_kernel(choice);
    let norm: u32 = match choice {
        SmoothingKernelChoices::Gaussian => 16,
        SmoothingKernelChoices::BoxBlur => 9,
    };
    let p00 = crate::grid::read_at(img, cx - 1, cy - 1);
    let p10 = crate::grid::read_at(img, cx, cy - 1);
    let p01 = crate::grid::read_at(img, cx - 1, cy);
    let p11 = crate::grid::read_at(img, cx, cy);
    let k0 = k[0];
    let k1 = k[1];
    let k3 = k[3];
    let k4 = k[4];
    let sum_r: u32 = wmul_u8(k0, p00.red) + wmul_u8(k1, p10.red) + wmul_u8(k3, p01.red) + wmul_u8(
        k4,
        p11.red,
    );
    let sum_g: u32 = wmul_u8(k0, p00.green) + wmul_u8(k1, p10.green) + wmul_u8(k3, p01.green)
        + wmul_u8(k4, p11.green);
    let sum_b: u32 = wmul_u8(k0, p00.blue) + wmul_u8(k1, p10.blue) + wmul_u8(k3, p01.blue)
        + wmul_u8(k4, p11.blue);
    Pixels {
        red: clamp_u32(sum_r / norm),
        green: clamp_u32(sum_g / norm),
        blue: clamp_u32(sum_b / norm),
        alpha: 255,
    }
}

/// One weighted sample: kernel weight times channel value.
fn wmul_u8(k: u8, c: u8) -> (r: u32)
    ensures
        r == k as int * c as int,
        r <= 65025,
{
    proof {
        assert((k as int) * (c as int) <= 255 * 255) by (nonlinear_arith)
            requires
                0 <= k <= 255,
                0 <= c <= 255,
        ;
        assert(0 <= (k as int) * (c as int)) by (nonlinear_arith)
            requires
                0 <= k,
                0 <= c,
        ;
    }
    k as u32 * c as u32
}

/// Clamp a non-negative sum into the channel range.
fn clamp_u32(v: u32) -> (r: u8)
    ensures
        r as int == clamp255(v as int),
{
    if v > 255 {
        255
    } else {
        v as u8
    }
}

pub struct Blur {
    pub kernel_choice: SmoothingKernelChoices,
}

impl Blur {
    pub fn new(kernel_choice: SmoothingKernelChoices) -> (r: Blur)
        ensures
            r.kernel_choice == kernel_choice,
    {
        Blur { kernel_choice }
    }

    /// Smooth `old_image` with the selected kernel. The output drops the
    /// one-pixel border, so an input with either dimension at most two
    /// produces an empty buffer.
    pub fn apply(&self, old_image: &Images) -> (r: Images)
        requires
            old_image.well_formed(),
        ensures
            r@ == blur_model(old_image@, self.kernel_choice),
            r.well_formed(),
    {
        let out_w: u32 = if old_image.width >= 2 {
            old_image.width - 2
        } else {
            0
        };
        let out_h: u32 = if old_image.height >= 2 {
            old_image.height - 2
        } else {
            0
        };
        let data = build_grid(old_image, out_w, out_h, PixelRule::Smooth(self.kernel_choice));
        let r = Images::new(out_w, out_h, old_image.channels, data);
        proof {
            assert(r@ =~= blur_model(old_image@, self.kernel_choice));
        }
        r
    }
}

impl crate::operations::Operation for Blur {
    /// The trait view of the smoothing filter; see the inherent `apply`.
    fn apply(&self, old_image: &Images) -> (r: Images)
        ensures
            r@ == blur_model(old_image@, self.kernel_choice),
    {
        Blur::apply(self, old_image)
    }
}

} // verus!
