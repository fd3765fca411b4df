use vstd::prelude::*;

use crate::convolution::{conv_out_h, conv_out_w, conv_pixel};
use crate::grid::{build_grid, grid_model, PixelRule};
use crate::image::{ImageModel, Images};
use crate::pixel::Pixels;

verus! {

/// Selects a sharpening kernel.
#[derive(Clone, Copy)]
pub enum SharpeningKernelChoices {
    Basic,
    HighPass,
    EdgeEnhancement,
}

/// The 3x3 weight presets of the sharpening kernels, row-major.
pub open spec fn sharpening_weights(choice: SharpeningKernelChoices) -> Seq<i32> {
    match choice {
        SharpeningKernelChoices::Basic => seq![0i32, -1i32, 0i32, -1i32, 5i32, -1i32, 0i32, -1i32, 0i32],
        SharpeningKernelChoices::HighPass => seq![-1i32, -1i32, -1i32, -1i32, 8i32, -1i32, -1i32, -1i32, -1i32],
        SharpeningKernelChoices::EdgeEnhancement => seq![-1i32, -1i32, -1i32, -1i32, 9i32, -1i32, -1i32, -1i32, -1i32],
    }
}

fn select_sharpening_kernel(choice: SharpeningKernelChoices) -> (k: Vec<i32>)
    ensures
        k@ == sharpening_weights(choice),
        k@.len() == 9,
        forall|i: int| 0 <= i < 9 ==> -2 <= #[trigger] k@[i] <= 9,
{
    match choice {
        SharpeningKernelChoices::Basic => {
            let k = vec![0i32, -1i32, 0i32, -1i32, 5i32, -1i32, 0i32, -1i32, 0i32];
            proof {
                assert(k@ =~= sharpening_weights(SharpeningKernelChoices::Basic));
            }
            k
        },
        SharpeningKernelChoices::HighPass => {
            let k = vec![-1i32, -1i32, -1i32, -1i32, 8i32, -1i32, -1i32, -1i32, -1i32];
            proof {
                assert(k@ =~= sharpening_weights(SharpeningKernelChoices::HighPass));
            }
            k
        },
        SharpeningKernelChoices::EdgeEnhancement => {
            let k = vec![-1i32, -1i32, -1i32, -1i32, 9i32, -1i32, -1i32, -1i32, -1i32];
            proof {
                assert(k@ =~= sharpening_weights(SharpeningKernelChoices::EdgeEnhancement));
            }
            k
        },
    }
}

/// The sharpened output pixel for window center (cx, cy): the raw 3x3
/// sum clamped, without normalization.
pub open spec fn sharpen_pixel(m: ImageModel, choice: SharpeningKernelChoices, cx: int, cy: int) -> Pixels {
    conv_pixel(m, sharpening_weights(choice), cx, cy)
}

/// The buffer the sharpening filter produces: one pixel per interior
/// window center, so two pixels shorter on each axis.
pub open spec fn sharpen_model(m: ImageModel, choice: SharpeningKernelChoices) -> ImageModel {
    grid_model(m, conv_out_w(m), conv_out_h(m), PixelRule::Sharp(choice))
}

/// The sharpened output pixel at window center (cx, cy).
pub(crate) fn sharpen_pixel_at(img: &Images, cx: u32, cy: u32, choice: SharpeningKernelChoices) -> (p: Pixels)
    requires
        img.well_formed(),
        1 <= cx,
        cx + 1 < img.width,
        1 <= cy,
        cy + 1 < img.height,
    ensures
        p == sharpen_pixel(img@, choice, cx as int, cy as int),
{
    let k = select_sharpening_kernel(choice);
    crate::convolution::conv_pixel_at(img, cx, cy, &k)
}

pub struct Sharpen {
    pub kernel_choice: SharpeningKernelChoices,
}

impl Sharpen {
    pub fn new(kernel_choice: SharpeningKernelChoices) -> (r: Sharpen)
        ensures
            r.kernel_choice == kernel_choice,
    {
        Sharpen { kernel_choice }
    }

    /// Sharpen `old_image` with the selected kernel. The output drops the
    /// one-pixel border, so an input with either dimension at most two
    /// produces an empty buffer.
    pub fn apply(&self, old_image: &Images) -> (r: Images)
        requires
            old_image.well_formed(),
        ensures
            r@ == sharpen_model(old_image@, self.kernel_choice),
            r.well_formed(),
    {
        let out_w: u32 = if old_image.width >= 2 {
            old_image.width - 2
        } else {
            0
        };
        let out_h: u32 = if old_image.height >= 2 {
            old_image.height - 2
        } else {
            0
        };
        let data = build_grid(old_image, out_w, out_h, PixelRule::Sharp(self.kernel_choice));
        let r = Images::new(out_w, out_h, old_image.channels, data);
        proof {
            assert(r@ =~= sharpen_model(old_image@, self.kernel_choice));
        }
        r
    }
}

impl crate::operations::Operation for Sharpen {
    /// The trait view of the sharpening filter; see the inherent `apply`.
    fn apply(&self, old_image: &Images) -> (r: Images)
        ensures
            r@ == sharpen_model(old_image@, self.kernel_choice),
    {
        Sharpen::apply(self, old_image)
    }
}

} // verus!
