use vstd::prelude::*;

use crate::convolution::{conv_out_h, conv_out_w, conv_pixel};
use crate::grid::{build_grid, grid_model, PixelRule};
use crate::image::{ImageModel, Images};
use crate::pixel::Pixels;

verus! {

/// Selects an edge-detecting kernel.
#[derive(Clone, Copy)]
pub enum EdgeDetectingKernelChoices {
    Outline,
    SobelX,
    SobelY,
    Emboss,
}

/// The 3x3 weight presets of the edge-detecting kernels, row-major.
pub open spec fn edge_detecting_weights(choice: EdgeDetectingKernelChoices) -> Seq<i32> {
    match choice {
        EdgeDetectingKernelChoices::Outline => seq![-1i32, -1i32, -1i32, -1i32, 8i32, -1i32, -1i32, -1i32, -1i32],
        EdgeDetectingKernelChoices::SobelX => seq![-1i32, 0i32, 1i32, -2i32, 0i32, 2i32, -1i32, 0i32, 1i32],
        EdgeDetectingKernelChoices::SobelY => seq![-1i32, -2i32, -1i32, 0i32, 0i32, 0i32, 1i32, 2i32, 1i32],
        EdgeDetectingKernelChoices::Emboss => seq![-2i32, -1i32, 0i32, -1i32, 1i32, 1i32, 0i32, 2i32, 2i32],
    }
}

fn select_edge_detecting_kernel(choice: EdgeDetectingKernelChoices) -> (k: Vec<i32>)
    ensures
        k@ == edge_detecting_weights(choice),
        k@.len() == 9,
        forall|i: int| 0 <= i < 9 ==> -2 <= #[trigger] k@[i] <= 9,
{
    match choice {
        EdgeDetectingKernelChoices::Outline => {
            let k = vec![-1i32, -1i32, -1i32, -1i32, 8i32, -1i32, -1i32, -1i32, -1i32];
            proof {
                assert(k@ =~= edge_detecting_weights(EdgeDetectingKernelChoices::Outline));
            }
            k
        },
        EdgeDetectingKernelChoices::SobelX => {
            let k = vec![-1i32, 0i32, 1i32, -2i32, 0i32, 2i32, -1i32, 0i32, 1i32];
            proof {
                assert(k@ =~= edge_detecting_weights(EdgeDetectingKernelChoices::SobelX));
            }
            k
        },
        EdgeDetectingKernelChoices::SobelY => {
            let k = vec![-1i32, -2i32, -1i32, 0i32, 0i32, 0i32, 1i32, 2i32, 1i32];
            proof {
                assert(k@ =~= edge_detecting_weights(EdgeDetectingKernelChoices::SobelY));
            }
            k
        },
        EdgeDetectingKernelChoices::Emboss => {
            let k = vec![-2i32, -1i32, 0i32, -1i32, 1i32, 1i32, 0i32, 2i32, 2i32];
            proof {
                assert(k@ =~= edge_detecting_weights(EdgeDetectingKernelChoices::Emboss));
            }
            k
        },
    }
}

/// The edge-detected output pixel for window center (cx, cy): the raw
/// 3x3 sum clamped, without normalization.
pub open spec fn edge_pixel(m: ImageModel, choice: EdgeDetectingKernelChoices, cx: int, cy: int) -> Pixels {
    conv_pixel(m, edge_detecting_weights(choice), cx, cy)
}

/// The buffer the edge-detecting filter produces: one pixel per interior
/// window center, so two pixels shorter on each axis.
pub open spec fn edge_model(m: ImageModel, choice: EdgeDetectingKernelChoices) -> ImageModel {
    grid_model(m, conv_out_w(m), conv_out_h(m), PixelRule::Edge(choice))
}

/// The edge-detected output pixel at window center (cx, cy).
pub(crate) fn edge_pixel_at(img: &Images, cx: u32, cy: u32, choice: EdgeDetectingKernelChoices) -> (p: Pixels)
    requires
        img.well_formed(),
        1 <= cx,
        cx + 1 < img.width,
        1 <= cy,
        cy + 1 < img.height,
    ensures
        p == edge_pixel(img@, choice, cx as int, cy as int),
{
    let k = select_edge_detecting_kernel(choice);
    crate::convolution::conv_pixel_at(img, cx, cy, &k)
}

pub struct EdgeDetection {
    pub kernel_choice: EdgeDetectingKernelChoices,
}

impl EdgeDetection {
    pub fn new(kernel_choice: EdgeDetectingKernelChoices) -> (r: EdgeDetection)
        ensures
            r.kernel_choice == kernel_choice,
    {
        EdgeDetection { kernel_choice }
    }

    /// Detect edges in `old_image` with the selected kernel. The output
    /// drops the one-pixel border, so an input with either dimension at
    /// most two produces an empty buffer.
    pub fn apply(&self, old_image: &Images) -> (r: Images)
        requires
            old_image.well_formed(),
        ensures
            r@ == edge_model(old_image@, self.kernel_choice),
            r.well_formed(),
    {
        let out_w: u32 = if old_image.width >= 2 {
            old_image.width - 2
        } else {
            0
        };
        let out_h: u32 = if old_image.height >= 2 {
            old_image.height - 2
        } else {
            0
        };
        let data = build_grid(old_image, out_w, out_h, PixelRule::Edge(self.kernel_choice));
        let r = Images::new(out_w, out_h, old_image.channels, data);
        proof {
            assert(r@ =~= edge_model(old_image@, self.kernel_choice));
        }
        r
    }
}

impl crate::operations::Operation for EdgeDetection {
    /// The trait view of the edge-detecting filter; see the inherent `apply`.
    fn apply(&self, old_image: &Images) -> (r: Images)
        ensures
            r@ == edge_model(old_image@, self.kernel_choice),
    {
        EdgeDetection::apply(self, old_image)
    }
}

} // verus!
