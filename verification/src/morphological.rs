use vstd::prelude::*;

use crate::grid::{build_grid, grid_model, read_at, PixelRule};
use crate::image::{ImageModel, Images};
use crate::pixel::{chan, Pixels};

verus! {

/// Selects a morphological operation with its structuring element.
#[derive(Clone, Copy)]
pub enum MorphologicalOperations {
    Erode(MorphologicalKernelChoices),
    Dialate(MorphologicalKernelChoices),
}

/// The structuring-element presets: 3x3 boolean-like weights that say
/// which neighbours take part in the min / max.
#[derive(Clone, Copy)]
pub enum MorphologicalKernelChoices {
    CrossKernel,
    DiamondKernel,
    HorizontalKernel,
    VerticalKernel,
    DiagonalKernel,
    DiagonalKernel2,
}

/// The 3x3 structuring-element weights, row-major.
pub open spec fn morph_weights(choice: MorphologicalKernelChoices) -> Seq<i32> {
    match choice {
        MorphologicalKernelChoices::CrossKernel => seq![0i32, 1i32, 0i32, 1i32, 1i32, 1i32, 0i32, 1i32, 0i32],
        MorphologicalKernelChoices::DiamondKernel => seq![0i32, 1i32, 0i32, 1i32, 1i32, 1i32, 0i32, 1i32, 0i32],
        MorphologicalKernelChoices::HorizontalKernel => seq![1i32, 1i32, 1i32, 0i32, 0i32, 0i32, 1i32, 1i32, 1i32],
        MorphologicalKernelChoices::VerticalKernel => seq![1i32, 0i32, 1i32, 1i32, 0i32, 1i32, 1i32, 0i32, 1i32],
        MorphologicalKernelChoices::DiagonalKernel => seq![0i32, 0i32, 1i32, 0i32, 1i32, 0i32, 1i32, 0i32, 0i32],
        MorphologicalKernelChoices::DiagonalKernel2 => seq![1i32, 0i32, 0i32, 0i32, 1i32, 0i32, 0i32, 0i32, 1i32],
    }
}

fn choose_kernel(kernel: MorphologicalKernelChoices) -> (k: Vec<i32>)
    ensures
        k@ == morph_weights(kernel),
        k@.len() == 9,
{
    match kernel {
        MorphologicalKernelChoices::CrossKernel => {
            let k = vec![0i32, 1i32, 0i32, 1i32, 1i32, 1i32, 0i32, 1i32, 0i32];
            proof {
                assert(k@ =~= morph_weights(MorphologicalKernelChoices::CrossKernel));
            }
            k
        },
        MorphologicalKernelChoices::DiamondKernel => {
            let k = vec![0i32, 1i32, 0i32, 1i32, 1i32, 1i32, 0i32, 1i32, 0i32];
            proof {
                assert(k@ =~= morph_weights(MorphologicalKernelChoices::DiamondKernel));
            }
            k
        },
        MorphologicalKernelChoices::HorizontalKernel => {
            let k = vec![1i32, 1i32, 1i32, 0i32, 0i32, 0i32, 1i32, 1i32, 1i32];
            proof {
                assert(k@ =~= morph_weights(MorphologicalKernelChoices::HorizontalKernel));
            }
            k
        },
        MorphologicalKernelChoices::VerticalKernel => {
            let k = vec![1i32, 0i32, 1i32, 1i32, 0i32, 1i32, 1i32, 0i32, 1i32];
            proof {
                assert(k@ =~= morph_weights(MorphologicalKernelChoices::VerticalKernel));
            }
            k
        },
        MorphologicalKernelChoices::DiagonalKernel => {
            let k = vec![0i32, 0i32, 1i32, 0i32, 1i32, 0i32, 1i32, 0i32, 0i32];
            proof {
                assert(k@ =~= morph_weights(MorphologicalKernelChoices::DiagonalKernel));
            }
            k
        },
        MorphologicalKernelChoices::DiagonalKernel2 => {
            let k = vec![1i32, 0i32, 0i32, 0i32, 1i32, 0i32, 0i32, 0i32, 1i32];
            proof {
                assert(k@ =~= morph_weights(MorphologicalKernelChoices::DiagonalKernel2));
            }
            k
        },
    }
}

/// The running min (erosion) or max (dilation) of channel `c` over the
/// first `n` structuring-element positions around center (x, y).
/// Position `i` addresses the neighbour at offset (i % 3 - 1, i / 3 - 1)
/// and takes part exactly when its weight is non-zero; the fold is
/// seeded at the channel maximum for erosion and at zero for dilation.
pub open spec fn morph_fold(
    m: ImageModel,
    k: Seq<i32>,
    x: int,
    y: int,
    c: int,
    erode: bool,
    n: int,
) -> int
    decreases n,
{
    if n <= 0 {
        if erode {
            255
        } else {
            0
        }
    } else {
        let prev = morph_fold(m, k, x, y, c, erode, n - 1);
        let v = chan(m.pix(x + (n - 1) % 3 - 1, y + (n - 1) / 3 - 1), c);
        if k[n - 1] != 0 {
            if erode {
                if v <= prev {
                    v
                } else {
                    prev
                }
            } else {
                if v >= prev {
                    v
                } else {
                    prev
                }
            }
        } else {
            prev
        }
    }
}

/// The morphological output pixel at interior position (x, y): the fold
/// over all nine structuring-element positions, channel by channel.
pub open spec fn morph_pixel(
    m: ImageModel,
    choice: MorphologicalKernelChoices,
    erode: bool,
    x: int,
    y: int,
) -> Pixels {
    let k = morph_weights(choice);
    Pixels {
        red: morph_fold(m, k, x, y, 0, erode, 9) as u8,
        green: morph_fold(m, k, x, y, 1, erode, 9) as u8,
        blue: morph_fold(m, k, x, y, 2, erode, 9) as u8,
        alpha: morph_fold(m, k, x, y, 3, erode, 9) as u8,
    }
}

/// Whether (x, y) lies strictly inside the one-pixel border.
pub open spec fn morph_interior(m: ImageModel, x: int, y: int) -> bool {
    1 <= x && x < m.width - 1 && 1 <= y && y < m.height - 1
}

/// The buffer a morphological operation produces: the original
/// dimensions, interior positions folded, the outer ring left at the
/// default pixel.
pub open spec fn morph_model(
    m: ImageModel,
    erode: bool,
    choice: MorphologicalKernelChoices,
) -> ImageModel {
    grid_model(m, m.width, m.height, PixelRule::Morph(erode, choice))
}

/// A morphological operation leaves the outer one-pixel ring at the
/// default pixel: only interior positions are computed.
pub proof fn lemma_morph_ring_default(
    m: ImageModel,
    erode: bool,
    choice: MorphologicalKernelChoices,
    x: int,
    y: int,
)
    requires
        m.wf(),
        0 <= x < m.width,
        0 <= y < m.height,
        !morph_interior(m, x, y),
    ensures
        morph_model(m, erode, choice).pix(x, y) == (Pixels { red: 0, green: 0, blue: 0, alpha: 255 }),
{
    crate::grid::lemma_rm_index(x, y, m.width);
    crate::grid::lemma_rm_bound(x, y, m.width, m.height);
}

/// The morphological output pixel at position (x, y).
pub(crate) fn morph_pixel_at(
    img: &Images,
    x: u32,
    y: u32,
    erode: bool,
    choice: MorphologicalKernelChoices,
) -> (p: Pixels)
    requires
        img.well_formed(),
        x < img.width,
        y < img.height,
    ensures
        p == crate::grid::rule_pixel(img@, PixelRule::Morph(erode, choice), x as int, y as int),
{
    let interior = 1 <= x && x + 1 < img.width && 1 <= y && y + 1 < img.height;
    if !interior {
        return Pixels { red: 0, green: 0, blue: 0, alpha: 255 };
    }
    let k = choose_kernel(choice);
    let ghost km = morph_weights(choice);
    let mut acc_r: u8 = if erode {
        255
    } else {
        0
    };
    let mut acc_g: u8 = acc_r;
    let mut acc_b: u8 = acc_r;
    let mut acc_a: u8 = acc_r;
    let mut i: usize = 0;
    while i < 9
        invariant
            img.well_formed(),
            1 <= x && x + 1 < img.width,
            1 <= y && y + 1 < img.height,
            k@ == km,
            k@.len() == 9,
            0 <= i <= 9,
            acc_r as int == morph_fold(img@, km, x as int, y as int, 0, erode, i as int),
            acc_g as int == morph_fold(img@, km, x as int, y as int, 1, erode, i as int),
            acc_b as int == morph_fold(img@, km, x as int, y as int, 2, erode, i as int),
            acc_a as int == morph_fold(img@, km, x as int, y as int, 3, erode, i as int),
        decreases 9 - i,
    {
        let kv = k[i];
        if kv != 0 {
            let dx: u32 = (i % 3) as u32;
            let dy: u32 = (i / 3) as u32;
            let px = read_at(img, x - 1 + dx, y - 1 + dy);
            if erode {
                if px.red < acc_r {
                    acc_r = px.red;
                }
                if px.green < acc_g {
                    acc_g = px.green;
                }
                if px.blue < acc_b {
                    acc_b = px.blue;
                }
                if px.alpha < acc_a {
                    acc_a = px.alpha;
                }
            } else {
                if px.red > acc_r {
                    acc_r = px.red;
                }
                if px.green > acc_g {
                    acc_g = px.green;
                }
                if px.blue > acc_b {
                    acc_b = px.blue;
                }
                if px.alpha > acc_a {
                    acc_a = px.alpha;
                }
            }
        }
        i = i + 1;
    }
    Pixels { red: acc_r, green: acc_g, blue: acc_b, alpha: acc_a }
}

pub struct Erosion {
    pub image: Images,
    pub kernel_choice: MorphologicalKernelChoices,
}

impl Erosion {
    pub fn new(image: &Images, kernel_choice: MorphologicalKernelChoices) -> (r: Erosion)
        ensures
            r.image@ == image@,
            r.kernel_choice == kernel_choice,
    {
        Erosion {
            image: Images::new(
                image.get_width(),
                image.get_height(),
                image.get_channels(),
                image.get_image(),
            ),
            kernel_choice,
        }
    }

    /// Erode the stored buffer: every interior pixel becomes the
    /// channel-wise minimum over its selected neighbours, and the outer
    /// ring is left at the default pixel.
    pub fn apply(&self) -> (r: Images)
        requires
            self.image.well_formed(),
        ensures
            r@ == morph_model(self.image@, true, self.kernel_choice),
            r.well_formed(),
    {
        let data = build_grid(
            &self.image,
            self.image.width,
            self.image.height,
            PixelRule::Morph(true, self.kernel_choice),
        );
        let r = Images::new(self.image.width, self.image.height, self.image.channels, data);
        proof {
            assert(r@ =~= morph_model(self.image@, true, self.kernel_choice));
        }
        r
    }
}

pub struct Dilation {
    pub image: Images,
    pub kernel_choice: MorphologicalKernelChoices,
}

impl Dilation {
    pub fn new(image: &Images, kernel_choice: MorphologicalKernelChoices) -> (r: Dilation)
        ensures
            r.image@ == image@,
            r.kernel_choice == kernel_choice,
    {
        Dilation {
            image: Images::new(
                image.get_width(),
                image.get_height(),
                image.get_channels(),
                image.get_image(),
            ),
            kernel_choice,
        }
    }

    /// Dilate the stored buffer: every interior pixel becomes the
    /// channel-wise maximum over its selected neighbours, and the outer
    /// ring is left at the default pixel.
    pub fn apply(&self) -> (r: Images)
        requires
            self.image.well_formed(),
        ensures
            r@ == morph_model(self.image@, false, self.kernel_choice),
            r.well_formed(),
    {
        let data = build_grid(
            &self.image,
            self.image.width,
            self.image.height,
            PixelRule::Morph(false, self.kernel_choice),
        );
        let r = Images::new(self.image.width, self.image.height, self.image.channels, data);
        proof {
            assert(r@ =~= morph_model(self.image@, false, self.kernel_choice));
        }
        r
    }
}

} // verus!
